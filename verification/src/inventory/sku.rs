use vstd::prelude::*;

use vstd::utf8::encode_utf8;

use crate::shared::errors::{is_validation, DomainError, DomainResult};
use crate::shared::text::{
    all_in_class, in_class, lemma_class_text_is_ascii, str_all_in_class, CharClass,
};

verus! {

/// The rule for a stock keeping unit: 3 to 48 bytes of ASCII letters, digits, `-`, `_`
/// and `.`.
pub open spec fn sku_valid(s: Seq<char>) -> bool {
    &&& 3 <= encode_utf8(s).len() <= 48
    &&& all_in_class(CharClass::Sku, s)
}

/// Stock keeping unit of a product.
#[derive(Debug, PartialEq, Eq, Hash)]
pub struct Sku(String);

impl View for Sku {
    type V = Seq<char>;

    closed spec fn view(&self) -> Seq<char> {
        self.0@
    }
}

impl Clone for Sku {
    fn clone(&self) -> (r: Self)
        ensures
            r@ == self@,
    {
        proof {
            use_type_invariant(self);
        }
        Sku(self.0.clone())
    }
}

impl Sku {
    #[verifier::type_invariant]
    spec fn well_formed(self) -> bool {
        sku_valid(self.0@)
    }

    /// What validating `value` as a stock keeping unit answers: the value itself when the rule holds,
    /// otherwise the validation error.
    pub open spec fn new_outcome(value: Seq<char>, r: DomainResult<Sku>) -> bool {
        &&& r is Ok <==> sku_valid(value)
        &&& r matches Ok(v) ==> v@ == value
        &&& r is Err
            ==> is_validation(r->Err_0, "El SKU debe tener 3 a 48 caracteres alfanuméricos, guion, punto o guion bajo"@)
    }

    /// Validates a stock keeping unit.
    pub fn new(value: &str) -> (r: DomainResult<Sku>)
        ensures
            Sku::new_outcome(value@, r),
            r is Ok <==> (3 <= encode_utf8(value@).len() && encode_utf8(value@).len() <= 48
                && forall|i: int| 0 <= i < value@.len() ==> (('0' <= #[trigger] value@[i]
                && value@[i] <= '9') || ('a' <= value@[i] && value@[i] <= 'z')
                || ('A' <= value@[i] && value@[i] <= 'Z') || value@[i] == '-'
                || value@[i] == '_' || value@[i] == '.')),
    {
        let valid = if str_all_in_class(CharClass::Sku, value) {
            proof {
                lemma_class_text_is_ascii(CharClass::Sku, value@);
            }
            let n = value.unicode_len();
            3 <= n && n <= 48
        } else {
            false
        };
        if valid {
            Ok(Sku(value.to_owned()))
        } else {
            Err(
                DomainError::validation(
                    "El SKU debe tener 3 a 48 caracteres alfanuméricos, guion, punto o guion bajo",
                ),
            )
        }
    }

    /// The text of the stock keeping unit.
    pub fn value(&self) -> (r: &str)
        ensures
            r@ == self@,
            sku_valid(r@),
    {
        proof {
            use_type_invariant(self);
        }
        self.0.as_str()
    }
}

/// Sku::new accepts exactly the texts of 3 to 48 bytes of ASCII letters, digits, `-`, `_` and `.`,
/// and gives back the text it accepted.
pub proof fn lemma_sku_rule(value: Seq<char>, r: DomainResult<Sku>)
    requires
        Sku::new_outcome(value, r),
    ensures
        r is Ok <==> (3 <= encode_utf8(value).len() && encode_utf8(value).len() <= 48
            && forall|i: int| 0 <= i < value.len() ==> (('0' <= #[trigger] value[i]
            && value[i] <= '9') || ('a' <= value[i] && value[i] <= 'z') || ('A' <= value[i]
            && value[i] <= 'Z') || value[i] == '-' || value[i] == '_' || value[i] == '.')),
        r matches Ok(v) ==> v@ == value,
{
    lemma_sku_chars(value);
}

/// The class of the characters accepted in a stock keeping unit, written out.
proof fn lemma_sku_chars(s: Seq<char>)
    ensures
        sku_valid(s) <==> (3 <= encode_utf8(s).len() && encode_utf8(s).len() <= 48
            && forall|i: int| 0 <= i < s.len() ==> (('0' <= #[trigger] s[i] && s[i] <= '9')
            || ('a' <= s[i] && s[i] <= 'z') || ('A' <= s[i] && s[i] <= 'Z') || s[i] == '-'
            || s[i] == '_' || s[i] == '.')),
{
    assert(all_in_class(CharClass::Sku, s) <==> (forall|i: int| 0 <= i < s.len()
        ==> (('0' <= #[trigger] s[i] && s[i] <= '9') || ('a' <= s[i] && s[i] <= 'z')
        || ('A' <= s[i] && s[i] <= 'Z') || s[i] == '-' || s[i] == '_' || s[i] == '.'))) by {
        if all_in_class(CharClass::Sku, s) {
            assert forall|i: int| 0 <= i < s.len() implies ((('0' <= #[trigger] s[i]
                && s[i] <= '9') || ('a' <= s[i] && s[i] <= 'z') || ('A' <= s[i] && s[i] <= 'Z')
                || s[i] == '-' || s[i] == '_' || s[i] == '.')) by {
                assert(in_class(CharClass::Sku, s[i]));
            }
        }
        if forall|i: int| 0 <= i < s.len() ==> (('0' <= #[trigger] s[i] && s[i] <= '9')
            || ('a' <= s[i] && s[i] <= 'z') || ('A' <= s[i] && s[i] <= 'Z') || s[i] == '-'
            || s[i] == '_' || s[i] == '.') {
            assert forall|i: int| 0 <= i < s.len() implies in_class(CharClass::Sku, #[trigger] s[i]) by {
                assert((('0' <= s[i] && s[i] <= '9') || ('a' <= s[i] && s[i] <= 'z')
                    || ('A' <= s[i] && s[i] <= 'Z') || s[i] == '-' || s[i] == '_'
                    || s[i] == '.'));
            }
        }
    }
}

} // verus!
