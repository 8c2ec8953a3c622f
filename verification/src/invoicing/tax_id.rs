use vstd::prelude::*;

use vstd::utf8::encode_utf8;

use crate::shared::errors::{is_validation, DomainError, DomainResult};
use crate::shared::text::{
    all_in_class, in_class, lemma_class_text_is_ascii, str_all_in_class, CharClass,
};

verus! {

/// The rule for a tax identifier: 6 to 32 bytes of ASCII letters, digits, `-` and `.`.
pub open spec fn tax_id_valid(s: Seq<char>) -> bool {
    &&& 6 <= encode_utf8(s).len() <= 32
    &&& all_in_class(CharClass::TaxId, s)
}

/// Tax identifier of a customer.
#[derive(Debug, PartialEq, Eq, Hash)]
pub struct TaxId(String);

impl View for TaxId {
    type V = Seq<char>;

    closed spec fn view(&self) -> Seq<char> {
        self.0@
    }
}

impl Clone for TaxId {
    fn clone(&self) -> (r: Self)
        ensures
            r@ == self@,
    {
        proof {
            use_type_invariant(self);
        }
        TaxId(self.0.clone())
    }
}

impl TaxId {
    #[verifier::type_invariant]
    spec fn well_formed(self) -> bool {
        tax_id_valid(self.0@)
    }

    /// What validating `value` as a tax identifier answers: the value itself when the rule holds,
    /// otherwise the validation error.
    pub open spec fn new_outcome(value: Seq<char>, r: DomainResult<TaxId>) -> bool {
        &&& r is Ok <==> tax_id_valid(value)
        &&& r matches Ok(v) ==> v@ == value
        &&& r is Err
            ==> is_validation(r->Err_0, "La identificación fiscal debe tener 6 a 32 caracteres válidos"@)
    }

    /// Validates a tax identifier.
    pub fn new(value: &str) -> (r: DomainResult<TaxId>)
        ensures
            TaxId::new_outcome(value@, r),
            r is Ok <==> (6 <= encode_utf8(value@).len() && encode_utf8(value@).len() <= 32
                && forall|i: int| 0 <= i < value@.len() ==> (('0' <= #[trigger] value@[i]
                && value@[i] <= '9') || ('a' <= value@[i] && value@[i] <= 'z')
                || ('A' <= value@[i] && value@[i] <= 'Z') || value@[i] == '-'
                || value@[i] == '.')),
    {
        let valid = if str_all_in_class(CharClass::TaxId, value) {
            proof {
                lemma_class_text_is_ascii(CharClass::TaxId, value@);
            }
            let n = value.unicode_len();
            6 <= n && n <= 32
        } else {
            false
        };
        if valid {
            Ok(TaxId(value.to_owned()))
        } else {
            Err(
                DomainError::validation(
                    "La identificación fiscal debe tener 6 a 32 caracteres válidos",
                ),
            )
        }
    }

    /// The text of the value.
    pub fn value(&self) -> (r: &str)
        ensures
            r@ == self@,
            tax_id_valid(r@),
    {
        proof {
            use_type_invariant(self);
        }
        self.0.as_str()
    }
}

/// TaxId::new accepts exactly the texts of 6 to 32 bytes of ASCII letters, digits, `-` and `.`,
/// and gives back the text it accepted.
pub proof fn lemma_tax_id_rule(value: Seq<char>, r: DomainResult<TaxId>)
    requires
        TaxId::new_outcome(value, r),
    ensures
        r is Ok <==> (6 <= encode_utf8(value).len() && encode_utf8(value).len() <= 32
            && forall|i: int| 0 <= i < value.len() ==> (('0' <= #[trigger] value[i]
            && value[i] <= '9') || ('a' <= value[i] && value[i] <= 'z') || ('A' <= value[i]
            && value[i] <= 'Z') || value[i] == '-' || value[i] == '.')),
        r matches Ok(v) ==> v@ == value,
{
    lemma_taxid_chars(value);
}

/// The class of the characters accepted in a tax identifier, written out.
proof fn lemma_taxid_chars(s: Seq<char>)
    ensures
        tax_id_valid(s) <==> (6 <= encode_utf8(s).len() && encode_utf8(s).len() <= 32
            && forall|i: int| 0 <= i < s.len() ==> (('0' <= #[trigger] s[i] && s[i] <= '9')
            || ('a' <= s[i] && s[i] <= 'z') || ('A' <= s[i] && s[i] <= 'Z') || s[i] == '-'
            || s[i] == '.')),
{
    assert(all_in_class(CharClass::TaxId, s) <==> (forall|i: int| 0 <= i < s.len()
        ==> (('0' <= #[trigger] s[i] && s[i] <= '9') || ('a' <= s[i] && s[i] <= 'z')
        || ('A' <= s[i] && s[i] <= 'Z') || s[i] == '-' || s[i] == '.'))) by {
        if all_in_class(CharClass::TaxId, s) {
            assert forall|i: int| 0 <= i < s.len() implies ((('0' <= #[trigger] s[i]
                && s[i] <= '9') || ('a' <= s[i] && s[i] <= 'z') || ('A' <= s[i] && s[i] <= 'Z')
                || s[i] == '-' || s[i] == '.')) by {
                assert(in_class(CharClass::TaxId, s[i]));
            }
        }
        if forall|i: int| 0 <= i < s.len() ==> (('0' <= #[trigger] s[i] && s[i] <= '9')
            || ('a' <= s[i] && s[i] <= 'z') || ('A' <= s[i] && s[i] <= 'Z') || s[i] == '-'
            || s[i] == '.') {
            assert forall|i: int| 0 <= i < s.len() implies in_class(CharClass::TaxId, #[trigger] s[i]) by {
                assert((('0' <= s[i] && s[i] <= '9') || ('a' <= s[i] && s[i] <= 'z')
                    || ('A' <= s[i] && s[i] <= 'Z') || s[i] == '-' || s[i] == '.'));
            }
        }
    }
}

} // verus!
