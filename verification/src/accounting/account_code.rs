use vstd::prelude::*;

use vstd::utf8::encode_utf8;

use crate::shared::errors::{is_validation, DomainError, DomainResult};
use crate::shared::text::{
    all_in_class, in_class, is_blank, is_blank_str, is_whitespace_spec, lemma_class_text_is_ascii,
    str_all_in_class, CharClass,
};

verus! {

/// The rule for a ledger account code: not blank, at most 32 bytes, and only ASCII
/// digits, `-` and `.`.
pub open spec fn account_code_valid(s: Seq<char>) -> bool {
    &&& !is_blank(s)
    &&& encode_utf8(s).len() <= 32
    &&& all_in_class(CharClass::AccountCode, s)
}

/// Code of a ledger account.
#[derive(Debug, PartialEq, Eq, Hash)]
pub struct AccountCode(String);

impl View for AccountCode {
    type V = Seq<char>;

    closed spec fn view(&self) -> Seq<char> {
        self.0@
    }
}

impl Clone for AccountCode {
    fn clone(&self) -> (r: Self)
        ensures
            r@ == self@,
    {
        proof {
            use_type_invariant(self);
        }
        AccountCode(self.0.clone())
    }
}

impl AccountCode {
    #[verifier::type_invariant]
    spec fn well_formed(self) -> bool {
        account_code_valid(self.0@)
    }

    /// What validating `value` as a ledger account code answers: the value itself when the rule holds,
    /// otherwise the validation error.
    pub open spec fn new_outcome(value: Seq<char>, r: DomainResult<AccountCode>) -> bool {
        &&& r is Ok <==> account_code_valid(value)
        &&& r matches Ok(v) ==> v@ == value
        &&& r is Err
            ==> is_validation(r->Err_0, "El código contable solo acepta dígitos, punto y guion"@)
    }

    /// Validates a ledger account code.
    pub fn new(value: &str) -> (r: DomainResult<AccountCode>)
        ensures
            AccountCode::new_outcome(value@, r),
            r is Ok <==> (value@.len() > 0 && encode_utf8(value@).len() <= 32
                && forall|i: int| 0 <= i < value@.len() ==> (('0' <= #[trigger] value@[i]
                && value@[i] <= '9') || value@[i] == '-' || value@[i] == '.')),
    {
        let valid = if str_all_in_class(CharClass::AccountCode, value) {
            proof {
                lemma_class_text_is_ascii(CharClass::AccountCode, value@);
            }
            !is_blank_str(value) && value.unicode_len() <= 32
        } else {
            false
        };
        if valid {
            Ok(AccountCode(value.to_owned()))
        } else {
            Err(DomainError::validation("El código contable solo acepta dígitos, punto y guion"))
        }
    }

    /// The text of the code.
    pub fn value(&self) -> (r: &str)
        ensures
            r@ == self@,
            account_code_valid(r@),
    {
        proof {
            use_type_invariant(self);
        }
        self.0.as_str()
    }
}

/// AccountCode::new accepts exactly the texts of 1 to 32 bytes of ASCII digits, `-` and `.`,
/// and gives back the text it accepted.
pub proof fn lemma_account_code_rule(value: Seq<char>, r: DomainResult<AccountCode>)
    requires
        AccountCode::new_outcome(value, r),
    ensures
        r is Ok <==> (value.len() > 0 && encode_utf8(value).len() <= 32
            && forall|i: int| 0 <= i < value.len() ==> (('0' <= #[trigger] value[i]
            && value[i] <= '9') || value[i] == '-' || value[i] == '.')),
        r matches Ok(v) ==> v@ == value,
{
    lemma_accountcode_chars(value);
}

/// The class of the characters accepted in a ledger account code, written out.
proof fn lemma_accountcode_chars(s: Seq<char>)
    ensures
        account_code_valid(s) <==> (s.len() > 0 && encode_utf8(s).len() <= 32
            && forall|i: int| 0 <= i < s.len() ==> (('0' <= #[trigger] s[i] && s[i] <= '9')
            || s[i] == '-' || s[i] == '.')),
{
    if s.len() > 0 && all_in_class(CharClass::AccountCode, s) {
        assert(in_class(CharClass::AccountCode, s[0]));
        assert(!is_whitespace_spec(s[0]));
    }
    assert(all_in_class(CharClass::AccountCode, s) <==> (forall|i: int| 0 <= i < s.len()
        ==> (('0' <= #[trigger] s[i] && s[i] <= '9') || s[i] == '-' || s[i] == '.'))) by {
        if all_in_class(CharClass::AccountCode, s) {
            assert forall|i: int| 0 <= i < s.len() implies ((('0' <= #[trigger] s[i]
                && s[i] <= '9') || s[i] == '-' || s[i] == '.')) by {
                assert(in_class(CharClass::AccountCode, s[i]));
            }
        }
        if forall|i: int| 0 <= i < s.len() ==> (('0' <= #[trigger] s[i] && s[i] <= '9')
            || s[i] == '-' || s[i] == '.') {
            assert forall|i: int| 0 <= i < s.len() implies in_class(CharClass::AccountCode, #[trigger] s[i]) by {
                assert((('0' <= s[i] && s[i] <= '9') || s[i] == '-' || s[i] == '.'));
            }
        }
    }
}

} // verus!
