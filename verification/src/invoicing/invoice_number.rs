use vstd::prelude::*;

use vstd::utf8::encode_utf8;

use crate::shared::errors::{is_validation, DomainError, DomainResult};
use crate::shared::text::{
    all_in_class, in_class, lemma_class_text_is_ascii, str_all_in_class, CharClass,
};

verus! {

/// The rule for an invoice number: 3 to 40 bytes of ASCII letters, digits, `-` and `/`.
pub open spec fn invoice_number_valid(s: Seq<char>) -> bool {
    &&& 3 <= encode_utf8(s).len() <= 40
    &&& all_in_class(CharClass::InvoiceNumber, s)
}

/// Number of an invoice.
#[derive(Debug, PartialEq, Eq, Hash)]
pub struct InvoiceNumber(String);

impl View for InvoiceNumber {
    type V = Seq<char>;

    closed spec fn view(&self) -> Seq<char> {
        self.0@
    }
}

impl Clone for InvoiceNumber {
    fn clone(&self) -> (r: Self)
        ensures
            r@ == self@,
    {
        proof {
            use_type_invariant(self);
        }
        InvoiceNumber(self.0.clone())
    }
}

impl InvoiceNumber {
    #[verifier::type_invariant]
    spec fn well_formed(self) -> bool {
        invoice_number_valid(self.0@)
    }

    /// What validating `value` as an invoice number answers: the value itself when the rule holds,
    /// otherwise the validation error.
    pub open spec fn new_outcome(value: Seq<char>, r: DomainResult<InvoiceNumber>) -> bool {
        &&& r is Ok <==> invoice_number_valid(value)
        &&& r matches Ok(v) ==> v@ == value
        &&& r is Err
            ==> is_validation(r->Err_0, "El número de factura debe tener 3 a 40 caracteres válidos"@)
    }

    /// Validates an invoice number.
    pub fn new(value: &str) -> (r: DomainResult<InvoiceNumber>)
        ensures
            InvoiceNumber::new_outcome(value@, r),
            r is Ok <==> (3 <= encode_utf8(value@).len() && encode_utf8(value@).len() <= 40
                && forall|i: int| 0 <= i < value@.len() ==> (('0' <= #[trigger] value@[i]
                && value@[i] <= '9') || ('a' <= value@[i] && value@[i] <= 'z')
                || ('A' <= value@[i] && value@[i] <= 'Z') || value@[i] == '-'
                || value@[i] == '/')),
    {
        let valid = if str_all_in_class(CharClass::InvoiceNumber, value) {
            proof {
                lemma_class_text_is_ascii(CharClass::InvoiceNumber, value@);
            }
            let n = value.unicode_len();
            3 <= n && n <= 40
        } else {
            false
        };
        if valid {
            Ok(InvoiceNumber(value.to_owned()))
        } else {
            Err(
                DomainError::validation(
                    "El número de factura debe tener 3 a 40 caracteres válidos",
                ),
            )
        }
    }

    /// The text of the value.
    pub fn value(&self) -> (r: &str)
        ensures
            r@ == self@,
            invoice_number_valid(r@),
    {
        proof {
            use_type_invariant(self);
        }
        self.0.as_str()
    }
}

/// InvoiceNumber::new accepts exactly the texts of 3 to 40 bytes of ASCII letters, digits, `-` and `/`,
/// and gives back the text it accepted.
pub proof fn lemma_invoice_number_rule(value: Seq<char>, r: DomainResult<InvoiceNumber>)
    requires
        InvoiceNumber::new_outcome(value, r),
    ensures
        r is Ok <==> (3 <= encode_utf8(value).len() && encode_utf8(value).len() <= 40
            && forall|i: int| 0 <= i < value.len() ==> (('0' <= #[trigger] value[i]
            && value[i] <= '9') || ('a' <= value[i] && value[i] <= 'z') || ('A' <= value[i]
            && value[i] <= 'Z') || value[i] == '-' || value[i] == '/')),
        r matches Ok(v) ==> v@ == value,
{
    lemma_invoicenumber_chars(value);
}

/// The class of the characters accepted in an invoice number, written out.
proof fn lemma_invoicenumber_chars(s: Seq<char>)
    ensures
        invoice_number_valid(s) <==> (3 <= encode_utf8(s).len() && encode_utf8(s).len() <= 40
            && forall|i: int| 0 <= i < s.len() ==> (('0' <= #[trigger] s[i] && s[i] <= '9')
            || ('a' <= s[i] && s[i] <= 'z') || ('A' <= s[i] && s[i] <= 'Z') || s[i] == '-'
            || s[i] == '/')),
{
    assert(all_in_class(CharClass::InvoiceNumber, s) <==> (forall|i: int| 0 <= i < s.len()
        ==> (('0' <= #[trigger] s[i] && s[i] <= '9') || ('a' <= s[i] && s[i] <= 'z')
        || ('A' <= s[i] && s[i] <= 'Z') || s[i] == '-' || s[i] == '/'))) by {
        if all_in_class(CharClass::InvoiceNumber, s) {
            assert forall|i: int| 0 <= i < s.len() implies ((('0' <= #[trigger] s[i]
                && s[i] <= '9') || ('a' <= s[i] && s[i] <= 'z') || ('A' <= s[i] && s[i] <= 'Z')
                || s[i] == '-' || s[i] == '/')) by {
                assert(in_class(CharClass::InvoiceNumber, s[i]));
            }
        }
        if forall|i: int| 0 <= i < s.len() ==> (('0' <= #[trigger] s[i] && s[i] <= '9')
            || ('a' <= s[i] && s[i] <= 'z') || ('A' <= s[i] && s[i] <= 'Z') || s[i] == '-'
            || s[i] == '/') {
            assert forall|i: int| 0 <= i < s.len() implies in_class(CharClass::InvoiceNumber, #[trigger] s[i]) by {
                assert((('0' <= s[i] && s[i] <= '9') || ('a' <= s[i] && s[i] <= 'z')
                    || ('A' <= s[i] && s[i] <= 'Z') || s[i] == '-' || s[i] == '/'));
            }
        }
    }
}

} // verus!
