use vstd::prelude::*;

use crate::shared::errors::{DomainError, DomainResult};
use crate::shared::text::str_equals;
use vstd::std_specs::convert::TryFromSpecImpl;

verus! {

/// Currencies supported by the ERP.
#[derive(Debug, Clone, Copy, PartialEq, Eq, Structural, Hash)]
pub enum Currency {
    /// United States dollar.
    Usd,
    /// Euro.
    Eur,
    /// Mexican peso.
    Mxn,
}

impl Currency {
    /// ISO 4217 code of the currency.
    pub open spec fn code_spec(self) -> Seq<char> {
        match self {
            Currency::Usd => "USD"@,
            Currency::Eur => "EUR"@,
            Currency::Mxn => "MXN"@,
        }
    }

    /// The currency whose code is `s`, if any.
    pub open spec fn parse_spec(s: Seq<char>) -> Option<Currency> {
        if s == "USD"@ {
            Some(Currency::Usd)
        } else if s == "EUR"@ {
            Some(Currency::Eur)
        } else if s == "MXN"@ {
            Some(Currency::Mxn)
        } else {
            None
        }
    }

    /// ISO code of the currency.
    pub fn code(self) -> (r: &'static str)
        ensures
            r@ == self.code_spec(),
    {
        match self {
            Currency::Usd => "USD",
            Currency::Eur => "EUR",
            Currency::Mxn => "MXN",
        }
    }
}

impl<'a> TryFrom<&'a str> for Currency {
    type Error = DomainError;

    /// Parses an ISO code; any other text is a validation error that names it.
    fn try_from(value: &'a str) -> (r: DomainResult<Currency>)
        ensures
            r is Ok <==> Currency::parse_spec(value@) is Some,
            r matches Ok(c) ==> Currency::parse_spec(value@) == Some(c),
            r is Err ==> (r->Err_0 matches DomainError::Validation(m) && m@ == unsupported_message(
                value@,
            )),
    {
        if str_equals(value, "USD") {
            Ok(Currency::Usd)
        } else if str_equals(value, "EUR") {
            Ok(Currency::Eur)
        } else if str_equals(value, "MXN") {
            Ok(Currency::Mxn)
        } else {
            let mut message = "Moneda no soportada: ".to_owned();
            message.append(value);
            Err(DomainError::Validation(message))
        }
    }
}

/// The error of `try_from` carries a text, which a spec function cannot build, so the
/// general `TryFrom` specification is not claimed; `try_from` states its result instead.
impl<'a> TryFromSpecImpl<&'a str> for Currency {
    open spec fn obeys_try_from_spec() -> bool {
        false
    }

    open spec fn try_from_spec(v: &'a str) -> DomainResult<Currency> {
        match Currency::parse_spec(v@) {
            Some(c) => Ok(c),
            None => Err(arbitrary()),
        }
    }
}

/// The message of the error for a code that is not supported.
pub open spec fn unsupported_message(code: Seq<char>) -> Seq<char> {
    "Moneda no soportada: "@ + code
}

/// Parsing the code of a currency gives the currency back.
pub proof fn lemma_currency_code_round_trip(c: Currency)
    ensures
        Currency::parse_spec(c.code_spec()) == Some(c),
{
    reveal_strlit("USD");
    reveal_strlit("EUR");
    reveal_strlit("MXN");
    assert("USD"@[0] != "EUR"@[0]);
    assert("USD"@[0] != "MXN"@[0]);
    assert("EUR"@[0] != "MXN"@[0]);
}

} // verus!
