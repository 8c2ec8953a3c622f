use rust_erp::shared::{
    AccountId, Amount, Currency, DomainError, EntityId, Money, ProductKind, Timestamp,
};

const MAX_MANTISSA: i128 = 79_228_162_514_264_337_593_543_950_335;

#[test]
fn amount_adds_at_the_larger_scale() {
    let sum = Amount::new(110, 2).checked_add(Amount::new(2205, 3)).expect("suma");
    assert_eq!(sum.mantissa(), 3305);
    assert_eq!(sum.scale(), 3);
}

#[test]
fn amount_subtracts_below_zero() {
    let difference = Amount::new(250, 2).checked_sub(Amount::new(1000, 2)).expect("resta");
    assert_eq!(difference.mantissa(), -750);
    assert_eq!(difference.scale(), 2);
    assert!(difference.is_zero_or_negative());
}

#[test]
fn amount_multiplies_by_a_quantity() {
    let product = Amount::new(1500, 2).checked_mul(2).expect("producto");
    assert_eq!(product, Amount::new(3000, 2));
    assert_eq!(product.scale(), 2);
}

#[test]
fn amount_overflow_gives_none() {
    let max = Amount::from_parts(MAX_MANTISSA, 0).expect("máximo");
    assert!(max.checked_add(Amount::new(1, 0)).is_none());
    assert!(Amount::from_parts(-MAX_MANTISSA, 0)
        .expect("mínimo")
        .checked_sub(Amount::new(1, 0))
        .is_none());
    assert!(max.checked_mul(2).is_none());
}

#[test]
fn amount_from_parts_checks_the_decimal_range() {
    assert!(Amount::from_parts(MAX_MANTISSA, 28).is_some());
    assert!(Amount::from_parts(MAX_MANTISSA + 1, 0).is_none());
    assert!(Amount::from_parts(1, 29).is_none());
}

#[test]
fn amount_equality_is_numeric() {
    assert!(Amount::new(10, 1).equals(&Amount::new(100, 2)));
    assert_eq!(Amount::new(10, 1), Amount::new(100, 2));
    assert_ne!(Amount::new(10, 1), Amount::new(101, 2));
}

#[test]
fn amount_text_round_trips() {
    let amount = Amount::new(1250, 2);
    assert_eq!(amount.to_text(), "12.50");
    let parsed = Amount::parse("12.50").expect("decimal");
    assert_eq!(parsed.mantissa(), 1250);
    assert_eq!(parsed.scale(), 2);
    assert_eq!(Amount::new(-5, 0).to_text(), "-5");
}

#[test]
fn amount_parse_reports_the_error_text() {
    let error = Amount::parse("doce").expect_err("no es decimal");
    assert!(!error.is_empty());
}

#[test]
fn zero_is_zero_or_negative() {
    assert!(Amount::zero().is_zero_or_negative());
    assert!(!Amount::new(1, 28).is_zero_or_negative());
}

#[test]
fn currency_codes_round_trip() {
    for currency in [Currency::Usd, Currency::Eur, Currency::Mxn] {
        assert_eq!(Currency::try_from(currency.code()), Ok(currency));
    }
    assert_eq!(Currency::Eur.code(), "EUR");
}

#[test]
fn unknown_currency_is_a_validation_error() {
    let error = Currency::try_from("usd").expect_err("minúsculas");
    assert_eq!(error, DomainError::Validation("Moneda no soportada: usd".to_string()));
    assert_eq!(error.message(), "Validación de dominio fallida: Moneda no soportada: usd");
}

#[test]
fn error_messages_have_their_prefixes() {
    assert_eq!(
        DomainError::not_found("Cuenta").message(),
        "Entidad no encontrada: Cuenta"
    );
    assert_eq!(
        DomainError::invalid_operation("cerrada").message(),
        "Operación inválida: cerrada"
    );
    let mismatch = DomainError::CurrencyMismatch {
        left: "USD".to_string(),
        right: "MXN".to_string(),
    };
    assert_eq!(mismatch.message(), "Las monedas no coinciden: USD != MXN");
}

#[test]
fn money_mismatch_names_both_currencies() {
    let left = Money::new(Amount::new(1000, 2), Currency::Usd);
    let right = Money::new(Amount::new(250, 2), Currency::Mxn);
    let error = left.subtract(right).expect_err("monedas distintas");
    assert_eq!(
        error,
        DomainError::CurrencyMismatch { left: "USD".to_string(), right: "MXN".to_string() }
    );
}

#[test]
fn money_checked_add_reports_overflow() {
    let max = Money::new(Amount::from_parts(MAX_MANTISSA, 0).expect("máximo"), Currency::Usd);
    let one = Money::new(Amount::new(1, 0), Currency::Usd);
    assert!(max.checked_add(one).is_none());
    assert!(max.checked_subtract(one).is_some());
    let other = Money::new(Amount::new(1, 0), Currency::Eur);
    assert!(matches!(max.checked_add(other), Some(Err(DomainError::CurrencyMismatch { .. }))));
}

#[test]
fn money_text_shows_amount_and_code() {
    let money = Money::new(Amount::new(1000, 2), Currency::Mxn);
    assert_eq!(money.to_text(), "10.00 MXN");
    assert_eq!(Money::zero(Currency::Usd).to_text(), "0 USD");
    assert!(!Money::new(Amount::new(1, 2), Currency::Usd).is_negative_or_zero());
}

#[test]
fn new_ids_are_random_version_four() {
    let a = AccountId::new();
    let b = AccountId::new();
    assert_ne!(a, b);
    assert_eq!((a.value() >> 76) & 0xf, 4);
    assert_eq!((a.value() >> 62) & 0x3, 2);
}

#[test]
fn ids_parse_from_uuid_text() {
    let id = EntityId::<ProductKind>::parse("67e55044-10b1-426f-9247-bb680e5fe0c8").expect("uuid");
    assert_eq!(id.value(), 0x67e5_5044_10b1_426f_9247_bb68_0e5f_e0c8);
    assert!(id.same_as(&EntityId::from_u128(0x67e5_5044_10b1_426f_9247_bb68_0e5f_e0c8)));
    assert!(EntityId::<ProductKind>::parse("no-es-uuid").is_err());
}

#[test]
fn timestamps_keep_their_parts() {
    let t = Timestamp::from_parts(1_700_000_000, 5);
    assert_eq!(t.seconds(), 1_700_000_000);
    assert_eq!(t.nanos(), 5);
    let now = Timestamp::now();
    assert!(now.nanos() < 1_000_000_000);
    assert!(now.seconds() > 1_600_000_000);
}

#[test]
fn subtracting_what_was_added_gives_back_the_amount() {
    let start = Money::new(Amount::new(1000, 2), Currency::Usd);
    let added = Money::new(Amount::new(2505, 3), Currency::Usd);
    let sum = start.add(added).expect("suma");
    assert_eq!(sum.amount(), Amount::new(12505, 3));
    let back = sum.subtract(added).expect("resta");
    assert_eq!(back, start);
    assert_eq!(back.currency(), Currency::Usd);
}

#[test]
fn amount_text_pads_and_signs() {
    assert_eq!(Amount::new(5, 3).to_text(), "0.005");
    assert_eq!(Amount::new(-7, 3).to_text(), "-0.007");
    assert_eq!(Amount::new(0, 2).to_text(), "0.00");
    assert_eq!(Amount::new(123, 0).to_text(), "123");
    assert_eq!(Amount::new(-1205, 1).to_text(), "-120.5");
}
