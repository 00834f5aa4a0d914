use wyre::{Amount, Currency};

#[test]
fn amount_parses_exact_digits() {
    let a = Amount::from_text("20.00").unwrap();
    assert_eq!(a.negative, false);
    assert_eq!(a.integer, vec![2, 0]);
    assert_eq!(a.fraction, vec![0, 0]);
}

#[test]
fn amount_round_trips_exactly() {
    for text in [
        "0",
        "7",
        "20.00",
        "-13.370",
        "0.000001",
        "-0.5",
        "123456789012345678901234567890.000000000000000000000001",
        "1000",
    ] {
        let a = Amount::from_text(text).expect("valid decimal literal");
        assert_eq!(a.to_text(), text, "digits must survive the round trip");
        let b = Amount::from_text(&a.to_text()).unwrap();
        assert_eq!(a, b);
    }
}

#[test]
fn amount_rejects_malformed_literals() {
    for text in ["", "-", ".", "00", "01.5", "1.", ".5", "1.2.3", "12a", "1,5", "+3", "--1", "-.5"] {
        assert!(
            Amount::from_text(text).is_none(),
            "{:?} must be rejected",
            text
        );
    }
}

#[test]
fn amount_formats() {
    let a = Amount { negative: true, integer: vec![4, 2], fraction: vec![0, 1, 0] };
    assert_eq!(a.to_text(), "-42.010");
    let b = Amount { negative: false, integer: vec![0], fraction: vec![] };
    assert_eq!(b.to_text(), "0");
}

#[test]
fn currency_codes_round_trip() {
    let cases = [
        (Currency::USD, "USD"),
        (Currency::EUR, "EUR"),
        (Currency::JPY, "JPY"),
        (Currency::BTC, "BTC"),
        (Currency::ETH, "ETH"),
        (Currency::SUSDC, "sUSDC"),
        (Currency::PDAI, "pDAI"),
        (Currency::MUSDC, "mUSDC"),
        (Currency::LBTC, "L-BTC"),
        (Currency::USDC, "USDC"),
        (Currency::MATIC, "MATIC"),
        (Currency::ZAR, "ZAR"),
    ];
    for (currency, code) in cases {
        assert_eq!(currency.code(), code);
        assert_eq!(Currency::from_code(code), currency);
    }
}

#[test]
fn unknown_currency_code_decodes_to_other() {
    assert_eq!(Currency::from_code("XYZ"), Currency::Other);
    assert_eq!(Currency::from_code(""), Currency::Other);
    assert_eq!(Currency::from_code("usd"), Currency::Other);
    assert_eq!(Currency::Other.code(), "Other");
    assert_eq!(Currency::from_code("Other"), Currency::Other);
}
