use wyre::{SrnDecodeError, SystemResourceName};

fn all_variants() -> Vec<SystemResourceName> {
    vec![
        SystemResourceName::Account("AC_FOO1".to_string()),
        SystemResourceName::User("US_BAR2".to_string()),
        SystemResourceName::Wallet("WA_BAZ3".to_string()),
        SystemResourceName::Transfer("TF_QUX4".to_string()),
        SystemResourceName::PaymentMethod("PA_QUUX5".to_string()),
        SystemResourceName::AchPaymentMethod("PA_CORGE6".to_string()),
        SystemResourceName::Email("dev@example.com".to_string()),
        SystemResourceName::CellPhone("+15555555555".to_string()),
        SystemResourceName::Bitcoin("1BvBMSEYstWetqTFn5Au4m4GFg7xJaNVN2".to_string()),
        SystemResourceName::Ethereum("0xBB9bc244D798123fDe783fCc1C72d3Bb8C189413".to_string()),
        SystemResourceName::Avalanche("X-fuji159ney792ctzweqfhuc39rkp0h8fsmzjhu4fjk4".to_string()),
        SystemResourceName::Stellar("GD7WXI7AOAK2CIPZVBEFYLS2NQZI2J4WN4HFYQQ4A2OMFVWGWAL3IW7K".to_string()),
        SystemResourceName::Algorand("ALGO7".to_string()),
        SystemResourceName::Matic("0x6b53a58cf99b698afe78035e58f1a8f5f8235663".to_string()),
        SystemResourceName::Flow("0xead892083b3e2c6c".to_string()),
        SystemResourceName::Loopring("LR_GRault8".to_string()),
    ]
}

#[test]
fn srn_round_trip_all_variants() {
    for srn in all_variants() {
        let text = srn.to_string();
        let back = SystemResourceName::parse(&text).expect("formatted SRN must parse");
        assert_eq!(back, srn);
    }
}

#[test]
fn srn_formats() {
    assert_eq!(
        SystemResourceName::Account("AC_XYZ".to_string()).to_string(),
        "account:AC_XYZ"
    );
    assert_eq!(
        SystemResourceName::PaymentMethod("PA_1".to_string()).to_string(),
        "paymentmethod:PA_1"
    );
    assert_eq!(
        SystemResourceName::AchPaymentMethod("PA_1".to_string()).to_string(),
        "paymentmethod:PA_1:ach"
    );
    assert_eq!(
        SystemResourceName::Email("a@b.c".to_string()).to_string(),
        "email:a@b.c"
    );
}

#[test]
fn srn_parse_payment_method_forms() {
    assert_eq!(
        SystemResourceName::parse("paymentmethod:PA_ABC123").unwrap(),
        SystemResourceName::PaymentMethod("PA_ABC123".to_string())
    );
    assert_eq!(
        SystemResourceName::parse("paymentmethod:PA_ABC123:ach").unwrap(),
        SystemResourceName::AchPaymentMethod("PA_ABC123".to_string())
    );
}

#[test]
fn srn_parse_unknown_variant_lists_all_forms() {
    match SystemResourceName::parse("bogus:xyz") {
        Err(SrnDecodeError::UnknownVariant { input, expected }) => {
            assert_eq!(input, "bogus:xyz");
            assert_eq!(expected.len(), 16);
            assert!(expected.contains(&"paymentmethod:{id}".to_string()));
            assert!(expected.contains(&"paymentmethod:{id}:ach".to_string()));
            assert!(expected.contains(&"email:{id}".to_string()));
            assert!(expected.contains(&"cellphone:{id}".to_string()));
            assert!(expected.contains(&"bitcoin:{id}".to_string()));
            assert!(expected.contains(&"ethereum:{id}".to_string()));
            assert!(expected.contains(&"avalanche:{id}".to_string()));
            assert!(expected.contains(&"stellar:{id}".to_string()));
            assert!(expected.contains(&"algorand:{id}".to_string()));
            assert!(expected.contains(&"matic:{id}".to_string()));
            assert!(expected.contains(&"flow:{id}".to_string()));
            assert!(expected.contains(&"loopring:{id}".to_string()));
            assert!(expected.contains(&"account:{id}".to_string()));
            assert!(expected.contains(&"user:{id}".to_string()));
            assert!(expected.contains(&"wallet:{id}".to_string()));
            assert!(expected.contains(&"transfer:{id}".to_string()));
        }
        other => panic!("expected an unknown-variant error, got {:?}", other),
    }
}

#[test]
fn srn_parse_missing_type() {
    match SystemResourceName::parse("") {
        Err(SrnDecodeError::MissingType { input }) => assert_eq!(input, ""),
        other => panic!("expected a missing-type error, got {:?}", other),
    }
    match SystemResourceName::parse("noColonHere") {
        Err(SrnDecodeError::MissingType { input }) => assert_eq!(input, "noColonHere"),
        other => panic!("expected a missing-type error, got {:?}", other),
    }
}

#[test]
fn srn_parse_rejects_stray_suffix() {
    assert!(matches!(
        SystemResourceName::parse("account:AC_1:extra"),
        Err(SrnDecodeError::UnknownVariant { .. })
    ));
    assert!(matches!(
        SystemResourceName::parse(":abc"),
        Err(SrnDecodeError::UnknownVariant { .. })
    ));
    assert!(matches!(
        SystemResourceName::parse("paymentmethod:PA_1:sepa"),
        Err(SrnDecodeError::UnknownVariant { .. })
    ));
}

#[test]
fn srn_parse_empty_identifier_round_trips() {
    assert_eq!(
        SystemResourceName::parse("email:").unwrap(),
        SystemResourceName::Email(String::new())
    );
}
