use wyre::{Address, FieldDecodeError, FieldPayload, ProfileFieldId, ProfileFieldType, UserFieldType};

fn sample_address() -> Address {
    Address {
        street1: Some("123 Sesame St".to_string()),
        street2: None,
        city: Some("New York City".to_string()),
        state: Some("New York".to_string()),
        postal_code: Some("10128".to_string()),
        country: Some("US".to_string()),
    }
}

#[test]
fn address_field_with_null_value_decodes_to_empty_address() {
    let decoded = ProfileFieldType::decode("ADDRESS", FieldPayload::Null).unwrap();
    assert_eq!(decoded, ProfileFieldType::Address(None));
}

#[test]
fn unrecognized_field_type_is_an_error_not_a_default() {
    match ProfileFieldType::decode("SHOE_SIZE", FieldPayload::Text("44".to_string())) {
        Err(FieldDecodeError::UnrecognizedFieldType { token }) => {
            assert_eq!(token, "SHOE_SIZE");
        }
        other => panic!("expected an unrecognized-field-type error, got {:?}", other),
    }
}

#[test]
fn known_field_type_with_wrong_payload_shape_is_mismatched() {
    match ProfileFieldType::decode("DOCUMENT", FieldPayload::Null) {
        Err(FieldDecodeError::MismatchedValue { token }) => assert_eq!(token, "DOCUMENT"),
        other => panic!("expected a mismatched-value error, got {:?}", other),
    }
    assert!(matches!(
        ProfileFieldType::decode("STRING", FieldPayload::Structured(sample_address())),
        Err(FieldDecodeError::MismatchedValue { .. })
    ));
}

#[test]
fn profile_field_values_round_trip() {
    let values = vec![
        ProfileFieldType::String(None),
        ProfileFieldType::String(Some("Alice Loyd".to_string())),
        ProfileFieldType::Cellphone(Some("+12062108021".to_string())),
        ProfileFieldType::Email(Some("test@example.com".to_string())),
        ProfileFieldType::Address(None),
        ProfileFieldType::Address(Some(sample_address())),
        ProfileFieldType::Date(Some("1990-09-24".to_string())),
        ProfileFieldType::Document(vec!["DOC_1".to_string(), "DOC_2".to_string()]),
        ProfileFieldType::PaymentMethod(Some("PA_1".to_string())),
        ProfileFieldType::PaymentMethod(None),
    ];
    for value in values {
        let (token, payload) = value.clone().encode();
        let back = ProfileFieldType::decode(&token, payload).expect("encoded pair must decode");
        assert_eq!(back, value);
    }
}

#[test]
fn profile_field_tokens() {
    assert_eq!(ProfileFieldType::String(None).encode().0, "STRING");
    assert_eq!(ProfileFieldType::Cellphone(None).encode().0, "CELLPHONE");
    assert_eq!(ProfileFieldType::Email(None).encode().0, "EMAIL");
    assert_eq!(ProfileFieldType::Address(None).encode().0, "ADDRESS");
    assert_eq!(ProfileFieldType::Date(None).encode().0, "DATE");
    assert_eq!(ProfileFieldType::Document(vec![]).encode().0, "DOCUMENT");
    assert_eq!(
        ProfileFieldType::PaymentMethod(None).encode().0,
        "PAYMENT_METHOD"
    );
}

#[test]
fn user_field_object_decodes_as_address_and_text_as_string() {
    let addr = sample_address();
    let decoded = UserFieldType::decode(FieldPayload::Structured(addr.clone())).unwrap();
    assert_eq!(decoded, UserFieldType::Address(Some(addr)));

    let decoded = UserFieldType::decode(FieldPayload::Text("John".to_string())).unwrap();
    assert_eq!(decoded, UserFieldType::String(Some("John".to_string())));

    let decoded = UserFieldType::decode(FieldPayload::Null).unwrap();
    assert_eq!(decoded, UserFieldType::String(None));

    assert!(UserFieldType::decode(FieldPayload::List(vec!["DOC_1".to_string()])).is_none());
}

#[test]
fn user_field_values_round_trip_except_empty_address() {
    let values = vec![
        UserFieldType::String(None),
        UserFieldType::String(Some("Smith".to_string())),
        UserFieldType::Address(Some(sample_address())),
    ];
    for value in values {
        let payload = value.clone().encode();
        let back = UserFieldType::decode(payload).expect("encoded payload must decode");
        assert_eq!(back, value);
    }
    // The untagged ambiguity: an empty address writes null, which reads
    // back as the string kind holding nothing.
    let payload = UserFieldType::Address(None).encode();
    assert_eq!(payload, FieldPayload::Null);
    assert_eq!(
        UserFieldType::decode(payload).unwrap(),
        UserFieldType::String(None)
    );
}

#[test]
fn profile_field_id_tokens() {
    let cases = [
        (ProfileFieldId::IndividualLegalName, "individualLegalName"),
        (ProfileFieldId::IndividualCellphoneNumber, "individualCellphoneNumber"),
        (ProfileFieldId::IndividualEmail, "individualEmail"),
        (ProfileFieldId::IndividualResidenceAddress, "individualResidenceAddress"),
        (ProfileFieldId::IndividualGovernmentId, "individualGovernmentId"),
        (ProfileFieldId::IndividualDateOfBirth, "individualDateOfBirth"),
        (ProfileFieldId::IndividualSsn, "individualSsn"),
        (ProfileFieldId::IndividualSourceOfFunds, "individualSourceOfFunds"),
        (ProfileFieldId::IndividualProofOfAddress, "individualProofOfAddress"),
        (ProfileFieldId::IndividualAchAuthorizationForm, "individualAchAuthorizationForm"),
    ];
    for (id, token) in cases {
        assert_eq!(id.token(), token);
        assert_eq!(ProfileFieldId::from_token(token), Some(id));
    }
    assert_eq!(ProfileFieldId::from_token("individualShoeSize"), None);
}
