use wyre::{
    Client, ClientFromEnvironmentError, DocumentSubType, DocumentType, Environment, HttpMethod,
    ProfileFieldId, SystemResourceName, UploadDocument, UserDocumentUpload, UserFieldId,
    UserScope,
};

fn test_client() -> Client {
    Client::new(
        "the-key".to_string(),
        "the-secret".to_string(),
        Environment::Test,
    )
}

#[test]
fn environment_urls() {
    assert_eq!(Environment::Test.api_url(), "https://api.testwyre.com");
    assert_eq!(Environment::Production.api_url(), "https://api.sendwyre.com");
}

#[test]
fn environment_from_str_accepts_known_names() {
    assert_eq!(Environment::from_str("dev").unwrap(), Environment::Test);
    assert_eq!(
        Environment::from_str("Development").unwrap(),
        Environment::Test
    );
    assert_eq!(Environment::from_str(" TEST ").unwrap(), Environment::Test);
    assert_eq!(
        Environment::from_str("prod").unwrap(),
        Environment::Production
    );
    assert_eq!(
        Environment::from_str("Production\n").unwrap(),
        Environment::Production
    );
    let err = Environment::from_str(" Staging ").unwrap_err();
    assert_eq!(err.0, "staging");
}

#[test]
fn master_account_request_hits_v2_account() {
    let plan = test_client().get_master_account_request();
    assert_eq!(plan.method, HttpMethod::Get);
    assert_eq!(plan.url, "https://api.testwyre.com/v2/account");
    assert!(plan.query.is_empty());
    assert_eq!(plan.bearer_token, "the-secret");
    assert!(plan.content_type.is_none());
}

#[test]
fn account_requests_carry_masquerade_even_when_absent() {
    let client = test_client();
    let plan = client.get_account_request("AC_1", &None);
    assert_eq!(plan.url, "https://api.testwyre.com/v3/accounts/AC_1");
    assert_eq!(
        plan.query,
        vec![("masqueradeAs".to_string(), String::new())]
    );

    let masq = Some(SystemResourceName::Account("AC_2".to_string()));
    let plan = client.update_account_request("AC_1", &masq);
    assert_eq!(plan.method, HttpMethod::Post);
    assert_eq!(
        plan.query,
        vec![("masqueradeAs".to_string(), "account:AC_2".to_string())]
    );
}

#[test]
fn upload_document_request_builds_path_and_query() {
    let client = test_client();
    let upload = UploadDocument {
        field_id: ProfileFieldId::IndividualGovernmentId,
        document_type: Some(DocumentType::GovtId),
        document_sub_type: Some(DocumentSubType::Front),
        document: vec![0xffu8, 0xd8],
        content_type: "image/jpeg".to_string(),
    };
    let masq = Some(SystemResourceName::Account("AC_1".to_string()));
    let plan = client.upload_document_request("AC_1", &upload, &masq);
    assert_eq!(plan.method, HttpMethod::Post);
    assert_eq!(
        plan.url,
        "https://api.testwyre.com/v3/accounts/AC_1/individualGovernmentId"
    );
    assert_eq!(
        plan.query,
        vec![
            ("documentType".to_string(), "GOVT_ID".to_string()),
            ("documentSubType".to_string(), "FRONT".to_string()),
            ("masqueradeAs".to_string(), "account:AC_1".to_string()),
        ]
    );
    assert_eq!(plan.content_type.as_deref(), Some("image/jpeg"));

    // Absent optional parts are omitted here, unlike the scoped
    // operations that send an empty masquerade.
    let upload = UploadDocument {
        field_id: ProfileFieldId::IndividualProofOfAddress,
        document_type: None,
        document_sub_type: None,
        document: Vec::<u8>::new(),
        content_type: "application/pdf".to_string(),
    };
    let plan = client.upload_document_request("AC_9", &upload, &None);
    assert!(plan.query.is_empty());
}

#[test]
fn payment_method_requests() {
    let client = test_client();
    let plan = client.create_ach_payment_method_request(&None);
    assert_eq!(plan.method, HttpMethod::Post);
    assert_eq!(plan.url, "https://api.testwyre.com/v2/paymentMethods");

    let masq = Some(SystemResourceName::Account("AC_1".to_string()));
    let plan = client.get_payment_methods_request(&masq, 0, 10);
    assert_eq!(plan.method, HttpMethod::Get);
    assert_eq!(
        plan.query,
        vec![
            ("offset".to_string(), "0".to_string()),
            ("limit".to_string(), "10".to_string()),
            ("masqueradeAs".to_string(), "account:AC_1".to_string()),
        ]
    );

    let plan = client.get_payment_methods_request(&None, 1205, 99);
    assert_eq!(plan.query[0].1, "1205");
    assert_eq!(plan.query[1].1, "99");
}

#[test]
fn transfer_requests() {
    let client = test_client();
    let plan = client.create_transfer_request(&None);
    assert_eq!(plan.url, "https://api.testwyre.com/v3/transfers");
    assert_eq!(plan.method, HttpMethod::Post);

    let plan = client.get_transfer_request("TF_77", &None);
    assert_eq!(plan.url, "https://api.testwyre.com/v3/transfers/TF_77");
    assert_eq!(plan.method, HttpMethod::Get);
}

#[test]
fn user_requests() {
    let client = test_client();
    let plan = client.create_user_request();
    assert_eq!(plan.url, "https://api.testwyre.com/v3/users");
    assert!(plan.query.is_empty());

    let masq = Some(SystemResourceName::User("US_5".to_string()));
    let plan = client.get_user_request("US_5", &UserScope::Transfer, &masq);
    assert_eq!(plan.url, "https://api.testwyre.com/v3/users/US_5");
    assert_eq!(
        plan.query,
        vec![
            ("masqueradeAs".to_string(), "user:US_5".to_string()),
            ("scopes".to_string(), "TRANSFER".to_string()),
        ]
    );

    let plan = client.update_user_request("US_5", &masq);
    assert_eq!(plan.method, HttpMethod::Post);
    assert_eq!(plan.url, "https://api.testwyre.com/v3/users/US_5");

    let plan = client.get_kyc_onboarding_url_request("US_5", &Some("US".to_string()));
    assert_eq!(
        plan.url,
        "https://api.testwyre.com/v3/users/US_5/onboarding"
    );
    assert_eq!(
        plan.query,
        vec![("countryCode".to_string(), "US".to_string())]
    );
    let plan = client.get_kyc_onboarding_url_request("US_5", &None);
    assert_eq!(plan.query, vec![("countryCode".to_string(), String::new())]);

    let upload = UserDocumentUpload {
        field_id: UserFieldId::ResidenceAddress,
        doc_type: DocumentType::Passport,
        content_type: "image/png".to_string(),
        document: vec![1u8, 2, 3],
    };
    let plan = client.update_user_document_request("US_5", &upload);
    assert_eq!(
        plan.url,
        "https://api.testwyre.com/v3/users/US_5/residenceAddress"
    );
    assert_eq!(
        plan.query,
        vec![("docType".to_string(), "PASSPORT".to_string())]
    );
    assert_eq!(plan.content_type.as_deref(), Some("image/png"));
}

#[test]
fn user_scope_tokens() {
    assert_eq!(UserScope::Transfer.to_string(), "TRANSFER");
    assert_eq!(UserScope::ACH.to_string(), "ACH");
    assert_eq!(UserScope::DebitCardL2.to_string(), "DEBIT_CARD_L2");
}

#[test]
fn client_from_env_values() {
    let key = Some("k".to_string());
    let secret = Some("s".to_string());

    assert!(matches!(
        Client::from_env_values(None, secret.clone(), Some("test".to_string())),
        Err(ClientFromEnvironmentError::MissingApiKey)
    ));
    assert!(matches!(
        Client::from_env_values(key.clone(), None, Some("test".to_string())),
        Err(ClientFromEnvironmentError::MissingApiSecret)
    ));
    assert!(matches!(
        Client::from_env_values(key.clone(), secret.clone(), None),
        Err(ClientFromEnvironmentError::MissingEnvironment)
    ));
    match Client::from_env_values(key.clone(), secret.clone(), Some("quality".to_string())) {
        Err(ClientFromEnvironmentError::EnvironmentParseError(e)) => {
            assert_eq!(e.0, "quality");
        }
        Err(other) => panic!("expected an environment parse error, got {:?}", other),
        Ok(_) => panic!("expected an environment parse error, got a client"),
    }
    let client = Client::from_env_values(key, secret, Some(" PROD ".to_string())).unwrap();
    assert_eq!(
        client.get_master_account_request().url,
        "https://api.sendwyre.com/v2/account"
    );
}
