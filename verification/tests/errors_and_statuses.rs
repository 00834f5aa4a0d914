use wyre::{
    settle_response, AccountStatus, AccountType, ApiError, Error, ExceptionKind,
    PaymentMethodStatus, ProfileFieldStatus, TransportError, UserFieldStatus, UserStatus,
};

fn rate_limited() -> ApiError {
    ApiError {
        exception_id: "EX_1".to_string(),
        kind: "RateLimitException".to_string(),
        error_code: Some("rateLimits.burst".to_string()),
        message: "Your requests have exceeded your usage restrictions.".to_string(),
        language: "en".to_string(),
        transient: true,
    }
}

#[test]
fn ok_response_with_success_body_succeeds() {
    let settled = settle_response(200, Some(41i32), None);
    assert_eq!(settled, Ok(41));
}

#[test]
fn error_status_with_error_body_carries_kind_and_transience() {
    let settled: Result<i32, Error> = settle_response(429, None, Some(rate_limited()));
    match settled {
        Err(Error::Api(e)) => {
            assert_eq!(e.kind, "RateLimitException");
            assert_eq!(e.kind_class(), ExceptionKind::RateLimit);
            assert!(e.transient);
            assert_eq!(e.exception_id, "EX_1");
        }
        other => panic!("expected an API error, got {:?}", other),
    }
}

#[test]
fn malformed_bodies_are_protocol_failures() {
    let settled: Result<i32, Error> = settle_response(200, None, None);
    assert!(matches!(
        settled,
        Err(Error::Transport(TransportError::Protocol { .. }))
    ));
    let settled: Result<i32, Error> = settle_response(500, None, None);
    assert!(matches!(
        settled,
        Err(Error::Transport(TransportError::Protocol { .. }))
    ));
}

#[test]
fn success_body_is_ignored_on_error_status() {
    let settled = settle_response(404, Some(7i32), None);
    assert!(matches!(
        settled,
        Err(Error::Transport(TransportError::Protocol { .. }))
    ));
}

#[test]
fn exception_kinds_decode() {
    let cases = [
        ("ValidationException", ExceptionKind::Validation),
        ("InvalidValueException", ExceptionKind::InvalidValue),
        ("FieldRequiredException", ExceptionKind::FieldRequired),
        ("InsufficientFundsException", ExceptionKind::InsufficientFunds),
        ("AccessDeniedException", ExceptionKind::AccessDenied),
        ("TransferException", ExceptionKind::Transfer),
        ("MFARequiredException", ExceptionKind::MfaRequired),
        ("CustomerSupportException", ExceptionKind::CustomerSupport),
        ("NotFoundException", ExceptionKind::NotFound),
        ("RateLimitException", ExceptionKind::RateLimit),
        ("AccountLockedException", ExceptionKind::AccountLocked),
        ("LockoutException", ExceptionKind::Lockout),
        ("UnknownException", ExceptionKind::Unknown),
        (
            "AccoutHasNotBeenApprovedToTransactException",
            ExceptionKind::NotApprovedToTransact,
        ),
    ];
    for (token, kind) in cases {
        let mut e = rate_limited();
        e.kind = token.to_string();
        assert_eq!(e.kind_class(), kind);
    }
    let mut e = rate_limited();
    e.kind = "BrandNewException".to_string();
    assert_eq!(
        e.kind_class(),
        ExceptionKind::Unrecognized("BrandNewException".to_string())
    );
}

#[test]
fn status_tokens_round_trip() {
    for (status, token) in [
        (AccountStatus::Open, "OPEN"),
        (AccountStatus::Pending, "PENDING"),
        (AccountStatus::Approved, "APPROVED"),
        (AccountStatus::Closed, "CLOSED"),
    ] {
        assert_eq!(status.token(), token);
        assert_eq!(AccountStatus::from_token(token), Some(status));
    }
    for (status, token) in [
        (ProfileFieldStatus::Open, "OPEN"),
        (ProfileFieldStatus::Pending, "PENDING"),
        (ProfileFieldStatus::Approved, "APPROVED"),
    ] {
        assert_eq!(status.token(), token);
        assert_eq!(ProfileFieldStatus::from_token(token), Some(status));
    }
    for (status, token) in [
        (UserStatus::Closed, "CLOSED"),
        (UserStatus::Open, "OPEN"),
        (UserStatus::Pending, "PENDING"),
        (UserStatus::Approved, "APPROVED"),
    ] {
        assert_eq!(status.token(), token);
        assert_eq!(UserStatus::from_token(token), Some(status));
    }
    for (status, token) in [
        (UserFieldStatus::Open, "OPEN"),
        (UserFieldStatus::Submitted, "SUBMITTED"),
    ] {
        assert_eq!(status.token(), token);
        assert_eq!(UserFieldStatus::from_token(token), Some(status));
    }
    for (status, token) in [
        (PaymentMethodStatus::Pending, "PENDING"),
        (PaymentMethodStatus::AwaitingFollowup, "AWAITING_FOLLOWUP"),
        (PaymentMethodStatus::Active, "ACTIVE"),
        (PaymentMethodStatus::Rejected, "REJECTED"),
    ] {
        assert_eq!(status.token(), token);
        assert_eq!(PaymentMethodStatus::from_token(token), Some(status));
    }
    assert_eq!(AccountType::Individual.token(), "INDIVIDUAL");
    assert_eq!(AccountType::from_token("BUSINESS"), Some(AccountType::Business));
    assert_eq!(AccountStatus::from_token("REOPENED"), None);
}
