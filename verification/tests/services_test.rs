use stellar_tipjar::models::auth::Claims;
use stellar_tipjar::services::auth_service::{
    bearer_response, check_token_kind, hash_password, token_claims, verify_password, AuthError,
    ACCESS_TOKEN_SECS, REFRESH_TOKEN_SECS,
};
use stellar_tipjar::services::validation_service::{
    check_creator_exists, check_duplicate, is_fraud_signal, DecimalValue, TipValidationError,
    TipValidationService, ValidationRules,
};

fn conflict_of(r: Result<(), TipValidationError>) -> (String, String) {
    match r {
        Err(TipValidationError::Conflict { code, message }) => (code.to_string(), message),
        other => panic!("expected a conflict, got {other:?}"),
    }
}

#[test]
fn claims_for_both_tokens() {
    let (access, refresh) = token_claims("alice", 1_000);
    assert_eq!(access.sub, "alice");
    assert_eq!(access.kind, "access");
    assert_eq!(access.iat, 1_000);
    assert_eq!(access.exp, 1_000 + ACCESS_TOKEN_SECS as usize);
    assert_eq!(access.exp, 87_400);
    assert_eq!(refresh.kind, "refresh");
    assert_eq!(refresh.exp, 1_000 + REFRESH_TOKEN_SECS as usize);
    assert_eq!(refresh.exp, 605_800);
}

#[test]
fn bearer_response_fields() {
    let r = bearer_response("a".into(), "r".into());
    assert_eq!(r.access_token, "a");
    assert_eq!(r.refresh_token, "r");
    assert_eq!(r.token_type, "Bearer");
}

#[test]
fn token_kind_is_checked() {
    let claims = Claims { sub: "bob".into(), kind: "refresh".into(), exp: 10, iat: 1 };
    let ok = check_token_kind(claims.clone(), "refresh").unwrap();
    assert_eq!(ok.sub, "bob");
    let err = check_token_kind(claims, "access").unwrap_err();
    assert!(matches!(err, AuthError::WrongTokenKind));
    assert_eq!(err.message(), "Wrong token kind");
    let invalid = AuthError::InvalidToken { detail: "ExpiredSignature".into() };
    assert_eq!(invalid.message(), "Invalid token: ExpiredSignature");
}

#[test]
fn hashed_password_verifies() {
    let hash = hash_password("s3cret").unwrap();
    assert_eq!(hash.len(), 60);
    assert_ne!(hash, "s3cret");
    assert!(hash.starts_with("$2b$12$"));
    assert!(verify_password("s3cret", &hash).unwrap());
    assert!(!verify_password("other", &hash).unwrap());
}

#[test]
fn malformed_hash_is_an_error() {
    let err = verify_password("pw", "not-a-hash").unwrap_err();
    assert!(matches!(err, AuthError::PasswordHash { .. }));
}

#[test]
fn decimals_parse_compare_and_print() {
    let d = DecimalValue::parse("1.50").unwrap();
    assert_eq!(d.mantissa(), 150);
    assert_eq!(d.scale(), 2);
    assert_eq!(d.to_text(), "1.50");
    assert!(DecimalValue::parse("abc").is_none());
    let small = DecimalValue::parse("0.01").unwrap();
    assert!(small.less_than(&d));
    assert!(!d.less_than(&small));
    assert!(!d.less_than(&DecimalValue::new(15, 1)));
    assert_eq!(DecimalValue::new(10000, 0).to_text(), "10000");
}

#[test]
fn rules_from_settings() {
    let rules = ValidationRules::from_settings(None, None);
    assert_eq!((rules.min_tip_xlm.mantissa(), rules.min_tip_xlm.scale()), (1, 2));
    assert_eq!((rules.max_tip_xlm.mantissa(), rules.max_tip_xlm.scale()), (10000, 0));
    let rules = ValidationRules::from_settings(Some("0.5"), Some("oops"));
    assert_eq!(rules.min_tip_xlm.to_text(), "0.5");
    assert_eq!(rules.max_tip_xlm.to_text(), "10000");
}

#[test]
fn amounts_are_checked_against_limits() {
    let service = TipValidationService::new(ValidationRules::from_settings(None, None));
    assert!(service.check_amount("10.0").is_ok());
    assert!(service.check_amount("0.01").is_ok());
    assert!(service.check_amount("10000").is_ok());
    assert_eq!(
        conflict_of(service.check_amount("abc")),
        ("INVALID_AMOUNT".to_string(), "Tip amount is not a valid decimal".to_string())
    );
    assert_eq!(
        conflict_of(service.check_amount("0.001")),
        ("AMOUNT_TOO_LOW".to_string(), "Minimum tip amount is 0.01 XLM".to_string())
    );
    assert_eq!(
        conflict_of(service.check_amount("10000.5")),
        ("AMOUNT_TOO_HIGH".to_string(), "Maximum tip amount is 10000 XLM".to_string())
    );
    assert!(service.check_amount_value(Some(DecimalValue::new(5, 0))).is_ok());
    assert_eq!(conflict_of(service.check_amount_value(None)).0, "INVALID_AMOUNT");
}

#[test]
fn duplicates_missing_creators_and_fraud() {
    assert!(check_duplicate(false).is_ok());
    assert_eq!(
        conflict_of(check_duplicate(true)),
        ("DUPLICATE_TRANSACTION".to_string(), "This transaction has already been recorded".to_string())
    );
    assert!(check_creator_exists(true, "ann").is_ok());
    match check_creator_exists(false, "ann") {
        Err(TipValidationError::CreatorNotFound { username }) => assert_eq!(username, "ann"),
        other => panic!("unexpected {other:?}"),
    }
    assert!(!is_fraud_signal(5));
    assert!(is_fraud_signal(6));
}

use stellar_tipjar::services::validation_service::{
    next_validation_step, ValidationAnswer, ValidationQuestion, ValidationStep,
};

#[test]
fn validation_steps_in_order() {
    let service = TipValidationService::new(ValidationRules::from_settings(None, None));
    assert!(matches!(service.begin_validation("abc"), ValidationStep::Reject(_)));
    assert!(matches!(
        service.begin_validation("5"),
        ValidationStep::Ask(ValidationQuestion::TransactionRecorded)
    ));
    assert!(matches!(
        next_validation_step(ValidationAnswer::TransactionRecorded(true), "ann"),
        ValidationStep::Reject(TipValidationError::Conflict { code: "DUPLICATE_TRANSACTION", .. })
    ));
    assert!(matches!(
        next_validation_step(ValidationAnswer::TransactionRecorded(false), "ann"),
        ValidationStep::Ask(ValidationQuestion::CreatorExists)
    ));
    assert!(matches!(
        next_validation_step(ValidationAnswer::CreatorExists(false), "ann"),
        ValidationStep::Reject(TipValidationError::CreatorNotFound { ref username }) if username == "ann"
    ));
    assert!(matches!(
        next_validation_step(ValidationAnswer::CreatorExists(true), "ann"),
        ValidationStep::Ask(ValidationQuestion::RecentSameAmountTips)
    ));
    assert!(matches!(
        next_validation_step(ValidationAnswer::RecentSameAmountTips(Some(6)), "ann"),
        ValidationStep::Accept { fraud_signal: true }
    ));
    assert!(matches!(
        next_validation_step(ValidationAnswer::RecentSameAmountTips(Some(5)), "ann"),
        ValidationStep::Accept { fraud_signal: false }
    ));
    assert!(matches!(
        next_validation_step(ValidationAnswer::RecentSameAmountTips(None), "ann"),
        ValidationStep::Accept { fraud_signal: false }
    ));
}

#[test]
fn decimal_text_cases() {
    assert_eq!(DecimalValue::parse("0.00").unwrap().to_text(), "0.00");
    assert_eq!(DecimalValue::parse("-12.345").unwrap().to_text(), "-12.345");
    assert_eq!(DecimalValue::parse("0").unwrap().to_text(), "0");
    assert_eq!(DecimalValue::new(-5, 3).to_text(), "-0.005");
}
