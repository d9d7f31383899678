use sepa_mandates::errors::ServiceError;
use sepa_mandates::models::{BankAccount, Creditor, Mandate, Status};

#[test]
fn status_default_is_new_and_names_are_stable() {
    assert_eq!(Status::default(), Status::NEW);
    assert_eq!(Status::ACTIVE.as_str(), "ACTIVE");
    assert_eq!(Status::DELETED.as_str(), "DELETED");
    assert_eq!(Status::CANCELED.as_str(), "CANCELED");
    assert_eq!(Status::NEW.as_str(), "NEW");
}

#[test]
fn errors_map_to_their_status_codes() {
    assert_eq!(ServiceError::MalformedToken.http_status(), 401);
    assert_eq!(ServiceError::KeySetUnavailable.http_status(), 401);
    assert_eq!(ServiceError::UnknownSigningKey.http_status(), 401);
    assert_eq!(ServiceError::SignatureInvalid.http_status(), 401);
    assert_eq!(ServiceError::MissingSubject.http_status(), 401);
    assert_eq!(ServiceError::ValidationError.http_status(), 400);
    assert_eq!(ServiceError::ProfileRequired.http_status(), 403);
    assert_eq!(ServiceError::StoreUnavailable.http_status(), 500);
}

#[test]
fn mandate_validation_reports_failing_fields_in_order() {
    let mandate = Mandate {
        api_id: "E1".to_string(),
        tags: vec![],
        status: Status::NEW,
        unique_reference: Some("R".to_string()),
        display_name: "x".to_string(),
        creditor: Creditor::default(),
        bank_account: BankAccount::default(),
        date_created: None,
    };
    let errors = mandate.validate().unwrap_err();
    assert!(errors.contains_key("unique_reference"));
    assert!(errors.contains_key("display_name"));
    assert!(errors.contains_key("creditor"));
    assert!(errors.contains_key("bank_account"));
    assert_eq!(errors.keys.len(), 4);
    assert!(!errors.contains_key("api_id"));
}

#[test]
fn bank_account_validation_checks_each_field() {
    let good = BankAccount {
        institution: "Sparkasse".to_string(),
        iban: "DE89 3704 0044 0532 0130 00".to_string(),
        bic: Some("DEUTDEFF".to_string()),
    };
    assert_eq!(Ok(()), good.validate());
    let mut bad_bic = BankAccount {
        institution: good.institution.clone(),
        iban: good.iban.clone(),
        bic: Some("nope".to_string()),
    };
    assert!(bad_bic.validate().unwrap_err().contains_key("bic"));
    bad_bic.bic = None;
    assert_eq!(Ok(()), bad_bic.validate());
}
