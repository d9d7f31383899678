use sepa_mandates::auth::VerifiedClaims;
use sepa_mandates::errors::ServiceError;
use sepa_mandates::handlers::{
    get_mandates, get_profile_by_auth, get_user_profile, profile_exists, save_mandate,
    set_user_profile,
};
use sepa_mandates::models::mandate::{find_mandate_by_id, is_selected_mandate_modified};
use sepa_mandates::models::{Address, BankAccount, Creditor, Mandate, Status, UserProfile};
use sepa_mandates::store::{ProfileStatus, Store};

fn claims_for(sub: &str) -> VerifiedClaims {
    VerifiedClaims {
        subject: sub.to_string(),
        claims: vec![("sub".to_string(), sub.to_string())],
    }
}

fn profile_payload(first: &str, last: &str) -> UserProfile {
    UserProfile::new(first.to_string(), last.to_string())
}

fn mandate_payload(api_id: &str, display_name: &str) -> Mandate {
    Mandate {
        api_id: api_id.to_string(),
        tags: vec!["energy".to_string()],
        status: Status::NEW,
        unique_reference: Some("REF-001".to_string()),
        display_name: display_name.to_string(),
        date_created: None,
        creditor: Creditor {
            name: "City Utilities".to_string(),
            sepa_identifier: Some("DE98ZZZ09999999999".to_string()),
            address: Address {
                street: "Marktplatz".to_string(),
                house_number: "12".to_string(),
                zip: "10115".to_string(),
                place: "Berlin".to_string(),
            },
        },
        bank_account: BankAccount {
            institution: "Sparkasse".to_string(),
            iban: "DE89 3704 0044 0532 0130 00".to_string(),
            bic: Some("DEUTDEFF".to_string()),
        },
    }
}

#[test]
fn first_profile_save_creates_incomplete_row_and_reads_back() {
    let mut store = Store::new();
    let u1 = claims_for("u1");
    assert!(!profile_exists(&store, &u1));
    assert_eq!(get_user_profile(&store, &u1), None);

    let mut payload = profile_payload("Ana", "K.");
    payload.preferred_language = Some("en".to_string());
    assert_eq!(Ok(()), set_user_profile(&mut store, &u1, &payload));

    assert!(profile_exists(&store, &u1));
    assert_eq!(store.profiles.len(), 1);
    assert_eq!(store.profiles[0].auth_id, "u1");
    assert_eq!(store.profiles[0].status, ProfileStatus::ProfileIncomplete);
    assert_eq!(get_user_profile(&store, &u1), Some(payload));
}

#[test]
fn profile_update_preserves_identity_fields() {
    let mut store = Store::new();
    let u1 = claims_for("u1");
    assert_eq!(Ok(()), set_user_profile(&mut store, &u1, &profile_payload("Ana", "K.")));
    let id_before = store.profiles[0].id;
    let created_before = store.profiles[0].date_created;

    let mut second = profile_payload("Anastasia", "Kovac");
    second.date_of_birth = Some("20-01-1992".to_string());
    assert_eq!(Ok(()), set_user_profile(&mut store, &u1, &second));

    assert_eq!(store.profiles.len(), 1);
    assert_eq!(store.profiles[0].id, id_before);
    assert_eq!(store.profiles[0].auth_id, "u1");
    assert_eq!(store.profiles[0].date_created, created_before);
    assert_eq!(store.profiles[0].firstname, "Anastasia");
    assert_eq!(get_user_profile(&store, &u1), Some(second));
}

#[test]
fn profile_validation_failure_writes_nothing() {
    let mut store = Store::new();
    let u1 = claims_for("u1");
    let bad = profile_payload("A", "K.");
    assert_eq!(
        set_user_profile(&mut store, &u1, &bad),
        Err(ServiceError::ValidationError)
    );
    assert!(!profile_exists(&store, &u1));
}

#[test]
fn mandate_save_requires_a_profile() {
    let mut store = Store::new();
    let u1 = claims_for("u1");
    assert_eq!(
        save_mandate(&mut store, &u1, &mandate_payload("E1", "Gas contract")),
        Err(ServiceError::ProfileRequired)
    );
    assert_eq!(
        get_mandates(&store, &u1),
        Err(ServiceError::ProfileRequired)
    );
}

#[test]
fn mandate_validation_failure_writes_nothing() {
    let mut store = Store::new();
    let u1 = claims_for("u1");
    assert_eq!(Ok(()), set_user_profile(&mut store, &u1, &profile_payload("Ana", "K.")));
    let mut bad = mandate_payload("E1", "Gas contract");
    bad.bank_account.iban = "not-an-iban".to_string();
    assert_eq!(
        save_mandate(&mut store, &u1, &bad),
        Err(ServiceError::ValidationError)
    );
    assert_eq!(get_mandates(&store, &u1), Ok(vec![]));
}

#[test]
fn repeated_mandate_save_with_same_external_id_keeps_one_row() {
    let mut store = Store::new();
    let u1 = claims_for("u1");
    assert_eq!(Ok(()), set_user_profile(&mut store, &u1, &profile_payload("Ana", "K.")));

    let first = mandate_payload("E1", "Gas contract");
    assert_eq!(Ok(()), save_mandate(&mut store, &u1, &first));
    assert_eq!(Ok(()), save_mandate(&mut store, &u1, &first));
    assert_eq!(store.mandates.len(), 1);

    let mut renamed = mandate_payload("E1", "Gas contract (new)");
    renamed.status = Status::ACTIVE;
    assert_eq!(Ok(()), save_mandate(&mut store, &u1, &renamed));

    let listed = get_mandates(&store, &u1).expect("profile exists");
    assert_eq!(listed.len(), 1);
    assert_eq!(listed[0].api_id, "E1");
    assert_eq!(listed[0].display_name, "Gas contract (new)");
    assert_eq!(listed[0].status, Status::ACTIVE);
    assert_eq!(listed[0].date_created, Some(0));
}

#[test]
fn mandates_are_isolated_by_subject() {
    let mut store = Store::new();
    let ua = claims_for("subject-a");
    let ub = claims_for("subject-b");
    assert_eq!(Ok(()), set_user_profile(&mut store, &ua, &profile_payload("Ana", "K.")));
    assert_eq!(Ok(()), set_user_profile(&mut store, &ub, &profile_payload("Ben", "L.")));

    assert_eq!(Ok(()), save_mandate(&mut store, &ua, &mandate_payload("E1", "Gas contract")));

    let for_a = get_mandates(&store, &ua).expect("profile exists");
    let for_b = get_mandates(&store, &ub).expect("profile exists");
    assert_eq!(for_a.len(), 1);
    assert_eq!(for_b.len(), 0);

    assert_eq!(Ok(()), save_mandate(&mut store, &ub, &mandate_payload("E1", "Water contract")));
    let for_a = get_mandates(&store, &ua).expect("profile exists");
    let for_b = get_mandates(&store, &ub).expect("profile exists");
    assert_eq!(for_a[0].display_name, "Gas contract");
    assert_eq!(for_b[0].display_name, "Water contract");
}

#[test]
fn mandates_list_in_creation_order() {
    let mut store = Store::new();
    let u1 = claims_for("u1");
    assert_eq!(Ok(()), set_user_profile(&mut store, &u1, &profile_payload("Ana", "K.")));

    assert_eq!(Ok(()), save_mandate(&mut store, &u1, &mandate_payload("E1", "Gas contract")));
    assert_eq!(Ok(()), save_mandate(&mut store, &u1, &mandate_payload("E2", "Water contract")));
    assert_eq!(Ok(()), save_mandate(&mut store, &u1, &mandate_payload("E3", "Rent")));
    assert_eq!(Ok(()), save_mandate(&mut store, &u1, &mandate_payload("E1", "Gas contract v2")));

    let listed = get_mandates(&store, &u1).expect("profile exists");
    assert_eq!(listed.len(), 3);
    let stamps: Vec<u64> = listed.iter().map(|m| m.date_created.unwrap()).collect();
    let mut sorted = stamps.clone();
    sorted.sort();
    assert_eq!(stamps, sorted);
    assert_eq!(
        listed.iter().map(|m| m.api_id.as_str()).collect::<Vec<_>>(),
        vec!["E1", "E2", "E3"]
    );
    assert_eq!(listed[0].display_name, "Gas contract v2");
}

#[test]
fn resolver_hands_back_subject_and_row() {
    let mut store = Store::new();
    let u1 = claims_for("u1");
    let (row, subject) = get_profile_by_auth(&store, &u1);
    assert!(row.is_none());
    assert_eq!(subject, "u1");

    assert_eq!(Ok(()), set_user_profile(&mut store, &u1, &profile_payload("Ana", "K.")));
    let (row, subject) = get_profile_by_auth(&store, &u1);
    assert_eq!(subject, "u1");
    let row = row.expect("profile exists");
    assert_eq!(row.auth_id, "u1");
    assert_eq!(row.firstname, "Ana");
}

#[test]
fn fetched_list_lookup_finds_first_match_by_external_id() {
    let list = vec![
        mandate_payload("E1", "Gas contract"),
        mandate_payload("E2", "Water contract"),
    ];
    assert_eq!(
        find_mandate_by_id(&list, "E2").map(|m| m.display_name.as_str()),
        Some("Water contract")
    );
    assert_eq!(find_mandate_by_id(&list, "E9").map(|m| m.display_name.as_str()), None);
}

#[test]
fn unsaved_changes_detected_against_fetched_list() {
    let list = vec![mandate_payload("E1", "Gas contract")];
    assert!(!is_selected_mandate_modified(&list, &None));
    let unchanged = Some(mandate_payload("E1", "Gas contract"));
    assert!(!is_selected_mandate_modified(&list, &unchanged));
    let renamed = Some(mandate_payload("E1", "Gas contract (new)"));
    assert!(is_selected_mandate_modified(&list, &renamed));
    let fresh = Some(mandate_payload("E9", "Rent"));
    assert!(!is_selected_mandate_modified(&list, &fresh));
}
