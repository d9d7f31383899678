use sepa_mandates::models::{Address, UserProfile};

#[test]
fn test_validate_user_profile_date_of_birth() {
    let mut up = UserProfile::new("Dragan".to_string(), "Ljub".to_string());
    assert_eq!(Ok(()), up.validate());

    up.date_of_birth = Some("20-01-1902".to_string());
    assert_eq!(Ok(()), up.validate());

    up.date_of_birth = Some("1924-01-19".to_string());
    let res = up.validate();
    assert_eq!(
        true,
        res.unwrap_err().errors().contains_key("date_of_birth")
    );
}

#[test]
fn test_validate_user_profile_first_name() {
    let mut up = UserProfile::new("Dragan".to_string(), "Ljub".to_string());
    assert_eq!(Ok(()), up.validate());

    up.first_name = "D".to_string();
    assert_eq!(
        true,
        up.validate()
            .unwrap_err()
            .errors()
            .contains_key("first_name")
    );
}

#[test]
fn test_validate_user_profile_last_name() {
    let mut up = UserProfile::new("Dragan".to_string(), "Ljub".to_string());
    assert_eq!(Ok(()), up.validate());

    up.last_name = "D".to_string();
    assert_eq!(
        true,
        up.validate()
            .unwrap_err()
            .errors()
            .contains_key("last_name")
    );
}

#[test]
fn test_validate_address_when_present() {
    let mut up = UserProfile::new("Dragan".to_string(), "Ljub".to_string());
    up.address = Some(Address::default());
    assert_eq!(
        true,
        up.validate().unwrap_err().errors().contains_key("address")
    );
}
