use newsletter::domain::SubscriberEmail;

#[test]
fn empty_string_is_rejected() {
    let email = "".to_string();
    let result = SubscriberEmail::parse(email);
    assert!(result.is_err());
    assert_eq!(
        result.unwrap_err(),
        "Email address cannot be empty".to_string()
    );
}

#[test]
fn email_missing_at_symbol_is_rejected() {
    let email = "ursula.com".to_string();
    assert!(SubscriberEmail::parse(email).is_err());
}

#[test]
fn email_missing_domain_is_rejected() {
    let email = "ursula@".to_string();
    assert!(SubscriberEmail::parse(email).is_err());
}

#[test]
fn email_missing_username_is_rejected() {
    let email = "@gmail.com".to_string();
    assert!(SubscriberEmail::parse(email).is_err());
}
