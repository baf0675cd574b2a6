use newsletter::domain::{NewSubscriber, SubscriberEmail, SubscriberName};
use newsletter::subscriptions::FormData;

#[test]
fn a_256_grapheme_long_name_is_valid() {
    let name = "ё".repeat(256);
    assert!(SubscriberName::parse(name).is_ok());
}

#[test]
fn a_name_longer_than_256_graphemes_is_rejected() {
    let name = "a".repeat(257);
    assert!(SubscriberName::parse(name).is_err());
}

#[test]
fn graphemes_are_counted_not_characters() {
    // 256 clusters of two characters each: a letter and a combining accent.
    let name = "e\u{301}".repeat(256);
    assert_eq!(name.chars().count(), 512);
    assert!(SubscriberName::parse(name).is_ok());
    let name = "e\u{301}".repeat(257);
    assert!(SubscriberName::parse(name).is_err());
}

#[test]
fn whitespace_only_names_are_rejected() {
    for name in [" ", "   ", "\t\n", "\u{2003}\u{a0}"] {
        let result = SubscriberName::parse(name.to_string());
        assert_eq!(result.unwrap_err(), "Subscriber name cannot be empty");
    }
}

#[test]
fn empty_name_is_rejected() {
    let result = SubscriberName::parse("".to_string());
    assert_eq!(result.unwrap_err(), "Subscriber name cannot be empty");
}

#[test]
fn names_containing_an_invalid_character_are_rejected() {
    for c in ['/', '(', ')', '"', '<', '>', '\\', '{', '}'] {
        let name = format!("vic{}ji", c);
        let result = SubscriberName::parse(name.clone());
        assert_eq!(
            result.unwrap_err(),
            format!("'{}' is not a valid subscriber name", name)
        );
    }
}

#[test]
fn a_valid_name_is_parsed_successfully() {
    let name = SubscriberName::parse("Ursula Le Guin".to_string()).unwrap();
    assert_eq!(name.as_str(), "Ursula Le Guin");
    assert_eq!(name.as_ref(), "Ursula Le Guin");
    assert_eq!(name.clone().as_str(), "Ursula Le Guin");
}

#[test]
fn a_name_keeps_its_surrounding_blanks() {
    let name = SubscriberName::parse("  vic ji ".to_string()).unwrap();
    assert_eq!(name.as_str(), "  vic ji ");
}

#[test]
fn valid_emails_are_parsed_successfully() {
    for text in ["ursula@example.com", "vic_ji_i@gmail.com", "a.b-c+d@sub.domain.org"] {
        let email = SubscriberEmail::parse(text.to_string()).unwrap();
        assert_eq!(email.as_str(), text);
        assert_eq!(email.as_ref(), text);
        assert_eq!(email.clone().as_str(), text);
    }
}

#[test]
fn an_invalid_email_is_quoted_in_the_message() {
    let result = SubscriberEmail::parse("ursula.com".to_string());
    assert_eq!(result.unwrap_err(), "'ursula.com' is not a valid email address");
}

#[test]
fn a_form_is_judged_name_first() {
    let form = FormData { email: "".to_string(), name: "vic/ji".to_string() };
    assert_eq!(
        NewSubscriber::try_from(form).unwrap_err(),
        "'vic/ji' is not a valid subscriber name"
    );
    let form = FormData { email: "".to_string(), name: "vic ji".to_string() };
    assert_eq!(NewSubscriber::try_from(form).unwrap_err(), "Email address cannot be empty");
    let form = FormData { email: "vic_ji_i@gmail.com".to_string(), name: "vic ji".to_string() };
    let subscriber = NewSubscriber::try_from(form).unwrap();
    assert_eq!(subscriber.name.as_str(), "vic ji");
    assert_eq!(subscriber.email.as_str(), "vic_ji_i@gmail.com");
}
