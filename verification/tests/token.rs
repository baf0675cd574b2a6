use newsletter::token::{generate_subscription_token, TOKEN_LENGTH};

#[test]
fn a_token_has_25_alphanumeric_characters() {
    assert_eq!(TOKEN_LENGTH, 25);
    for _ in 0..200 {
        let token = generate_subscription_token();
        assert_eq!(token.chars().count(), 25);
        assert!(token.chars().all(|c| c.is_ascii_alphanumeric()));
    }
}

#[test]
fn tokens_are_not_repeated() {
    let mut seen = std::collections::HashSet::new();
    for _ in 0..200 {
        assert!(seen.insert(generate_subscription_token()));
    }
}

#[test]
fn tokens_use_letters_of_both_cases_and_digits() {
    let mut all = String::new();
    for _ in 0..200 {
        all.push_str(&generate_subscription_token());
    }
    assert!(all.chars().any(|c| c.is_ascii_lowercase()));
    assert!(all.chars().any(|c| c.is_ascii_uppercase()));
    assert!(all.chars().any(|c| c.is_ascii_digit()));
}
