use logto_rs::pkce::{generate_code_challenge, generate_code_verifier, generate_state};

#[test]
fn random_strings() {
    let first_code = generate_code_verifier();
    let second_code = generate_code_verifier();

    assert_ne!(first_code, second_code)
}

#[test]
fn strings_are_shorter_than_128_characters() {
    let code = generate_code_verifier();
    assert!(code.chars().count() < 128)
}

#[test]
fn different_verifier_different_string() {
    let first_verifier = generate_code_verifier();
    let first_challenge = generate_code_challenge(first_verifier);

    let second_verifier = generate_code_verifier();
    let second_challenge = generate_code_challenge(second_verifier);

    assert_ne!(first_challenge, second_challenge)
}

#[test]
fn same_verifier_same_challenge() {
    let code_verifier = generate_code_verifier();

    let first_challenge = generate_code_challenge(code_verifier.clone());
    let second_challenge = generate_code_challenge(code_verifier);

    assert_eq!(first_challenge, second_challenge)
}

#[test]
fn generate_correct_string() {
    assert_eq!(
        generate_code_challenge("tO6MabnMFRAatnlMa1DdSstypzzkgalL1-k8Hr_GdfTj-VXGiEACqAkSkDhFuAuD8FOU8lMishaXjt29Xt2Oww".to_string()),
        "0K3SLeGlNNzFswYJjcVzcN4C76m_8NZORxFJLBJWGwg"
    );
    assert_eq!(
        generate_code_challenge("ipK7uh7F41nJyYY4RZQzEwBwBTd-BlXSO4W8q0tK5VA".to_string()),
        "C51JGVPSnuLTTumLt6X5w2JAL_kBaeqHON3KPIviYaU"
    );
    assert_eq!(
        generate_code_challenge("Á".to_string()),
        "p3yvZiKYauPicLIDZ0W1peDz4Z9KFC-9uxtDfoO1KOQ"
    );
    assert_eq!(
        generate_code_challenge("🚀".to_string()),
        "67wLKHDrMj8rbP-lxJPO74GufrNq_HPU4DZzAWMdrsU"
    );
}

#[test]
fn verifier_and_state_are_url_safe_and_86_characters() {
    for value in [generate_code_verifier(), generate_state()] {
        assert_eq!(value.chars().count(), 86);
        assert!(value
            .chars()
            .all(|c| c.is_ascii_alphanumeric() || c == '-' || c == '_'));
    }
}

#[test]
fn two_states_differ() {
    assert_ne!(generate_state(), generate_state());
}

#[test]
fn challenge_of_empty_verifier() {
    let challenge = generate_code_challenge(String::new());
    assert_eq!(challenge, "47DEQpj8HBSa-_TImW-5JCeuQeRkm5NMpJWZG3hSuFU");
    assert_eq!(challenge.len(), 43);
}

#[test]
fn challenge_is_url_safe_base64() {
    let challenge = generate_code_challenge("a verifier with spaces and ünïcödé".to_string());
    assert_eq!(challenge.chars().count(), 43);
    assert!(challenge
        .chars()
        .all(|c| c.is_ascii_alphanumeric() || c == '-' || c == '_'));
}
