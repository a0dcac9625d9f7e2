use nutune::auth::{generate_auth_params, generate_salt, generate_token};

#[test]
fn test_generate_salt_length() {
    let salt = generate_salt();
    assert_eq!(salt.len(), 16);
}

#[test]
fn test_generate_token_format() {
    let token = generate_token("password", "salt123");
    assert_eq!(token.len(), 32);
    assert!(token.chars().all(|c| c.is_ascii_hexdigit()));
}

#[test]
fn test_auth_params_contains_all_fields() {
    let params = generate_auth_params("user", "pass");
    let keys: Vec<_> = params.iter().map(|(k, _)| k.as_str()).collect();
    assert!(keys.contains(&"u"));
    assert!(keys.contains(&"t"));
    assert!(keys.contains(&"s"));
    assert!(keys.contains(&"v"));
    assert!(keys.contains(&"c"));
    assert!(keys.contains(&"f"));
}

#[test]
fn auth_params_values() {
    let params = generate_auth_params("user", "pass");
    assert_eq!(params.len(), 6);
    assert_eq!(params[0], ("u".to_string(), "user".to_string()));
    let salt = params[2].1.clone();
    assert_eq!(salt.len(), 16);
    assert!(salt.chars().all(|c| c.is_ascii_alphanumeric()));
    assert_eq!(params[1].1, generate_token("pass", &salt));
    assert_eq!(params[1].1.len(), 32);
    assert_eq!(params[3], ("v".to_string(), "1.16.1".to_string()));
    assert_eq!(params[4], ("c".to_string(), "nutune".to_string()));
    assert_eq!(params[5], ("f".to_string(), "json".to_string()));
}

#[test]
fn token_is_md5_of_password_and_salt() {
    assert_eq!(generate_token("", ""), "d41d8cd98f00b204e9800998ecf8427e");
    assert_eq!(generate_token("ab", "c"), generate_token("a", "bc"));
    assert_eq!(generate_token("a", "bc"), "900150983cd24fb0d6963f7d28e17f72");
    assert_eq!(generate_token("password", "salt123"), "153ef369bd2a6ca3ecde0dd486b1aed9");
}

#[test]
fn salt_is_alphanumeric_and_varies() {
    let a = generate_salt();
    let b = generate_salt();
    assert!(a.chars().all(|c| c.is_ascii_alphanumeric()));
    assert_eq!(b.len(), 16);
    assert_ne!(a, b);
}
