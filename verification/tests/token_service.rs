use auth_service::domain::{BannedTokenStore, Email};
use auth_service::services::hashset_banned_token_store::HashsetBannedTokenStore;
use auth_service::utils::auth::{
    generate_auth_token, invalidate_token, validate_token, Claims, TokenError,
};
use auth_service::utils::constants::{JWT_COOKIE_NAME, TOKEN_TTL_SECONDS};
use auth_service::utils::crypto::constant_time_eq;
use auth_service::utils::text::{chars_of, contains_char, from_hex, to_hex};

const SECRET: &[u8] = b"secret";
/// The token for `test@example.com`, issued at second 1000 under `SECRET`.
const TOKEN: &str = "\
    1ebf1505702f7b6aa14e225d86f1f1d311df6792a78d52516f8c07d7ccbaaf67\
    .4006000000000000.test@example.com";

fn email() -> Email {
    Email::parse("test@example.com").unwrap()
}

#[test]
fn constants_have_their_values() {
    assert_eq!(JWT_COOKIE_NAME, "jwt");
    assert_eq!(TOKEN_TTL_SECONDS, 600);
}

#[test]
fn token_is_signature_expiry_and_subject() {
    let token = generate_auth_token(&email(), SECRET, 1000).unwrap();
    assert_eq!(token, TOKEN);
}

#[test]
fn token_signs_the_utf8_bytes_of_the_subject() {
    let subject = Email::parse("josé@example.com").unwrap();
    let token = generate_auth_token(&subject, SECRET, 1000).unwrap();
    let signature = "ee35bd2e23fb8bc5579a2dcf47bb49f076d471d0258d25e22ac66fbd200c6734";
    assert_eq!(token, format!("{}.4006000000000000.josé@example.com", signature));
    let store = HashsetBannedTokenStore::new();
    assert_eq!(
        validate_token(&token, SECRET, 1000, &store),
        Ok(Claims { sub: subject, exp: 1600 })
    );
}

#[test]
fn token_depends_on_secret_subject_and_time() {
    let token = generate_auth_token(&email(), SECRET, 1000).unwrap();
    assert_ne!(generate_auth_token(&email(), b"other", 1000).unwrap(), token);
    assert_ne!(generate_auth_token(&email(), SECRET, 1001).unwrap(), token);
    let other = Email::parse("other@example.com").unwrap();
    assert_ne!(generate_auth_token(&other, SECRET, 1000).unwrap(), token);
}

#[test]
fn token_with_expiry_out_of_range_is_not_issued() {
    assert!(generate_auth_token(&email(), SECRET, u64::MAX - 600).is_ok());
    assert_eq!(
        generate_auth_token(&email(), SECRET, u64::MAX - 599),
        Err(TokenError::UnexpectedError)
    );
    assert_eq!(
        generate_auth_token(&email(), SECRET, u64::MAX),
        Err(TokenError::UnexpectedError)
    );
}

#[test]
fn issued_token_validates_with_its_subject() {
    let store = HashsetBannedTokenStore::default();
    let token = generate_auth_token(&email(), SECRET, 1000).unwrap();
    assert_eq!(
        validate_token(&token, SECRET, 1000, &store),
        Ok(Claims { sub: email(), exp: 1600 })
    );
    assert_eq!(
        validate_token(&token, SECRET, 1599, &store),
        Ok(Claims { sub: email(), exp: 1600 })
    );
}

#[test]
fn token_expires_at_its_expiry() {
    let store = HashsetBannedTokenStore::new();
    assert_eq!(validate_token(TOKEN, SECRET, 1600, &store), Err(TokenError::Expired));
    assert_eq!(validate_token(TOKEN, SECRET, 1601, &store), Err(TokenError::Expired));
    assert_eq!(validate_token(TOKEN, SECRET, u64::MAX, &store), Err(TokenError::Expired));
}

#[test]
fn token_under_another_secret_has_an_invalid_signature() {
    let store = HashsetBannedTokenStore::new();
    assert_eq!(
        validate_token(TOKEN, b"another", 1000, &store),
        Err(TokenError::SignatureInvalid)
    );
}

#[test]
fn altered_token_has_an_invalid_signature() {
    let store = HashsetBannedTokenStore::new();
    let other_subject = TOKEN.replace("test@", "root@");
    assert_eq!(
        validate_token(&other_subject, SECRET, 1000, &store),
        Err(TokenError::SignatureInvalid)
    );
    let later_expiry = TOKEN.replace(".4006000000000000.", ".ffffffffffffff7f.");
    assert_eq!(
        validate_token(&later_expiry, SECRET, 1000, &store),
        Err(TokenError::SignatureInvalid)
    );
    let other_signature = TOKEN.replacen("1ebf", "1ebe", 1);
    assert_eq!(
        validate_token(&other_signature, SECRET, 1000, &store),
        Err(TokenError::SignatureInvalid)
    );
}

#[test]
fn text_without_the_three_fields_is_malformed() {
    let store = HashsetBannedTokenStore::new();
    let malformed = [
        "".to_string(),
        "test_token".to_string(),
        // no subject
        TOKEN[..82].to_string(),
        // subject without marker
        TOKEN.replace("test@example.com", "test.example.com"),
        // upper-case signature
        TOKEN.replacen("1ebf", "1EBF", 1),
        // separator missing
        TOKEN.replacen(".", "0", 1),
        TOKEN.replace("00.test", "000test"),
        // signature one digit short
        TOKEN[1..].to_string(),
        // expiry that is not hexadecimal
        TOKEN.replace(".4006", ".40g6"),
    ];
    for token in malformed.iter() {
        assert_eq!(
            validate_token(token, SECRET, 1000, &store),
            Err(TokenError::Malformed),
            "{}",
            token
        );
    }
}

#[test]
fn revoked_token_is_refused_before_its_expiry() {
    let mut store = HashsetBannedTokenStore::new();
    let token = generate_auth_token(&email(), SECRET, 1000).unwrap();
    assert!(validate_token(&token, SECRET, 1001, &store).is_ok());

    assert_eq!(invalidate_token(&token, &mut store), Ok(()));
    assert_eq!(store.contains_token(&token), Ok(true));
    assert_eq!(validate_token(&token, SECRET, 1001, &store), Err(TokenError::Revoked));

    // Revoking again is no error and changes nothing.
    assert_eq!(invalidate_token(&token, &mut store), Ok(()));
    assert_eq!(validate_token(&token, SECRET, 1001, &store), Err(TokenError::Revoked));

    // Another token is not affected.
    let other = generate_auth_token(&email(), SECRET, 1002).unwrap();
    assert_eq!(store.contains_token(&other), Ok(false));
    assert!(validate_token(&other, SECRET, 1002, &store).is_ok());
}

#[test]
fn first_failing_check_names_the_error() {
    let mut store = HashsetBannedTokenStore::new();
    assert_eq!(invalidate_token(TOKEN, &mut store), Ok(()));
    // revoked and expired: expired
    assert_eq!(validate_token(TOKEN, SECRET, 1600, &store), Err(TokenError::Expired));
    // revoked, expired and wrongly signed: the signature
    assert_eq!(
        validate_token(TOKEN, b"another", 1600, &store),
        Err(TokenError::SignatureInvalid)
    );
    // revoked only
    assert_eq!(validate_token(TOKEN, SECRET, 1000, &store), Err(TokenError::Revoked));
}

#[test]
fn invalidate_takes_any_well_formed_token() {
    let mut store = HashsetBannedTokenStore::new();
    // Signed under another secret and long expired, but well-formed.
    let foreign = generate_auth_token(&email(), b"another", 0).unwrap();
    assert_eq!(invalidate_token(&foreign, &mut store), Ok(()));
    assert_eq!(store.contains_token(&foreign), Ok(true));

    assert_eq!(invalidate_token("test_token", &mut store), Err(TokenError::Malformed));
    assert_eq!(store.contains_token("test_token"), Ok(false));
    assert_eq!(invalidate_token("", &mut store), Err(TokenError::Malformed));
}

#[test]
fn revocation_store_is_a_set() {
    let mut store = HashsetBannedTokenStore::default();
    assert_eq!(store.contains_token("a"), Ok(false));
    assert_eq!(store.add_token("a".to_string()), Ok(()));
    assert_eq!(store.add_token("a".to_string()), Ok(()));
    assert_eq!(store.add_token("b".to_string()), Ok(()));
    assert_eq!(store.contains_token("a"), Ok(true));
    assert_eq!(store.contains_token("b"), Ok(true));
    assert_eq!(store.contains_token("c"), Ok(false));
}

#[test]
fn hex_renders_two_lowercase_digits_per_byte() {
    assert_eq!(to_hex(&[]), "");
    assert_eq!(to_hex(&[0x00, 0x09, 0x0a, 0x0f, 0x10, 0xab, 0xff]), "00090a0f10abff");
    assert_eq!(to_hex(&[0x12, 0x34, 0x56, 0x78, 0x9a, 0xbc, 0xde, 0xf0]), "123456789abcdef0");
    assert_eq!(
        from_hex(&chars_of("00090a0f10abff")),
        Some(vec![0x00, 0x09, 0x0a, 0x0f, 0x10, 0xab, 0xff])
    );
    assert_eq!(from_hex(&chars_of("")), Some(vec![]));
    assert_eq!(from_hex(&chars_of("0")), None);
    assert_eq!(from_hex(&chars_of("0A")), None);
    assert_eq!(from_hex(&chars_of("0g")), None);
    assert_eq!(from_hex(&chars_of("/0")), None);
    assert_eq!(from_hex(&chars_of("0:")), None);
    assert_eq!(from_hex(&chars_of("`0")), None);
}

#[test]
fn strings_give_their_characters() {
    assert_eq!(chars_of("a@é"), vec!['a', '@', 'é']);
    assert_eq!(chars_of(""), Vec::<char>::new());
    assert!(contains_char("a@é", '@'));
    assert!(contains_char("a@é", 'é'));
    assert!(!contains_char("a@é", 'b'));
    assert!(!contains_char("", '@'));
}

#[test]
fn constant_time_eq_compares_whole_slices() {
    assert!(constant_time_eq(&[], &[]));
    assert!(constant_time_eq(&[1, 2, 3], &[1, 2, 3]));
    assert!(!constant_time_eq(&[1, 2, 3], &[1, 2, 4]));
    assert!(!constant_time_eq(&[0, 2, 3], &[1, 2, 3]));
    assert!(!constant_time_eq(&[1, 2, 3], &[1, 2]));
    assert!(!constant_time_eq(&[1, 2], &[1, 2, 3]));
    assert!(!constant_time_eq(&[0x10], &[0x01]));
}
