use auth_service::domain::data_stores::{issue_challenge, verify_and_consume};
use auth_service::domain::{
    Email, LoginAttemptId, SecondFactorError, TwoFACode, TwoFACodeStore, TwoFACodeStoreError,
};
use auth_service::services::hashmap_two_fa_code_store::HashmapTwoFACodeStore;

fn email() -> Email {
    Email::parse("test@email.com").unwrap()
}

#[test]
fn login_attempt_id_spells_its_seed() {
    let id = LoginAttemptId::from_seed(0x0102030405060708090a0b0c0d0e0f10);
    assert_eq!(id.as_ref(), "100f0e0d0c0b0a090807060504030201");
    assert_eq!(LoginAttemptId::from_seed(0).as_ref(), "00000000000000000000000000000000");
    assert_eq!(
        LoginAttemptId::from_seed(u128::MAX).as_ref(),
        "ffffffffffffffffffffffffffffffff"
    );
}

#[test]
fn login_attempt_id_parses_its_own_text_only() {
    let id = LoginAttemptId::from_seed(0xdeadbeef);
    assert_eq!(LoginAttemptId::parse(id.as_ref()), Ok(id.clone()));
    assert_eq!(id.clone(), id);

    let refused = Err("Invalid login attempt id".to_string());
    assert_eq!(LoginAttemptId::parse(""), refused);
    assert_eq!(LoginAttemptId::parse("1"), refused);
    // 31 and 33 digits
    assert_eq!(LoginAttemptId::parse("100f0e0d0c0b0a09080706050403020"), refused);
    assert_eq!(LoginAttemptId::parse("100f0e0d0c0b0a0908070605040302011"), refused);
    // upper case, and a letter past `f`
    assert_eq!(LoginAttemptId::parse("100F0E0D0C0B0A090807060504030201"), refused);
    assert_eq!(LoginAttemptId::parse("g00f0e0d0c0b0a090807060504030201"), refused);
    assert_eq!(LoginAttemptId::parse("100f0e0d-0c0b-0a09-0807-060504030"), refused);
}

#[test]
fn fresh_login_attempt_ids_differ() {
    let first = LoginAttemptId::default();
    let second = LoginAttemptId::default();
    assert_eq!(first.as_ref().len(), 32);
    assert!(LoginAttemptId::parse(first.as_ref()).is_ok());
    assert_ne!(first, second);
}

#[test]
fn two_fa_code_spells_its_seed_in_six_digits() {
    assert_eq!(TwoFACode::from_seed(0).as_ref(), "000000");
    assert_eq!(TwoFACode::from_seed(42).as_ref(), "000042");
    assert_eq!(TwoFACode::from_seed(999_999).as_ref(), "999999");
    assert_eq!(TwoFACode::from_seed(1_000_000).as_ref(), "000000");
    assert_eq!(TwoFACode::from_seed(1_234_567_890_123).as_ref(), "890123");
    assert_eq!(TwoFACode::from_seed(0x0102030405060708090a0b0c0d0e0f10).as_ref(), "491536");
    assert_eq!(TwoFACode::from_seed(u128::MAX).as_ref(), "211455");
}

#[test]
fn two_fa_code_parses_six_digits_only() {
    assert_eq!(TwoFACode::parse("123456").unwrap().as_ref(), "123456");
    assert_eq!(TwoFACode::parse("000000").unwrap().as_ref(), "000000");
    let code = TwoFACode::parse("654321").unwrap();
    assert_eq!(code.clone(), code);

    let refused = Err("Invalid 2FA code".to_string());
    assert_eq!(TwoFACode::parse(""), refused);
    assert_eq!(TwoFACode::parse("12345"), refused);
    assert_eq!(TwoFACode::parse("1234567"), refused);
    assert_eq!(TwoFACode::parse("12345a"), refused);
    assert_eq!(TwoFACode::parse("12 456"), refused);
    assert_eq!(TwoFACode::parse("-12345"), refused);
    assert_eq!(TwoFACode::parse("１２３４５６"), refused);
}

#[test]
fn fresh_two_fa_code_has_six_digits() {
    let code = TwoFACode::default();
    assert_eq!(code.as_ref().len(), 6);
    assert!(code.as_ref().chars().all(|c| c.is_ascii_digit()));
    assert!(TwoFACode::parse(code.as_ref()).is_ok());
}

#[test]
fn store_keeps_the_challenge_of_each_address() {
    let mut store = HashmapTwoFACodeStore::default();
    let other = Email::parse("other@email.com").unwrap();
    let id = LoginAttemptId::from_seed(1);
    let code = TwoFACode::from_seed(111_111);
    let other_id = LoginAttemptId::from_seed(2);
    let other_code = TwoFACode::from_seed(222_222);

    assert_eq!(store.get_code(&email()), Err(TwoFACodeStoreError::LoginAttemptIdNotFound));
    assert_eq!(store.remove_code(&email()), Err(TwoFACodeStoreError::LoginAttemptIdNotFound));

    assert_eq!(store.add_code(email(), id.clone(), code.clone()), Ok(()));
    assert_eq!(store.add_code(other.clone(), other_id.clone(), other_code.clone()), Ok(()));
    assert_eq!(store.get_code(&email()), Ok((id, code)));
    assert_eq!(store.get_code(&other), Ok((other_id.clone(), other_code.clone())));

    assert_eq!(store.remove_code(&email()), Ok(()));
    assert_eq!(store.get_code(&email()), Err(TwoFACodeStoreError::LoginAttemptIdNotFound));
    assert_eq!(store.get_code(&other), Ok((other_id, other_code)));
}

#[test]
fn issued_challenge_is_the_pending_one() {
    let mut store = HashmapTwoFACodeStore::new();
    let (id, code) = issue_challenge(&mut store, &email()).unwrap();
    assert_eq!(store.get_code(&email()), Ok((id.clone(), code.clone())));
    assert_eq!(verify_and_consume(&mut store, &email(), &id, &code), Ok(()));
}

#[test]
fn second_challenge_supersedes_the_first() {
    let mut store = HashmapTwoFACodeStore::new();
    let (first_id, first_code) = issue_challenge(&mut store, &email()).unwrap();
    let (second_id, second_code) = issue_challenge(&mut store, &email()).unwrap();
    assert_ne!(first_id, second_id);

    assert_eq!(
        verify_and_consume(&mut store, &email(), &first_id, &first_code),
        Err(SecondFactorError::AttemptIdMismatch)
    );
    assert_eq!(store.get_code(&email()), Ok((second_id.clone(), second_code.clone())));
    assert_eq!(verify_and_consume(&mut store, &email(), &second_id, &second_code), Ok(()));
}

#[test]
fn wrong_code_keeps_the_challenge_pending() {
    let mut store = HashmapTwoFACodeStore::new();
    let id = LoginAttemptId::from_seed(77);
    let code = TwoFACode::from_seed(123_456);
    let wrong = TwoFACode::from_seed(123_457);
    store.add_code(email(), id.clone(), code.clone()).unwrap();

    assert_eq!(
        verify_and_consume(&mut store, &email(), &id, &wrong),
        Err(SecondFactorError::CodeMismatch)
    );
    assert_eq!(store.get_code(&email()), Ok((id.clone(), code.clone())));
    assert_eq!(verify_and_consume(&mut store, &email(), &id, &code), Ok(()));
}

#[test]
fn attempt_id_is_compared_before_the_code() {
    let mut store = HashmapTwoFACodeStore::new();
    let id = LoginAttemptId::from_seed(77);
    let stale = LoginAttemptId::from_seed(78);
    let code = TwoFACode::from_seed(123_456);
    let wrong = TwoFACode::from_seed(123_457);
    store.add_code(email(), id.clone(), code.clone()).unwrap();

    assert_eq!(
        verify_and_consume(&mut store, &email(), &stale, &code),
        Err(SecondFactorError::AttemptIdMismatch)
    );
    assert_eq!(
        verify_and_consume(&mut store, &email(), &stale, &wrong),
        Err(SecondFactorError::AttemptIdMismatch)
    );
    assert_eq!(store.get_code(&email()), Ok((id, code)));
}

#[test]
fn challenge_is_consumed_by_its_first_use() {
    let mut store = HashmapTwoFACodeStore::new();
    let id = LoginAttemptId::from_seed(77);
    let code = TwoFACode::from_seed(123_456);
    store.add_code(email(), id.clone(), code.clone()).unwrap();

    assert_eq!(verify_and_consume(&mut store, &email(), &id, &code), Ok(()));
    assert_eq!(
        verify_and_consume(&mut store, &email(), &id, &code),
        Err(SecondFactorError::NoPendingChallenge)
    );
    assert_eq!(store.get_code(&email()), Err(TwoFACodeStoreError::LoginAttemptIdNotFound));
}

#[test]
fn challenge_of_another_address_is_not_touched() {
    let mut store = HashmapTwoFACodeStore::new();
    let other = Email::parse("other@email.com").unwrap();
    let id = LoginAttemptId::from_seed(77);
    let code = TwoFACode::from_seed(123_456);
    store.add_code(email(), id.clone(), code.clone()).unwrap();

    assert_eq!(
        verify_and_consume(&mut store, &other, &id, &code),
        Err(SecondFactorError::NoPendingChallenge)
    );
    assert_eq!(store.get_code(&email()), Ok((id, code)));
}
