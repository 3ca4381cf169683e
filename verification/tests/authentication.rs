use argon2::password_hash::{PasswordHasher, SaltString};
use zero2prod::authentication::middleware::{
    login_location, principal, reject_anonymous_users, AccessDecision, Principal,
};
use zero2prod::authentication::password::{
    credentials_result, has_fixed_parameters, pepper_password, task_result,
    verification_result, InvalidCause, StoredCredentials,
    UnexpectedCause, FALLBACK_PASSWORD_HASH,
};
use zero2prod::authentication::{AuthError, Credentials, PasswordService, UserId};
use zero2prod::domain::SubscriberPassword;
use zero2prod::secret::SecretText;
use zero2prod::utils::Failure;

fn secret(text: &str) -> SecretText {
    SecretText::new(text.to_string())
}

fn service() -> PasswordService {
    PasswordService::new(secret("a-process-wide-pepper"))
}

fn password(text: &str) -> SubscriberPassword {
    SubscriberPassword::parse(secret(text)).unwrap()
}

fn credentials(username: &str, password: &str) -> Credentials {
    Credentials { username: username.to_string(), password: secret(password) }
}

fn stored(user_id: UserId, hash: &str) -> Option<StoredCredentials> {
    Some(StoredCredentials { user_id, password_hash: secret(hash) })
}

#[test]
fn a_hashed_password_is_a_phc_string_with_the_fixed_parameters() {
    let hash = service().change_password(password("correct horse")).unwrap();
    let text = hash.expose_secret();
    assert!(text.starts_with("$argon2id$v=19$m=15000,t=2,p=1$"));
    assert_eq!(text.split('$').count(), 6);
}

#[test]
fn every_hash_has_a_fresh_salt() {
    let first = service().change_password(password("correct horse")).unwrap();
    let second = service().change_password(password("correct horse")).unwrap();
    assert_ne!(first.expose_secret(), second.expose_secret());
}

#[test]
fn hashing_under_a_given_salt_is_repeatable() {
    let pepper = secret("pepper");
    let first =
        PasswordService::hash_with_salt(&password("correct horse"), &pepper, "gZiV/M1gPc22ElAH/Jh1Hw")
            .unwrap();
    let second =
        PasswordService::hash_with_salt(&password("correct horse"), &pepper, "gZiV/M1gPc22ElAH/Jh1Hw")
            .unwrap();
    assert_eq!(first.expose_secret(), second.expose_secret());
    assert!(first.expose_secret().starts_with("$argon2id$v=19$m=15000,t=2,p=1$gZiV/M1gPc22ElAH/Jh1Hw$"));
    let other =
        PasswordService::hash_with_salt(&password("correct horse"), &secret("other"), "gZiV/M1gPc22ElAH/Jh1Hw")
            .unwrap();
    assert_ne!(first.expose_secret(), other.expose_secret());
}

#[test]
fn a_salt_that_is_not_b64_fails_the_hashing() {
    let outcome = PasswordService::hash_with_salt(&password("correct horse"), &secret("p"), "!!");
    assert_eq!(outcome.err(), Some(UnexpectedCause::HashingFailed));
}

#[test]
fn the_right_password_is_verified() {
    let service = service();
    let hash = service.change_password(password("correct horse")).unwrap();
    let outcome = PasswordService::verify_password_hash(
        hash,
        secret("correct horse"),
        &secret("a-process-wide-pepper"),
    );
    assert_eq!(outcome, Ok(()));
}

#[test]
fn a_wrong_password_is_an_invalid_credential() {
    let hash = service().change_password(password("correct horse")).unwrap();
    let outcome = PasswordService::verify_password_hash(
        hash,
        secret("correct horsf"),
        &secret("a-process-wide-pepper"),
    );
    assert_eq!(outcome, Err(AuthError::InvalidCredentials(InvalidCause::InvalidPassword)));
}

#[test]
fn another_pepper_does_not_verify() {
    let hash = service().change_password(password("correct horse")).unwrap();
    let outcome =
        PasswordService::verify_password_hash(hash, secret("correct horse"), &secret("other"));
    assert_eq!(outcome, Err(AuthError::InvalidCredentials(InvalidCause::InvalidPassword)));
}

#[test]
fn a_hash_that_is_not_phc_is_an_unexpected_error() {
    let outcome = PasswordService::verify_password_hash(
        secret("not a hash"),
        secret("correct horse"),
        &secret("pepper"),
    );
    assert_eq!(outcome, Err(AuthError::UnexpectedError(UnexpectedCause::MalformedHash)));
}

#[test]
fn valid_credentials_give_the_user() {
    let service = service();
    let hash = service.change_password(password("correct horse")).unwrap();
    let outcome = service.validate_credentials(
        credentials("ursula", "correct horse"),
        Ok(stored(UserId(7), hash.expose_secret())),
    );
    assert_eq!(outcome, Ok(UserId(7)));
    let outcome = service.validate_stored(
        credentials("ursula", "correct horse"),
        stored(UserId(7), hash.expose_secret()),
    );
    assert_eq!(outcome, Ok(UserId(7)));
}

#[test]
fn any_single_character_mutation_of_the_password_is_rejected() {
    let service = service();
    let right = "correct horse";
    let hash = service.change_password(password(right)).unwrap();
    for position in 0..right.len() {
        let mut mutated: Vec<u8> = right.as_bytes().to_vec();
        mutated[position] = if mutated[position] == b'x' { b'y' } else { b'x' };
        let mutated = String::from_utf8(mutated).unwrap();
        let outcome = service.validate_credentials(
            credentials("ursula", &mutated),
            Ok(stored(UserId(7), hash.expose_secret())),
        );
        assert_eq!(outcome, Err(AuthError::InvalidCredentials(InvalidCause::InvalidPassword)));
    }
}

#[test]
fn an_unknown_username_is_an_invalid_credential() {
    let outcome = service().validate_credentials(credentials("nobody", "correct horse"), Ok(None));
    assert!(matches!(outcome, Err(AuthError::InvalidCredentials(_))));
    let outcome = service().validate_stored(credentials("nobody", "correct horse"), None);
    assert!(matches!(outcome, Err(AuthError::InvalidCredentials(_))));
}

#[test]
fn the_fallback_hash_is_a_phc_string_with_the_fixed_parameters() {
    assert!(FALLBACK_PASSWORD_HASH.starts_with("$argon2id$v=19$m=15000,t=2,p=1$"));
    // It parses, so an unknown username costs a full verification and ends
    // as an invalid credential, not as an unexpected error.
    let outcome = PasswordService::verify_password_hash(
        secret(FALLBACK_PASSWORD_HASH),
        secret("anything"),
        &secret("pepper"),
    );
    assert_eq!(outcome, Err(AuthError::InvalidCredentials(InvalidCause::InvalidPassword)));
}

#[test]
fn a_match_without_a_stored_user_never_authenticates() {
    assert_eq!(
        credentials_result(None, Ok(())),
        Err(AuthError::InvalidCredentials(InvalidCause::UnknownUsername))
    );
    assert_eq!(credentials_result(Some(UserId(3)), Ok(())), Ok(UserId(3)));
    let failed = Err(AuthError::UnexpectedError(UnexpectedCause::MalformedHash));
    assert_eq!(credentials_result(Some(UserId(3)), failed), failed.map(|_: ()| UserId(0)));
}

#[test]
fn verification_outcomes_are_told_apart() {
    assert_eq!(verification_result(true, true, true), Ok(()));
    assert_eq!(
        verification_result(true, true, false),
        Err(AuthError::InvalidCredentials(InvalidCause::InvalidPassword))
    );
    assert_eq!(
        verification_result(true, false, true),
        Err(AuthError::UnexpectedError(UnexpectedCause::ParameterMismatch))
    );
    assert_eq!(
        verification_result(false, false, false),
        Err(AuthError::UnexpectedError(UnexpectedCause::MalformedHash))
    );
    assert_eq!(
        verification_result(false, true, true),
        Err(AuthError::UnexpectedError(UnexpectedCause::MalformedHash))
    );
}

#[test]
fn a_hash_made_with_other_parameters_fails_closed() {
    let salt = SaltString::from_b64("gZiV/M1gPc22ElAH/Jh1Hw").unwrap();
    let weak = argon2::Argon2::new(
        argon2::Algorithm::Argon2id,
        argon2::Version::V0x13,
        argon2::Params::new(8, 1, 1, None).unwrap(),
    )
    .hash_password(b"correct horsea-process-wide-pepper", &salt)
    .unwrap()
    .to_string();
    assert!(weak.starts_with("$argon2id$v=19$m=8,t=1,p=1$"));
    assert!(!has_fixed_parameters(&weak));
    assert!(has_fixed_parameters(FALLBACK_PASSWORD_HASH));
    assert!(has_fixed_parameters("$argon2id$v=19$m=15000,t=2,p=1$"));
    assert!(!has_fixed_parameters("$argon2i$v=19$m=15000,t=2,p=1$"));
    let outcome = service().validate_credentials(
        credentials("ursula", "correct horse"),
        Ok(stored(UserId(7), &weak)),
    );
    assert_eq!(outcome, Err(AuthError::UnexpectedError(UnexpectedCause::ParameterMismatch)));
    assert_eq!(
        UnexpectedCause::ParameterMismatch.message(),
        "The hash was not made with the fixed Argon2id parameters."
    );
}

#[test]
fn a_stored_hash_that_is_malformed_is_an_unexpected_error() {
    let outcome = service()
        .validate_credentials(credentials("ursula", "correct horse"), Ok(stored(UserId(7), "garbage")));
    assert_eq!(outcome, Err(AuthError::UnexpectedError(UnexpectedCause::MalformedHash)));
}

#[test]
fn a_failed_lookup_is_an_unexpected_error() {
    let outcome =
        service().validate_credentials(credentials("ursula", "correct horse"), Err(Failure));
    assert_eq!(outcome, Err(AuthError::UnexpectedError(UnexpectedCause::StoreFailed)));
    assert_eq!(
        outcome.unwrap_err().source(),
        "Failed to perform a query to retrieve stored credentials."
    );
}

#[test]
fn a_task_that_did_not_finish_is_an_unexpected_error() {
    assert_eq!(
        task_result(Err(Failure)),
        Err(AuthError::UnexpectedError(UnexpectedCause::TaskFailed))
    );
    assert_eq!(task_result(Ok(Ok(UserId(3)))), Ok(UserId(3)));
    let invalid = Err(AuthError::InvalidCredentials(InvalidCause::InvalidPassword));
    assert_eq!(task_result(Ok(invalid)), invalid);
}

#[test]
fn the_pepper_is_appended_to_the_password() {
    assert_eq!(pepper_password("pass", "pepper"), b"passpepper".to_vec());
    assert_eq!(pepper_password("", "pepper"), b"pepper".to_vec());
    assert_eq!(pepper_password("pässword", ""), "pässword".as_bytes().to_vec());
}

#[test]
fn invalid_credentials_show_one_message() {
    let wrong = AuthError::InvalidCredentials(InvalidCause::InvalidPassword);
    let unknown = AuthError::InvalidCredentials(InvalidCause::UnknownUsername);
    assert_eq!(wrong.to_string(), "Invalid Credentials.");
    assert_eq!(unknown.to_string(), "Invalid Credentials.");
    assert_eq!(wrong.source(), "Invalid password.");
    assert_eq!(unknown.source(), "Unknown username.");
    let unexpected = AuthError::UnexpectedError(UnexpectedCause::MalformedHash);
    assert_eq!(unexpected.to_string(), "Failed to parse hash in PHC string format.");
    assert_eq!(
        AuthError::UnexpectedError(UnexpectedCause::StoreFailed).source(),
        "Failed to perform a query to retrieve stored credentials."
    );
    assert_eq!(UnexpectedCause::HashingFailed.message(), "Failed to hash password");
    assert_eq!(UnexpectedCause::TaskFailed.message(), "Failed to spawn blocking task.");
}

#[test]
fn anonymous_requests_are_sent_to_the_login_page() {
    assert_eq!(reject_anonymous_users(None), AccessDecision::RedirectToLogin);
    assert_eq!(principal(None), Principal::Anonymous);
    assert_eq!(login_location(), "/login");
}

#[test]
fn authenticated_requests_proceed_with_their_user() {
    assert_eq!(reject_anonymous_users(Some(UserId(42))), AccessDecision::Proceed(UserId(42)));
    assert_eq!(principal(Some(UserId(42))), Principal::Authenticated(UserId(42)));
    assert_eq!(UserId::from(9).into_inner(), 9);
}
