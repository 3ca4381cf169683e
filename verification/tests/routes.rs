use zero2prod::authentication::password::{InvalidCause, StoredCredentials, UnexpectedCause};
use zero2prod::authentication::{AuthError, PasswordService, UserId};
use zero2prod::domain::PasswordResetToken;
use zero2prod::idempotency::persistence::{IdempotencyError, IdempotencyStore, SavedResponse};
use zero2prod::idempotency::{save_response, try_processing, NextAction};
use zero2prod::repository::password_resets::PasswordResetRepository;
use zero2prod::routes::admin::newsletters::post as publish;
use zero2prod::routes::admin::password::post as admin_password;
use zero2prod::routes::login::post as login;
use zero2prod::routes::reset_password::confirm::get as confirm_get;
use zero2prod::routes::reset_password::confirm::post as confirm_post;
use zero2prod::routes::reset_password::post as forgot;
use zero2prod::routes::subscriptions as subscribe;
use zero2prod::routes::subscriptions_confirm as confirm;
use zero2prod::secret::SecretText;
use zero2prod::utils::{
    see_other, ErrorKind, Failure, FlashMessage, Level, Operation, Reply, Step,
};

fn secret(text: &str) -> SecretText {
    SecretText::new(text.to_string())
}

fn location(reply: &Reply) -> Option<&str> {
    reply.location.as_deref()
}

fn flash(reply: &Reply) -> Option<(Level, &str)> {
    reply.flash.as_ref().map(|m| (m.level, m.content.as_str()))
}

fn extract_token(body: &str) -> String {
    let start = body.find("token=").unwrap() + "token=".len();
    body[start..].chars().take_while(|c| c.is_ascii_alphanumeric()).collect()
}

const NOW: i64 = 1_700_000_000;

// POST /password-reset

#[test]
fn reset_password_rejects_a_malformed_email_with_400() {
    for email in ["not-an-email-address", "   ", "foo@@bar.com"] {
        let error = forgot::reset_password(forgot::FormData { email: email.to_string() })
            .err()
            .unwrap();
        assert_eq!(error, forgot::ForgotPasswordError::InvalidEmailError);
        assert_eq!(error.status_code(), 400);
        assert_eq!(error.to_string(), "Invalid Email");
    }
}

#[test]
fn reset_password_answers_200_for_an_unknown_email() {
    let step = forgot::reset_password(forgot::FormData { email: "invalid@example.com".to_string() })
        .ok()
        .unwrap();
    assert_eq!(step.address().as_ref(), "invalid@example.com");
    match step.on_user(Ok(None)) {
        Step::Respond(reply) => {
            assert_eq!(reply.status_code, 200);
            assert_eq!(location(&reply), None);
            assert_eq!(
                flash(&reply),
                Some((Level::Info, "If that email is in our system, we sent a reset link."))
            );
        }
        _ => panic!("an unknown address must be answered"),
    }
}

#[test]
fn reset_password_answers_200_for_a_known_email() {
    let step = forgot::reset_password(forgot::FormData { email: "ursula@example.com".to_string() })
        .ok()
        .unwrap();
    let step = match step.on_user(Ok(Some((UserId(1), "ursula".to_string())))) {
        Step::Continue(next) => next,
        _ => panic!("a token must be stored"),
    };
    assert_eq!(step.user(), UserId(1));
    let token = step.token().as_ref().to_string();
    assert!(PasswordResetToken::parse(token.clone()).is_ok());
    let step = step.on_stored(Ok(())).ok().unwrap();
    assert_eq!(step.recipient().as_ref(), "ursula@example.com");
    let mail = step.mail("http://127.0.0.1");
    assert_eq!(mail.subject, "Password Reset Request");
    assert_eq!(
        mail.html_body,
        format!(
            "Dear ursula,<br />Click <a href=\"http://127.0.0.1/password-reset?token={token}\">here</a> to reset your password."
        )
    );
    assert_eq!(
        mail.text_body,
        format!("Dear ursula,\nVisit http://127.0.0.1/password-reset?token={token} to reset your password.")
    );
    let reply = step.on_sent(Ok(())).ok().unwrap();
    assert_eq!(reply.status_code, 200);
    assert_eq!(location(&reply), None);
    assert_eq!(
        flash(&reply),
        Some((Level::Info, "If that email is in our system, we sent a reset link."))
    );
}

#[test]
fn reset_password_fails_with_500_when_outside_work_fails() {
    let start = || {
        forgot::reset_password(forgot::FormData { email: "ursula@example.com".to_string() })
            .ok()
            .unwrap()
    };
    match start().on_user(Err(Failure)) {
        Step::Fail(e) => {
            assert_eq!(e, forgot::ForgotPasswordError::UnexpectedError(Operation::FindUserByEmail));
            assert_eq!(e.status_code(), 500);
            assert_eq!(e.to_string(), "Something went wrong");
        }
        _ => panic!("a failed lookup must fail the request"),
    }
    let stored = |outcome| match start().on_user(Ok(Some((UserId(1), "ursula".to_string())))) {
        Step::Continue(next) => next.on_stored(outcome),
        _ => panic!("a token must be stored"),
    };
    assert_eq!(
        stored(Err(Failure)).err(),
        Some(forgot::ForgotPasswordError::UnexpectedError(Operation::StoreResetToken))
    );
    assert_eq!(
        stored(Ok(())).ok().unwrap().on_sent(Err(Failure)).err(),
        Some(forgot::ForgotPasswordError::UnexpectedError(Operation::SendResetEmail))
    );
}

#[test]
fn reset_password_answers_the_same_whether_or_not_the_email_is_known() {
    let start = || {
        forgot::reset_password(forgot::FormData { email: "ursula@example.com".to_string() })
            .ok()
            .unwrap()
    };
    let unknown = match start().on_user(Ok(None)) {
        Step::Respond(reply) => reply,
        _ => panic!("an unknown address must be answered"),
    };
    let known = match start().on_user(Ok(Some((UserId(1), "ursula".to_string())))) {
        Step::Continue(next) => next.on_stored(Ok(())).ok().unwrap().on_sent(Ok(())).ok().unwrap(),
        _ => panic!("a token must be stored"),
    };
    assert_eq!(known.status_code, unknown.status_code);
    assert_eq!(location(&known), location(&unknown));
    assert_eq!(flash(&known), flash(&unknown));
    let built = forgot::accepted_reply();
    assert_eq!(
        (built.status_code, location(&built), flash(&built)),
        (200, None, Some((Level::Info, "If that email is in our system, we sent a reset link.")))
    );
}

// GET /password-reset/confirm

#[test]
fn the_confirm_form_takes_a_well_formed_token() {
    let parameters = confirm_get::Parameters { token: "a".repeat(20) };
    assert_eq!(
        confirm_get::confirm_reset_password_form(&parameters).ok().unwrap().as_ref(),
        "a".repeat(20)
    );
    let parameters = confirm_get::Parameters { token: "bad token".to_string() };
    let error = confirm_get::confirm_reset_password_form(&parameters).err().unwrap();
    assert_eq!(error.status_code(), 400);
    assert_eq!(error.to_string(), "bad token is not a valid password reset token.");
}

// POST /password-reset/confirm

fn confirm_form(token: &str, new_password: &str, check: &str) -> confirm_post::FormData {
    confirm_post::FormData {
        token: secret(token),
        new_password: secret(new_password),
        new_password_check: secret(check),
    }
}

#[test]
fn reset_password_confirm_rejects_a_malformed_token_as_invalid() {
    for token in ["", "invalid-token", "short", "has space in it 1234"] {
        let error = confirm_post::reset_password_confirm(confirm_form(token, "new-password", "new-password"))
            .err()
            .unwrap();
        assert_eq!(error, confirm_post::ResetPasswordError::InvalidToken);
        assert_eq!(error.status_code(), 400);
        assert_eq!(error.to_string(), "Invalid or expired password reset token.");
    }
}

#[test]
fn reset_password_confirm_does_not_tell_why_a_token_is_invalid() {
    let token = "a".repeat(20);
    let step = confirm_post::reset_password_confirm(confirm_form(&token, "new-password", "new-password"))
        .ok()
        .unwrap();
    assert_eq!(step.reset_token().as_ref(), token);
    match step.on_token(Ok(None)) {
        Step::Fail(e) => {
            assert_eq!(e, confirm_post::ResetPasswordError::InvalidToken);
            assert_eq!(e.status_code(), 400);
        }
        _ => panic!("an unknown token must fail"),
    }
}

#[test]
fn reset_password_confirm_returns_500_for_a_failed_lookup() {
    let step = confirm_post::reset_password_confirm(confirm_form(&"a".repeat(20), "new-password", "new-password"))
        .ok()
        .unwrap();
    match step.on_token(Err(Failure)) {
        Step::Fail(e) => {
            assert_eq!(e, confirm_post::ResetPasswordError::Unexpected(Operation::QueryResetToken));
            assert_eq!(e.status_code(), 500);
            assert_eq!(e.to_string(), "Failed to query password reset token");
        }
        _ => panic!("a failed lookup must fail"),
    }
}

#[test]
fn reset_password_confirm_sends_back_on_password_mismatch() {
    let token = "a".repeat(20);
    let step = confirm_post::reset_password_confirm(confirm_form(&token, "new-password", "another-password"))
        .ok()
        .unwrap();
    match step.on_token(Ok(Some((UserId(1), "hash".to_string())))) {
        Step::Respond(reply) => {
            assert_eq!(reply.status_code, 303);
            assert_eq!(
                location(&reply),
                Some(format!("/password-reset/confirm?token={token}").as_str())
            );
            assert_eq!(
                flash(&reply),
                Some((
                    Level::Error,
                    "You entered two different new passwords - the field values must match."
                ))
            );
        }
        _ => panic!("a mismatch must send the user back"),
    }
}

#[test]
fn reset_password_confirm_sends_back_on_an_invalid_password() {
    let token = "a".repeat(20);
    let step = confirm_post::reset_password_confirm(confirm_form(&token, "invalid", "invalid"))
        .ok()
        .unwrap();
    match step.on_token(Ok(Some((UserId(1), "hash".to_string())))) {
        Step::Respond(reply) => {
            assert_eq!(
                location(&reply),
                Some(format!("/password-reset/confirm?token={token}").as_str())
            );
            assert_eq!(flash(&reply), Some((Level::Error, "Password must be 8 characters or longer.")));
        }
        _ => panic!("a short password must send the user back"),
    }
}

#[test]
fn reset_password_confirm_marks_the_token_only_after_the_change() {
    let start = || {
        let step = confirm_post::reset_password_confirm(confirm_form(&"a".repeat(20), "new-password", "new-password"))
            .ok()
            .unwrap();
        match step.on_token(Ok(Some((UserId(4), "the-hash".to_string())))) {
            Step::Continue(next) => next,
            _ => panic!("the password must be changed"),
        }
    };
    let step = start();
    assert_eq!(step.user(), UserId(4));
    let (password, step) = step.take_password();
    assert_eq!(password.expose(), "new-password");
    assert_eq!(
        step.on_changed(Err(Failure)).err(),
        Some(confirm_post::ResetPasswordError::Unexpected(Operation::ChangePassword))
    );
    let (_, step) = start().take_password();
    let step = step.on_changed(Ok(())).ok().unwrap();
    assert_eq!(step.hash(), "the-hash");
    let (_, again) = start().take_password();
    assert_eq!(
        again.on_changed(Ok(())).ok().unwrap().on_marked(Err(Failure)).err(),
        Some(confirm_post::ResetPasswordError::Unexpected(Operation::MarkTokenUsed))
    );
    let reply = step.on_marked(Ok(())).ok().unwrap();
    assert_eq!(reply.status_code, 303);
    assert_eq!(location(&reply), Some("/login"));
    assert_eq!(flash(&reply), Some((Level::Success, "Your password has been reset.")));
}

/// Request a reset, follow the link, set a new password, log in with it,
/// and try the token again.
#[test]
fn a_password_is_reset_end_to_end() {
    let service = PasswordService::new(secret("pepper"));
    let user_id = UserId(11);
    let mut resets = PasswordResetRepository::new(Vec::new());
    let mut sent: Vec<String> = Vec::new();

    // POST /password-reset
    let step = forgot::reset_password(forgot::FormData { email: "ursula@example.com".to_string() })
        .ok()
        .unwrap();
    let step = match step.on_user(Ok(Some((user_id, "ursula".to_string())))) {
        Step::Continue(next) => next,
        _ => panic!("a token must be stored"),
    };
    resets.insert_reset_token(step.user(), step.token(), NOW);
    let step = step.on_stored(Ok(())).ok().unwrap();
    sent.push(step.mail("http://localhost").text_body);
    let reply = step.on_sent(Ok(())).ok().unwrap();
    assert_eq!(reply.status_code, 200);
    assert_eq!(sent.len(), 1);
    let token = extract_token(&sent[0]);

    // GET the link
    let parameters = confirm_get::Parameters { token: token.clone() };
    assert!(confirm_get::confirm_reset_password_form(&parameters).is_ok());

    // POST /password-reset/confirm
    let step = confirm_post::reset_password_confirm(confirm_form(&token, "a-new-password", "a-new-password"))
        .ok()
        .unwrap();
    let lookup = resets.get_user_id_by_token(step.reset_token(), NOW + 60);
    let step = match step.on_token(Ok(lookup)) {
        Step::Continue(next) => next,
        _ => panic!("the token must be redeemable"),
    };
    assert_eq!(step.user(), user_id);
    let (password, step) = step.take_password();
    let stored_hash = service.change_password(password).unwrap();
    let step = step.on_changed(Ok(())).ok().unwrap();
    resets.mark_token_as_used(step.hash(), NOW + 61);
    let reply = step.on_marked(Ok(())).ok().unwrap();
    assert_eq!(location(&reply), Some("/login"));

    // Log in with the new password
    let credentials = login::credentials(login::FormData {
        username: "ursula".to_string(),
        password: secret("a-new-password"),
    });
    let outcome = service.validate_credentials(
        credentials,
        Ok(Some(StoredCredentials {
            user_id,
            password_hash: secret(stored_hash.expose_secret()),
        })),
    );
    assert_eq!(outcome, Ok(user_id));
    assert_eq!(location(&login::login(outcome).ok().unwrap()), Some("/"));

    // The same token again
    let step = confirm_post::reset_password_confirm(confirm_form(&token, "yet-another-one", "yet-another-one"))
        .ok()
        .unwrap();
    let lookup = resets.get_user_id_by_token(step.reset_token(), NOW + 120);
    match step.on_token(Ok(lookup)) {
        Step::Fail(e) => {
            assert_eq!(e.status_code(), 400);
            assert_eq!(e.to_string(), "Invalid or expired password reset token.");
        }
        _ => panic!("a used token must be invalid"),
    }
}

#[test]
fn an_expired_token_is_invalid_at_confirmation() {
    let mut resets = PasswordResetRepository::new(Vec::new());
    let token = PasswordResetToken::default();
    resets.insert_reset_token(UserId(1), &token, NOW);
    let step = confirm_post::reset_password_confirm(confirm_form(token.as_ref(), "a-new-password", "a-new-password"))
        .ok()
        .unwrap();
    let lookup = resets.get_user_id_by_token(step.reset_token(), NOW + 3601);
    match step.on_token(Ok(lookup)) {
        Step::Fail(e) => assert_eq!(e, confirm_post::ResetPasswordError::InvalidToken),
        _ => panic!("an expired token must be invalid"),
    }
}

// POST /login

#[test]
fn login_redirects_home_for_a_user() {
    let reply = login::login(Ok(UserId(1))).ok().unwrap();
    assert_eq!(reply.status_code, 303);
    assert_eq!(location(&reply), Some("/"));
    assert_eq!(flash(&reply), None);
}

#[test]
fn login_failures_go_back_to_the_form_with_an_opaque_message() {
    for cause in [InvalidCause::InvalidPassword, InvalidCause::UnknownUsername] {
        let failure = login::login(Err(AuthError::InvalidCredentials(cause))).err().unwrap();
        assert_eq!(failure.error, login::LoginError::AuthError(AuthError::InvalidCredentials(cause)));
        assert_eq!(failure.error.to_string(), "Authentication failed");
        assert_eq!(failure.response.status_code, 303);
        assert_eq!(location(&failure.response), Some("/login"));
        assert_eq!(flash(&failure.response), Some((Level::Error, "Authentication failed")));
    }
    let unexpected = AuthError::UnexpectedError(UnexpectedCause::StoreFailed);
    let failure = login::login(Err(unexpected)).err().unwrap();
    assert_eq!(failure.error, login::LoginError::UnexpectedError(unexpected));
    assert_eq!(flash(&failure.response), Some((Level::Error, "Something went wrong")));
}

// POST /admin/password

fn password_form(current: &str, new: &str, check: &str) -> admin_password::FormData {
    admin_password::FormData {
        current_password: secret(current),
        new_password: secret(new),
        new_password_check: secret(check),
    }
}

#[test]
fn change_password_requires_the_two_entries_to_match() {
    match admin_password::change_password(password_form("current", "new-password", "other-password"), UserId(1)) {
        Step::Respond(reply) => {
            assert_eq!(location(&reply), Some("/admin/password"));
            assert_eq!(
                flash(&reply),
                Some((
                    Level::Error,
                    "You entered two different new passwords - the field values must match."
                ))
            );
        }
        _ => panic!("a mismatch must send the user back"),
    }
}

#[test]
fn change_password_checks_the_current_password_first() {
    let start = || match admin_password::change_password(password_form("current", "short", "short"), UserId(1)) {
        Step::Continue(next) => next,
        _ => panic!("the entries match"),
    };
    assert_eq!(start().user(), UserId(1));
    assert_eq!(start().on_username(Err(Failure)).err(), Some(Operation::GetUsername));
    let (credentials, step) = start().on_username(Ok("ursula".to_string())).ok().unwrap();
    assert_eq!(credentials.username, "ursula");
    assert_eq!(credentials.password.expose_secret(), "current");
    match step.on_validated(Err(AuthError::InvalidCredentials(InvalidCause::InvalidPassword))) {
        Step::Respond(reply) => {
            assert_eq!(flash(&reply), Some((Level::Error, "The current password is incorrect.")))
        }
        _ => panic!("a wrong current password must send the user back"),
    }
    let (_, step) = start().on_username(Ok("ursula".to_string())).ok().unwrap();
    match step.on_validated(Err(AuthError::UnexpectedError(UnexpectedCause::StoreFailed))) {
        Step::Fail(operation) => assert_eq!(operation, Operation::ValidateCredentials),
        _ => panic!("an unexpected error must fail the request"),
    }
    let (_, step) = start().on_username(Ok("ursula".to_string())).ok().unwrap();
    match step.on_validated(Ok(UserId(1))) {
        Step::Respond(reply) => {
            assert_eq!(flash(&reply), Some((Level::Error, "Password must be 8 characters or longer.")))
        }
        _ => panic!("a short new password must send the user back"),
    }
}

#[test]
fn change_password_stores_an_accepted_password() {
    let step = match admin_password::change_password(password_form("current", "a-new-password", "a-new-password"), UserId(5)) {
        Step::Continue(next) => next,
        _ => panic!("the entries match"),
    };
    let (_, step) = step.on_username(Ok("ursula".to_string())).ok().unwrap();
    let (password, step) = match step.on_validated(Ok(UserId(5))) {
        Step::Continue(next) => next,
        _ => panic!("the password must be changed"),
    };
    assert_eq!(password.expose(), "a-new-password");
    assert_eq!(step.user(), UserId(5));
    let reply = step.on_changed(Ok(())).ok().unwrap();
    assert_eq!(location(&reply), Some("/admin/password"));
    assert_eq!(flash(&reply), Some((Level::Error, "Your password has been changed.")));
}

// POST /subscriptions

#[test]
fn subscribe_rejects_invalid_fields_with_400() {
    for (name, email) in [("", "the_john_doe@example.com"), ("John", ""), ("John", "definitely-not-an-email")] {
        let form = subscribe::FormData { name: name.to_string(), email: email.to_string() };
        let error = subscribe::subscribe(form).err().unwrap();
        assert!(matches!(error, subscribe::SubscribeError::ValidationError(_)));
        assert_eq!(error.status_code(), 400);
    }
}

#[test]
fn subscribe_commits_before_it_sends_the_mail() {
    let form = subscribe::FormData {
        name: "john doe".to_string(),
        email: "the_john_doe@example.com".to_string(),
    };
    let mut step = subscribe::subscribe(form).ok().unwrap();
    assert_eq!(step.new_subscriber().name.as_ref(), "john doe");
    let token = step.subscription_token().as_ref().to_string();
    assert_eq!(token.len(), 25);
    let mail = step.mail("http://127.0.0.1");
    assert_eq!(mail.subject, "Welcome!");
    assert_eq!(
        mail.html_body,
        format!(
            "Welcome to our newsletter!<br />Click <a href=\"http://127.0.0.1/subscriptions/confirm?subscription_token={token}\">here</a> to confirm your subscription."
        )
    );
    assert_eq!(
        mail.text_body,
        format!(
            "Welcome to our newsletter!\nVisit http://127.0.0.1/subscriptions/confirm?subscription_token={token} to confirm your subscription."
        )
    );
    let mut order = Vec::new();
    loop {
        order.push(step.next());
        match step.advance(Ok(())) {
            Step::Continue(next) => step = next,
            Step::Respond(reply) => {
                assert_eq!(reply.status_code, 200);
                break;
            }
            Step::Fail(_) => panic!("nothing failed"),
        }
    }
    assert_eq!(
        order,
        vec![
            subscribe::Stage::Begin,
            subscribe::Stage::InsertSubscriber,
            subscribe::Stage::StoreToken,
            subscribe::Stage::Commit,
            subscribe::Stage::SendEmail,
        ]
    );
}

#[test]
fn subscribe_fails_with_500_at_the_stage_that_failed() {
    let form = || subscribe::FormData {
        name: "john doe".to_string(),
        email: "the_john_doe@example.com".to_string(),
    };
    let step = subscribe::subscribe(form()).ok().unwrap();
    let step = match step.advance(Ok(())) {
        Step::Continue(next) => next,
        _ => panic!("the transaction was opened"),
    };
    let step = match step.advance(Ok(())) {
        Step::Continue(next) => next,
        _ => panic!("the subscriber was inserted"),
    };
    match step.advance(Err(Failure)) {
        Step::Fail(e) => {
            assert!(matches!(
                e,
                subscribe::SubscribeError::UnexpectedError(Operation::StoreSubscriptionToken)
            ));
            assert_eq!(e.status_code(), 500);
            assert_eq!(
                e.to_string(),
                "Failed to store the confirmation token for a new subscriber."
            );
        }
        _ => panic!("the failure must end the request"),
    }
}

// GET /subscriptions/confirm

#[test]
fn confirm_maps_each_outcome_to_its_status() {
    let parameters = confirm::Parameters { subscription_token: "nope".to_string() };
    let error = confirm::confirm(&parameters).err().unwrap();
    assert_eq!(error.status_code(), 400);
    assert_eq!(error.to_string(), "nope is not a valid subscription token.");

    let parameters = confirm::Parameters { subscription_token: "x".repeat(25) };
    let start = || confirm::confirm(&parameters).ok().unwrap();
    assert_eq!(start().subscription_token().as_ref(), "x".repeat(25));
    let error = start().on_subscriber(Ok(None)).err().unwrap();
    assert_eq!(error.status_code(), 401);
    assert_eq!(error.to_string(), "No subscriber associated with the provided token.");
    let error = start().on_subscriber(Err(Failure)).err().unwrap();
    assert_eq!(error.status_code(), 500);
    let step = start().on_subscriber(Ok(Some(77))).ok().unwrap();
    assert_eq!(step.subscriber_id(), 77);
    assert_eq!(step.on_confirmed(Ok(())).ok().unwrap().status_code, 200);
    let step = start().on_subscriber(Ok(Some(77))).ok().unwrap();
    assert_eq!(step.on_confirmed(Err(Failure)).err().unwrap().status_code(), 500);
}

// POST /admin/newsletters

fn issue(key: &str) -> publish::FormData {
    publish::FormData {
        title: "Newsletter title".to_string(),
        html_content: "<p>Newsletter body as HTML</p>".to_string(),
        text_content: "Newsletter body as plain text".to_string(),
        idempotency_key: key.to_string(),
    }
}

fn to_saved(reply: &Reply) -> SavedResponse {
    SavedResponse {
        status_code: reply.status_code,
        headers: reply
            .location
            .iter()
            .map(|l| zero2prod::idempotency::persistence::HeaderPair {
                name: "location".to_string(),
                value: l.as_bytes().to_vec(),
            })
            .collect(),
        body: Vec::new(),
    }
}

/// Runs one request against the store and counts the mails that go out.
fn publish_once(store: &mut IdempotencyStore, key: &str, subscribers: &[&str], outbox: &mut Vec<String>) -> (u16, Vec<u8>) {
    let step = publish::publish_newsletter(issue(key), UserId(1)).ok().unwrap();
    let started = try_processing(store, step.idempotency_key(), step.user(), NOW);
    let step = match step.on_started(Ok(started)) {
        publish::Start::Process(next) => next,
        publish::Start::Replay(saved, notice) => {
            assert_eq!(notice.content, "The newsletter issue has been published!");
            return (saved.status_code, saved.headers[0].value.clone());
        }
        publish::Start::Conflict => return (409, Vec::new()),
        publish::Start::Fail(_) => return (500, Vec::new()),
    };
    let emails = subscribers.iter().map(|s| s.to_string()).collect();
    let (mut progress, _skipped) = step.on_subscribers(Ok(emails)).ok().unwrap();
    let save = loop {
        match progress {
            publish::Progress::Send(delivery) => {
                assert_eq!(delivery.subject(), "Newsletter title");
                assert_eq!(delivery.html_body(), "<p>Newsletter body as HTML</p>");
                assert_eq!(delivery.text_body(), "Newsletter body as plain text");
                outbox.push(delivery.recipient().as_ref().to_string());
                progress = delivery.on_sent(Ok(())).ok().unwrap();
            }
            publish::Progress::Done(save) => break save,
        }
    };
    let response = save.response();
    save_response(store, save.idempotency_key(), save.user(), to_saved(&response)).unwrap();
    let reply = save.on_saved(Ok(())).ok().unwrap();
    (reply.status_code, reply.location.unwrap().into_bytes())
}

#[test]
fn newsletter_creation_is_idempotent_in_the_library() {
    let mut store = IdempotencyStore::new();
    let mut outbox = Vec::new();
    let subscribers = ["a@example.com", "b@example.com"];
    let first = publish_once(&mut store, "a-key", &subscribers, &mut outbox);
    let second = publish_once(&mut store, "a-key", &subscribers, &mut outbox);
    assert_eq!(first, (303, b"/admin/newsletters".to_vec()));
    assert_eq!(first, second);
    assert_eq!(outbox, vec!["a@example.com", "b@example.com"]);
    publish_once(&mut store, "another-key", &subscribers, &mut outbox);
    assert_eq!(outbox.len(), 4);
}

#[test]
fn newsletters_skip_subscribers_whose_address_is_no_longer_valid() {
    let emails = vec![
        "a@example.com".to_string(),
        "not-an-email".to_string(),
        "b@example.com".to_string(),
        "".to_string(),
    ];
    let subscribers = publish::get_confirmed_subscribers(emails);
    let valid: Vec<&str> = subscribers.valid.iter().map(|e| e.as_ref()).collect();
    assert_eq!(valid, vec!["a@example.com", "b@example.com"]);
    assert_eq!(
        subscribers.skipped,
        vec!["not-an-email is not a valid subscriber email.", " is not a valid subscriber email."]
    );
}

#[test]
fn newsletters_are_not_sent_without_subscribers() {
    let step = publish::publish_newsletter(issue("a-key"), UserId(1)).ok().unwrap();
    let step = match step.on_started(Ok(Ok(NextAction::StartProcessing))) {
        publish::Start::Process(next) => next,
        _ => panic!("the request must be processed"),
    };
    let (progress, skipped) = step.on_subscribers(Ok(vec!["nope".to_string()])).ok().unwrap();
    assert_eq!(skipped.len(), 1);
    match progress {
        publish::Progress::Done(save) => {
            let reply = save.on_saved(Ok(())).ok().unwrap();
            assert_eq!(location(&reply), Some("/admin/newsletters"));
            assert_eq!(
                flash(&reply),
                Some((Level::Info, "The newsletter issue has been published!"))
            );
        }
        publish::Progress::Send(_) => panic!("nobody to send to"),
    }
}

#[test]
fn newsletter_failures_end_the_request() {
    assert_eq!(
        publish::publish_newsletter(issue(""), UserId(1)).err(),
        Some(zero2prod::idempotency::key::KeyRejection::Empty)
    );
    let start = || publish::publish_newsletter(issue("a-key"), UserId(1)).ok().unwrap();
    assert!(matches!(
        start().on_started(Err(Failure)),
        publish::Start::Fail(Operation::StartIdempotentRequest)
    ));
    assert!(matches!(
        start().on_started(Ok(Err(IdempotencyError::InFlight))),
        publish::Start::Conflict
    ));
    let fetch = |fetched| match start().on_started(Ok(Ok(NextAction::StartProcessing))) {
        publish::Start::Process(next) => next.on_subscribers(fetched),
        _ => panic!("the request must be processed"),
    };
    assert_eq!(fetch(Err(Failure)).err(), Some(Operation::GetConfirmedSubscribers));
    match fetch(Ok(vec!["a@example.com".to_string()])).ok().unwrap().0 {
        publish::Progress::Send(delivery) => {
            assert_eq!(delivery.on_sent(Err(Failure)).err(), Some(Operation::SendNewsletterIssue))
        }
        publish::Progress::Done(_) => panic!("one mail is due"),
    }
    match fetch(Ok(Vec::new())).ok().unwrap().0 {
        publish::Progress::Done(save) => {
            assert_eq!(save.on_saved(Err(Failure)).err(), Some(Operation::SaveResponse))
        }
        publish::Progress::Send(_) => panic!("nobody to send to"),
    }
}

#[test]
fn publish_errors_map_to_their_responses() {
    let response = publish::PublishError::AuthError.error_response();
    assert_eq!(response.status_code, 401);
    assert_eq!(response.www_authenticate.as_deref(), Some("Basic realm=\"publish\""));
    let response = publish::PublishError::UnexpectedError(Operation::SaveResponse).error_response();
    assert_eq!(response.status_code, 500);
    assert_eq!(response.www_authenticate, None);
    assert_eq!(publish::PublishError::AuthError.to_string(), "Authentication failed");
}

// Kinds of error

#[test]
fn every_error_has_the_status_of_its_kind() {
    let kinds = [
        (ErrorKind::Validation, 400),
        (ErrorKind::InvalidToken, 400),
        (ErrorKind::Unauthorized, 401),
        (ErrorKind::Conflict, 409),
        (ErrorKind::Unexpected, 500),
    ];
    for (kind, status) in kinds {
        assert_eq!(kind.status_code(), status);
    }
    let e = forgot::ForgotPasswordError::InvalidEmailError;
    assert_eq!((e.kind(), e.kind().status_code()), (ErrorKind::Validation, e.status_code()));
    let e = forgot::ForgotPasswordError::UnexpectedError(Operation::SendResetEmail);
    assert_eq!((e.kind(), e.kind().status_code()), (ErrorKind::Unexpected, e.status_code()));
    let e = confirm_post::ResetPasswordError::InvalidToken;
    assert_eq!((e.kind(), e.kind().status_code()), (ErrorKind::InvalidToken, e.status_code()));
    let e = confirm_post::ResetPasswordError::Unexpected(Operation::MarkTokenUsed);
    assert_eq!((e.kind(), e.kind().status_code()), (ErrorKind::Unexpected, e.status_code()));
    let e = subscribe::SubscribeError::ValidationError("no".to_string());
    assert_eq!((e.kind(), e.kind().status_code()), (ErrorKind::Validation, e.status_code()));
    let e = confirm::ConfirmError::UnknownToken;
    assert_eq!((e.kind(), e.kind().status_code()), (ErrorKind::Unauthorized, e.status_code()));
    let e = publish::PublishError::AuthError;
    assert_eq!(
        (e.kind(), e.kind().status_code()),
        (ErrorKind::Unauthorized, e.error_response().status_code)
    );
    assert_eq!(
        AuthError::InvalidCredentials(InvalidCause::UnknownUsername).kind(),
        ErrorKind::Unauthorized
    );
    assert_eq!(
        AuthError::UnexpectedError(UnexpectedCause::TaskFailed).kind(),
        ErrorKind::Unexpected
    );
}

// Replies

#[test]
fn replies_are_built_from_their_parts() {
    let reply = see_other("/login");
    assert_eq!((reply.status_code, location(&reply), flash(&reply)), (303, Some("/login"), None));
    let reply = Reply::ok().with_flash(FlashMessage::success("done"));
    assert_eq!((reply.status_code, location(&reply)), (200, None));
    assert_eq!(flash(&reply), Some((Level::Success, "done")));
    assert_eq!(FlashMessage::error("no").level, Level::Error);
    assert_eq!(FlashMessage::info("fyi").level, Level::Info);
    assert_eq!(Operation::MarkTokenUsed.context(), "Failed to mark token as used");
}
