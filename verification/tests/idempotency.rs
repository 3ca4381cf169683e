use zero2prod::authentication::UserId;
use zero2prod::idempotency::key::KeyRejection;
use zero2prod::idempotency::persistence::{
    next_action, rollback, HeaderPair, IdempotencyError, IdempotencyStore, SavedResponse,
};
use zero2prod::idempotency::{save_response, try_processing, IdempotencyKey, NextAction};

fn key(text: &str) -> IdempotencyKey {
    IdempotencyKey::try_from(text.to_string()).unwrap()
}

fn response() -> SavedResponse {
    SavedResponse {
        status_code: 303,
        headers: vec![HeaderPair {
            name: "location".to_string(),
            value: b"/admin/newsletters".to_vec(),
        }],
        body: b"done".to_vec(),
    }
}

fn same(a: &SavedResponse, b: &SavedResponse) -> bool {
    a.status_code == b.status_code
        && a.body == b.body
        && a.headers.len() == b.headers.len()
        && a.headers.iter().zip(b.headers.iter()).all(|(x, y)| x.name == y.name && x.value == y.value)
}

#[test]
fn an_empty_key_is_rejected() {
    assert_eq!(IdempotencyKey::try_from(String::new()).err(), Some(KeyRejection::Empty));
    assert_eq!(KeyRejection::Empty.message(), "The idempotency key cannot be empty");
}

#[test]
fn a_key_of_fifty_bytes_is_rejected() {
    assert!(IdempotencyKey::try_from("k".repeat(49)).is_ok());
    assert_eq!(IdempotencyKey::try_from("k".repeat(50)).err(), Some(KeyRejection::TooLong));
    // 25 characters of two bytes each.
    assert_eq!(IdempotencyKey::try_from("é".repeat(25)).err(), Some(KeyRejection::TooLong));
    assert!(IdempotencyKey::try_from("é".repeat(24)).is_ok());
    assert_eq!(
        KeyRejection::TooLong.message(),
        "The idempotency key must be shorter than 50 characters"
    );
}

#[test]
fn a_key_keeps_its_text() {
    let text = "5f8e3b1c-0a4d-4a57-9d0e-7f3d1c2b6a90";
    assert_eq!(key(text).as_ref(), text);
    assert_eq!(key(text).into_string(), text);
}

#[test]
fn the_first_request_starts_processing() {
    let mut store = IdempotencyStore::new();
    let action = try_processing(&mut store, &key("k1"), UserId(1), 100);
    assert!(matches!(action, Ok(NextAction::StartProcessing)));
    assert_eq!(store.len(), 1);
}

#[test]
fn a_completed_request_is_replayed_with_the_saved_response() {
    let mut store = IdempotencyStore::new();
    assert!(matches!(
        try_processing(&mut store, &key("k1"), UserId(1), 100),
        Ok(NextAction::StartProcessing)
    ));
    let returned = save_response(&mut store, &key("k1"), UserId(1), response()).unwrap();
    assert!(same(&returned, &response()));
    let mut started = 1;
    for attempt in 0..3 {
        match try_processing(&mut store, &key("k1"), UserId(1), 200 + attempt) {
            Ok(NextAction::ReturnSavedResponse(saved)) => assert!(same(&saved, &response())),
            Ok(NextAction::StartProcessing) => started += 1,
            Err(e) => panic!("unexpected {e:?}"),
        }
    }
    assert_eq!(started, 1);
    assert_eq!(store.len(), 1);
}

#[test]
fn the_same_key_of_another_user_is_no_collision() {
    let mut store = IdempotencyStore::new();
    assert!(matches!(
        try_processing(&mut store, &key("k1"), UserId(1), 100),
        Ok(NextAction::StartProcessing)
    ));
    save_response(&mut store, &key("k1"), UserId(1), response()).unwrap();
    assert!(matches!(
        try_processing(&mut store, &key("k1"), UserId(2), 101),
        Ok(NextAction::StartProcessing)
    ));
    assert!(matches!(
        try_processing(&mut store, &key("k2"), UserId(1), 102),
        Ok(NextAction::StartProcessing)
    ));
    assert_eq!(store.len(), 3);
}

#[test]
fn a_request_in_flight_turns_the_second_away() {
    let mut store = IdempotencyStore::new();
    assert!(matches!(
        try_processing(&mut store, &key("k1"), UserId(1), 100),
        Ok(NextAction::StartProcessing)
    ));
    assert!(matches!(
        try_processing(&mut store, &key("k1"), UserId(1), 101),
        Err(IdempotencyError::InFlight)
    ));
    assert_eq!(store.len(), 1);
}

#[test]
fn a_response_is_saved_only_for_a_request_in_progress() {
    let mut store = IdempotencyStore::new();
    assert_eq!(
        save_response(&mut store, &key("k1"), UserId(1), response()).err(),
        Some(IdempotencyError::NotProcessing)
    );
    assert_eq!(store.len(), 0);
    try_processing(&mut store, &key("k1"), UserId(1), 100).unwrap();
    save_response(&mut store, &key("k1"), UserId(1), response()).unwrap();
    let mut other = response();
    other.status_code = 500;
    assert_eq!(
        save_response(&mut store, &key("k1"), UserId(1), other).err(),
        Some(IdempotencyError::NotProcessing)
    );
    match try_processing(&mut store, &key("k1"), UserId(1), 300) {
        Ok(NextAction::ReturnSavedResponse(saved)) => assert_eq!(saved.status_code, 303),
        _ => panic!("the finished record must be replayed"),
    }
}

#[test]
fn an_abandoned_request_can_be_retried() {
    let mut store = IdempotencyStore::new();
    try_processing(&mut store, &key("k1"), UserId(1), 100).unwrap();
    rollback(&mut store, &key("k1"), UserId(1));
    assert_eq!(store.len(), 0);
    assert!(matches!(
        try_processing(&mut store, &key("k1"), UserId(1), 101),
        Ok(NextAction::StartProcessing)
    ));
    save_response(&mut store, &key("k1"), UserId(1), response()).unwrap();
    rollback(&mut store, &key("k1"), UserId(1));
    assert_eq!(store.len(), 1);
}

#[test]
fn the_storage_report_decides_the_next_action() {
    assert!(matches!(next_action(true, None), Ok(NextAction::StartProcessing)));
    assert!(matches!(next_action(true, Some(response())), Ok(NextAction::StartProcessing)));
    match next_action(false, Some(response())) {
        Ok(NextAction::ReturnSavedResponse(saved)) => assert!(same(&saved, &response())),
        _ => panic!("a saved response must be replayed"),
    }
    assert!(matches!(next_action(false, None), Err(IdempotencyError::InFlight)));
}

#[test]
fn a_copy_of_a_response_is_the_same_response() {
    let copy = response().duplicate();
    assert!(same(&copy, &response()));
    let pair = HeaderPair { name: "x-a".to_string(), value: vec![0, 255, 7] };
    let twin = pair.duplicate();
    assert_eq!(twin.name, "x-a");
    assert_eq!(twin.value, vec![0, 255, 7]);
}
