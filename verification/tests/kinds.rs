use firebase_bridge::firestore::FirestoreErrorKind;

fn kind(code: &str) -> FirestoreErrorKind {
    FirestoreErrorKind::from_code(code)
}

#[test]
fn every_known_code_gives_its_kind() {
    assert_eq!(kind("cancelled"), FirestoreErrorKind::Cancelled);
    assert_eq!(kind("unknown"), FirestoreErrorKind::Unknown);
    assert_eq!(kind("invalid-argument"), FirestoreErrorKind::InvalidArgument);
    assert_eq!(kind("deadline-exceeded"), FirestoreErrorKind::DeadlineExceeded);
    assert_eq!(kind("not-found"), FirestoreErrorKind::NotFound);
    assert_eq!(kind("already-exists"), FirestoreErrorKind::AlreadyExists);
    assert_eq!(kind("permission-denied"), FirestoreErrorKind::PermissionDenied);
    assert_eq!(kind("resource-exhausted"), FirestoreErrorKind::ResourceExhausted);
    assert_eq!(kind("failed-precondition"), FirestoreErrorKind::FailedPrecondition);
    assert_eq!(kind("aborted"), FirestoreErrorKind::Aborted);
    assert_eq!(kind("out-of-range"), FirestoreErrorKind::OutOfRange);
    assert_eq!(kind("unimplemented"), FirestoreErrorKind::Unimplemented);
    assert_eq!(kind("internal"), FirestoreErrorKind::Internal);
    assert_eq!(kind("unavailable"), FirestoreErrorKind::Unavailable);
    assert_eq!(kind("data-loss"), FirestoreErrorKind::DataLoss);
    assert_eq!(kind("unauthenticated"), FirestoreErrorKind::Unauthenticated);
}

#[test]
fn unrecognised_code_is_kept() {
    assert_eq!(kind("quota-exceeded"), FirestoreErrorKind::Other("quota-exceeded".to_string()));
    assert_eq!(kind("storage/unauthorized"), FirestoreErrorKind::Other("storage/unauthorized".to_string()));
}

#[test]
fn empty_code_is_kept() {
    assert_eq!(kind(""), FirestoreErrorKind::Other(String::new()));
}

#[test]
fn codes_are_matched_exactly() {
    assert_eq!(kind("Not-Found"), FirestoreErrorKind::Other("Not-Found".to_string()));
    assert_eq!(kind("not_found"), FirestoreErrorKind::Other("not_found".to_string()));
    assert_eq!(kind("not-found "), FirestoreErrorKind::Other("not-found ".to_string()));
    assert_eq!(kind(" not-found"), FirestoreErrorKind::Other(" not-found".to_string()));
    assert_eq!(kind("not-foun"), FirestoreErrorKind::Other("not-foun".to_string()));
    assert_eq!(kind("abortedx"), FirestoreErrorKind::Other("abortedx".to_string()));
}

#[test]
fn code_beyond_ascii_is_kept() {
    assert_eq!(kind("nicht-gefunden-\u{e4}"), FirestoreErrorKind::Other("nicht-gefunden-\u{e4}".to_string()));
}

#[test]
fn owned_code_gives_the_same_kind() {
    assert_eq!(FirestoreErrorKind::from_owned("aborted".to_string()), FirestoreErrorKind::Aborted);
    assert_eq!(
        FirestoreErrorKind::from_owned("mystery".to_string()),
        FirestoreErrorKind::Other("mystery".to_string())
    );
}

#[test]
fn parsing_never_fails() {
    assert_eq!("not-found".parse::<FirestoreErrorKind>(), Ok(FirestoreErrorKind::NotFound));
    assert_eq!("data-loss".parse::<FirestoreErrorKind>(), Ok(FirestoreErrorKind::DataLoss));
    assert_eq!("whatever".parse::<FirestoreErrorKind>(), Ok(FirestoreErrorKind::Other("whatever".to_string())));
    assert_eq!("".parse::<FirestoreErrorKind>(), Ok(FirestoreErrorKind::Other(String::new())));
}
