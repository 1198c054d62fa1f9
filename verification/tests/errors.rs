use firebase_bridge::firestore::{FirestoreError, FirestoreErrorKind, TransactionError};
use firebase_bridge::FirebaseError;

fn reported(code: &str, message: &str) -> FirebaseError {
    FirebaseError::new(code.to_string(), message.to_string())
}

#[test]
fn reported_failure_keeps_code_and_message() {
    let error = reported("not-found", "no such document");
    assert_eq!(error.code(), "not-found");
    assert_eq!(error.message(), "no such document");
    assert_eq!(error.code, "not-found");
    assert_eq!(error.message, "no such document");
}

#[test]
fn failure_is_read_from_its_properties() {
    assert_eq!(
        FirebaseError::from_properties(Some("aborted".to_string()), Some("again".to_string())),
        reported("aborted", "again")
    );
}

#[test]
fn missing_property_is_read_as_empty() {
    assert_eq!(FirebaseError::from_properties(None, None), reported("", ""));
    assert_eq!(FirebaseError::from_properties(Some("internal".to_string()), None), reported("internal", ""));
    assert_eq!(FirebaseError::from_properties(None, Some("m".to_string())), reported("", "m"));
}

#[test]
fn kind_is_made_out_from_the_code() {
    let error = FirestoreError::from(reported("permission-denied", "no"));
    assert_eq!(error.kind, FirestoreErrorKind::PermissionDenied);
    assert_eq!(error.source, reported("permission-denied", "no"));
    assert_eq!(error.source(), &reported("permission-denied", "no"));
}

#[test]
fn unrecognised_code_is_no_reason_to_fail() {
    let error = FirestoreError::from(reported("storage/canceled", "stopped"));
    assert_eq!(error.kind, FirestoreErrorKind::Other("storage/canceled".to_string()));
    assert_eq!(error.source.code, "storage/canceled");
}

#[test]
fn into_gives_the_same_failure() {
    let error: FirestoreError = reported("aborted", "again").into();
    assert_eq!(error, FirestoreError { kind: FirestoreErrorKind::Aborted, source: reported("aborted", "again") });
}

#[test]
fn text_of_a_failure_is_its_message() {
    let error = FirestoreError::from(reported("internal", "something broke"));
    assert_eq!(error.to_string(), "something broke");
}

#[test]
fn failure_of_the_store_becomes_failure_of_the_transaction() {
    let error = FirestoreError::from(reported("aborted", "contention"));
    let failure: TransactionError<u8> = TransactionError::from(error.clone());
    assert_eq!(failure, TransactionError::Firestore(error));
}
