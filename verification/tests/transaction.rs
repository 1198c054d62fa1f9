use firebase_bridge::firestore::{collection, FirestoreError, FirestoreErrorKind, Transaction};
use firebase_bridge::FirebaseError;

fn reported(code: &str, message: &str) -> FirebaseError {
    FirebaseError::new(code.to_string(), message.to_string())
}

fn typed(code: &str, message: &str, kind: FirestoreErrorKind) -> FirestoreError {
    FirestoreError { kind, source: reported(code, message) }
}

#[test]
fn resolved_collection_is_handed_on() {
    assert_eq!(collection(Ok("users")), Ok("users"));
}

#[test]
fn refused_collection_path_is_typed() {
    assert_eq!(
        collection::<&str>(Err(reported("invalid-argument", "odd number of segments"))),
        Err(typed("invalid-argument", "odd number of segments", FirestoreErrorKind::InvalidArgument))
    );
}

#[test]
fn transaction_keeps_its_handle() {
    let transaction = Transaction::new(7);
    assert_eq!(*transaction.handle(), 7);
    assert_eq!(transaction.into_handle(), 7);
}

#[test]
fn read_in_transaction_is_typed() {
    let transaction = Transaction::new(1);
    assert_eq!(transaction.get(Ok("doc")), Ok("doc"));
    assert_eq!(
        transaction.get::<&str>(Err(reported("not-found", "gone"))),
        Err(typed("not-found", "gone", FirestoreErrorKind::NotFound))
    );
}

#[test]
fn writes_chain_on_success() {
    let transaction = Transaction::new(3);
    let transaction = transaction.set(Ok(())).unwrap();
    let transaction = transaction.update(Ok(())).unwrap();
    let transaction = transaction.delete(Ok(())).unwrap();
    assert_eq!(transaction.into_handle(), 3);
}

#[test]
fn refused_set_is_typed() {
    let error = Transaction::new(3).set(Err(reported("permission-denied", "no"))).unwrap_err();
    assert_eq!(error, typed("permission-denied", "no", FirestoreErrorKind::PermissionDenied));
}

#[test]
fn refused_update_is_typed() {
    let error = Transaction::new(3).update(Err(reported("not-found", "no document to update"))).unwrap_err();
    assert_eq!(error, typed("not-found", "no document to update", FirestoreErrorKind::NotFound));
}

#[test]
fn refused_delete_is_typed() {
    let error = Transaction::new(3).delete(Err(reported("failed-precondition", "read after write"))).unwrap_err();
    assert_eq!(error, typed("failed-precondition", "read after write", FirestoreErrorKind::FailedPrecondition));
}
