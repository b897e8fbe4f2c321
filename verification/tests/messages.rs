use tuf::error::Error;
use tuf::messages::delegation_mismatch_error;
use tuf::messages::mismatch_error;
use tuf::messages::rollback_error;
use tuf::messages::stale_listing_error;
use tuf::messages::unknown_role_error;
use tuf::messages::unlisted_error;
use tuf::path::MetadataPath;

fn failure(text: &str) -> Error {
    Error::VerificationFailure(text.to_string())
}

#[test]
fn rollback_text() {
    assert_eq!(
        rollback_error("snapshot", 10, 9),
        failure("Attempted to roll back snapshot metadata at version 10 to 9.")
    );
    assert_eq!(
        rollback_error("root", 4294967295, 0),
        failure("Attempted to roll back root metadata at version 4294967295 to 0.")
    );
}

#[test]
fn mismatch_text() {
    assert_eq!(
        mismatch_error("snapshot", "targets", 100, 1009),
        failure(
            "The snapshot metadata reported that the targets metadata should be at version 100 \
             but version 1009 was found instead."
        )
    );
}

#[test]
fn delegation_texts_quote_the_role() {
    let role = MetadataPath::new("a \"b\"\\c");
    assert_eq!(
        unlisted_error(&role),
        failure("The delegated role \"a \\\"b\\\"\\\\c\" was not present in the snapshot metadata.")
    );
    assert_eq!(
        stale_listing_error(&MetadataPath::new("x/y"), 1, 20),
        failure("Snapshot metadata listed delegation \"x/y\" version as 1 but current version is 20")
    );
    assert_eq!(
        unknown_role_error(&MetadataPath::new("")),
        failure(
            "The delegated role \"\" is not known to the base targets metadata or any known \
             delegated targets metadata"
        )
    );
    assert_eq!(
        delegation_mismatch_error(&MetadataPath::new("x"), 7, 8),
        failure(
            "The snapshot metadata reported that the delegation \"x\" should be at version 7 \
             but version 8 was found instead."
        )
    );
}

#[test]
fn errors_copy_and_compare() {
    let e = failure("text");
    assert_eq!(e.clone(), e);
    assert_ne!(e, failure("other"));
    assert_ne!(e, Error::IllegalArgument("text".to_string()));
    assert_eq!(Error::decode("d"), Error::Decode("d".to_string()));
    assert_eq!(Error::illegal_argument("i"), Error::IllegalArgument("i".to_string()));
    assert_eq!(Error::verification_failure("v"), Error::VerificationFailure("v".to_string()));
}
