use ring::signature::Ed25519KeyPair;
use ring::signature::KeyPair;
use tuf::crypto::HashAlgorithm;
use tuf::crypto::HashValue;
use tuf::crypto::KeyId;
use tuf::crypto::PublicKey;
use tuf::crypto::PublicKeyValue;
use tuf::crypto::Signature;
use tuf::crypto::SignatureScheme;
use tuf::crypto::SignatureValue;
use tuf::error::Error;
use tuf::error::Role;
use tuf::metadata::Delegations;
use tuf::metadata::MetadataDescription;
use tuf::metadata::RoleDefinition;
use tuf::metadata::RootMetadata;
use tuf::metadata::SignedMetadata;
use tuf::metadata::SnapshotMetadata;
use tuf::metadata::TargetDescription;
use tuf::metadata::TargetsMetadata;
use tuf::metadata::TimestampMetadata;
use tuf::path::MetadataPath;
use tuf::path::VirtualTargetPath;
use tuf::table::Content;
use tuf::table::Group;
use tuf::table::Table;
use tuf::time::Instant;
use tuf::tuf::Tuf;

struct TestKey {
    pair: Ed25519KeyPair,
    public: PublicKey,
}

fn key(n: u8) -> TestKey {
    let seed = [n; 32];
    let pair = Ed25519KeyPair::from_seed_unchecked(&seed).unwrap();
    let public =
        PublicKey::from_ed25519(PublicKeyValue::new(pair.public_key().as_ref().to_vec())).unwrap();
    TestKey { pair, public }
}

const DAY: i64 = 86_400;

fn at(day: i64) -> Instant {
    Instant::new(day * DAY, 0)
}

fn ids(keys: &[&TestKey]) -> Group<KeyId> {
    let mut ids: Group<KeyId> = Group::new();
    for k in keys {
        ids.insert(k.public.key_id().clone());
    }
    ids
}

fn keyring(keys: &[&TestKey]) -> Table<KeyId, PublicKey> {
    let mut table: Table<KeyId, PublicKey> = Table::new();
    for k in keys {
        table.insert(k.public.key_id().clone(), k.public.clone());
    }
    table
}

fn role_of(key: &TestKey) -> RoleDefinition {
    RoleDefinition::new(1, ids(&[key])).unwrap()
}

fn sign_with(bytes: &[u8], key: &TestKey) -> Signature {
    Signature::new(
        key.public.key_id().clone(),
        SignatureScheme::Ed25519,
        SignatureValue::new(key.pair.sign(bytes).as_ref().to_vec()),
    )
}

fn signed_by<M: Content + std::fmt::Debug>(metadata: M, keys: &[&TestKey]) -> SignedMetadata<M> {
    let canonical = format!("{:?}", metadata).into_bytes();
    let signatures = keys.iter().map(|k| sign_with(&canonical, k)).collect();
    SignedMetadata::new(signatures, metadata, canonical)
}

fn signed<M: Content + std::fmt::Debug>(metadata: M, key: &TestKey) -> SignedMetadata<M> {
    signed_by(metadata, &[key])
}

fn root_expiring(
    version: u32,
    expires: Instant,
    root_key: &TestKey,
    snapshot_key: &TestKey,
    targets_key: &TestKey,
    timestamp_key: &TestKey,
) -> RootMetadata {
    RootMetadata::new(
        version,
        expires,
        keyring(&[root_key, snapshot_key, targets_key, timestamp_key]),
        role_of(root_key),
        role_of(snapshot_key),
        role_of(targets_key),
        role_of(timestamp_key),
    )
    .unwrap()
}

fn description(version: u32) -> MetadataDescription {
    MetadataDescription::new(version, None, None).unwrap()
}

fn snapshot_of(version: u32, expires: Instant, listed: &[(&str, u32)]) -> SnapshotMetadata {
    let mut meta: Table<MetadataPath, MetadataDescription> = Table::new();
    for (path, v) in listed {
        meta.insert(MetadataPath::new(path), description(*v));
    }
    SnapshotMetadata::new(version, expires, meta).unwrap()
}

fn timestamp_of(version: u32, expires: Instant, snapshot_version: u32) -> TimestampMetadata {
    TimestampMetadata::new(version, expires, description(snapshot_version)).unwrap()
}

fn target(length: u64) -> TargetDescription {
    let mut hashes: Table<HashAlgorithm, HashValue> = Table::new();
    hashes.insert(HashAlgorithm::Sha256, HashValue::new(vec![length as u8; 32]));
    TargetDescription::new(length, hashes, None)
}

fn targets_of(
    version: u32,
    expires: Instant,
    listed: &[(&str, u64)],
    delegations: Option<Delegations>,
) -> TargetsMetadata {
    let mut targets: Table<VirtualTargetPath, TargetDescription> = Table::new();
    for (path, length) in listed {
        targets.insert(VirtualTargetPath::new(path), target(*length));
    }
    TargetsMetadata::new(version, expires, targets, delegations).unwrap()
}

fn verification_failure<T>(text: &str) -> Result<T, Error> {
    Err(Error::VerificationFailure(text.to_string()))
}

/// A state with root, timestamp, snapshot and targets of version one, all
/// expiring on day 100. Keys: 0 root, 1 snapshot, 2 targets, 3 timestamp.
fn full_state() -> Tuf {
    let (k0, k1, k2, k3) = (key(0), key(1), key(2), key(3));
    let mut tuf =
        Tuf::from_trusted_root(signed(root_expiring(1, at(100), &k0, &k1, &k2, &k3), &k0)).unwrap();
    tuf.update_timestamp_at(signed(timestamp_of(1, at(100), 1), &k3), &at(1)).unwrap();
    assert_eq!(
        tuf.update_snapshot_at(signed(snapshot_of(1, at(100), &[("targets", 1)]), &k1), &at(1)),
        Ok(true)
    );
    assert_eq!(
        tuf.update_targets_at(signed(targets_of(1, at(100), &[("a/b", 7)], None), &k2), &at(1)),
        Ok(true)
    );
    tuf
}

#[test]
fn threshold_counts_distinct_keys() {
    let (k0, k1, k2) = (key(0), key(1), key(2));
    let root = RootMetadata::new(
        1,
        at(100),
        keyring(&[&k0, &k1]),
        RoleDefinition::new(2, ids(&[&k0, &k1])).unwrap(),
        role_of(&k0),
        role_of(&k0),
        role_of(&k0),
    )
    .unwrap();

    let by_one = signed_by(root.clone(), &[&k0]);
    assert!(matches!(
        Tuf::from_trusted_root(by_one),
        Err(Error::VerificationFailure(s)) if s == "Signature threshold not met: 1/2"
    ));

    let twice_by_one = signed_by(root.clone(), &[&k0, &k0, &k0]);
    assert!(matches!(
        Tuf::from_trusted_root(twice_by_one),
        Err(Error::VerificationFailure(s)) if s == "Signature threshold not met: 1/2"
    ));

    let by_a_stranger_too = signed_by(root.clone(), &[&k2, &k0]);
    assert!(matches!(
        Tuf::from_trusted_root(by_a_stranger_too),
        Err(Error::VerificationFailure(s)) if s == "Signature threshold not met: 1/2"
    ));

    let by_both = signed_by(root.clone(), &[&k1, &k2, &k0]);
    assert!(Tuf::from_trusted_root(by_both).is_ok());
}

#[test]
fn threshold_check_through_verify() {
    let (k0, k1) = (key(0), key(1));
    let doc = signed_by(timestamp_of(1, at(100), 1), &[&k0, &k1]);
    assert_eq!(doc.verify(2, &keyring(&[&k0, &k1])), Ok(()));
    assert_eq!(doc.verify(1, &keyring(&[&k1])), Ok(()));
    assert_eq!(
        doc.verify(2, &keyring(&[&k1])),
        verification_failure("Signature threshold not met: 1/2")
    );
    assert_eq!(
        doc.verify(3, &keyring(&[&k0, &k1])),
        verification_failure("Signature threshold not met: 2/3")
    );
    assert_eq!(
        doc.verify(1, &keyring(&[])),
        verification_failure("Signature threshold not met: 0/1")
    );
    assert_eq!(
        doc.verify_among(1, &keyring(&[&k0, &k1]), &ids(&[&k1])),
        Ok(())
    );
    assert_eq!(
        doc.verify_among(2, &keyring(&[&k0, &k1]), &ids(&[&k1])),
        verification_failure("Signature threshold not met: 1/2")
    );
    assert_eq!(
        doc.verify_among(12, &keyring(&[&k0, &k1]), &ids(&[])),
        verification_failure("Signature threshold not met: 0/12")
    );
}

#[test]
fn threshold_of_zero_is_refused() {
    let k0 = key(0);
    let root = signed(root_expiring(1, at(100), &k0, &k0, &k0, &k0), &k0);
    assert!(matches!(
        Tuf::from_root_with_trusted_keys(root, 0, &[k0.public.clone()]),
        Err(Error::VerificationFailure(s)) if s == "Threshold must be strictly greater than zero"
    ));
}

#[test]
fn signature_over_other_bytes_does_not_count() {
    let k0 = key(0);
    let metadata = timestamp_of(1, at(100), 1);
    let doc = SignedMetadata::new(
        vec![sign_with(b"something else", &k0)],
        metadata,
        b"the canonical bytes".to_vec(),
    );
    assert_eq!(
        doc.verify(1, &keyring(&[&k0])),
        verification_failure("Signature threshold not met: 0/1")
    );
}

#[test]
fn unsigned_document_is_refused() {
    let k0 = key(0);
    let root = signed_by(root_expiring(1, at(100), &k0, &k0, &k0, &k0), &[]);
    assert!(matches!(
        Tuf::from_trusted_root(root),
        Err(Error::VerificationFailure(s)) if s == "Signature threshold not met: 0/1"
    ));
}

#[test]
fn trusted_keys_need_not_be_in_the_root() {
    let (k0, k1) = (key(0), key(1));
    // signed by the root key and by an outside key
    let root = signed_by(root_expiring(1, at(100), &k0, &k0, &k0, &k0), &[&k0, &k1]);
    assert!(Tuf::from_root_with_trusted_keys(root.clone(), 1, &[k1.public.clone()]).is_ok());
    assert!(matches!(
        Tuf::from_root_with_trusted_keys(root, 2, &[k1.public.clone(), k1.public.clone()]),
        Err(Error::VerificationFailure(s)) if s == "Signature threshold not met: 1/2"
    ));
}

#[test]
fn root_rollback_is_refused() {
    let (k0, k1) = (key(0), key(1));
    let mut tuf =
        Tuf::from_trusted_root(signed(root_expiring(2, at(100), &k0, &k0, &k0, &k0), &k0)).unwrap();
    let older = signed_by(root_expiring(1, at(100), &k1, &k1, &k1, &k1), &[&k1, &k0]);
    assert_eq!(
        tuf.update_root(older),
        verification_failure("Attempted to roll back root metadata at version 2 to 1.")
    );
    assert_eq!(tuf.root().version(), 2);
}

#[test]
fn new_root_must_be_signed_by_its_own_keys() {
    let (k0, k1) = (key(0), key(1));
    let mut tuf =
        Tuf::from_trusted_root(signed(root_expiring(1, at(100), &k0, &k0, &k0, &k0), &k0)).unwrap();
    // signed by the old key only
    let next = signed(root_expiring(2, at(100), &k1, &k1, &k1, &k1), &k0);
    assert_eq!(tuf.update_root(next), verification_failure("Signature threshold not met: 0/1"));
    assert_eq!(tuf.root().version(), 1);
}

#[test]
fn new_root_clears_everything_else() {
    let (k0, k1) = (key(0), key(4));
    let mut tuf = full_state();
    assert!(tuf.timestamp().is_some());
    assert!(tuf.snapshot().is_some());
    assert!(tuf.targets().is_some());
    let next = signed_by(root_expiring(2, at(100), &k1, &k1, &k1, &k1), &[&k1, &k0]);
    assert_eq!(tuf.update_root(next), Ok(true));
    assert_eq!(tuf.root().version(), 2);
    assert!(tuf.timestamp().is_none());
    assert!(tuf.snapshot().is_none());
    assert!(tuf.targets().is_none());
    assert_eq!(tuf.delegations().len(), 0);
}

#[test]
fn failed_root_update_keeps_everything() {
    let k1 = key(4);
    let mut tuf = full_state();
    let next = signed(root_expiring(2, at(100), &k1, &k1, &k1, &k1), &k1);
    assert!(tuf.update_root(next).is_err());
    assert_eq!(tuf.root().version(), 1);
    assert!(tuf.timestamp().is_some());
    assert!(tuf.snapshot().is_some());
    assert!(tuf.targets().is_some());
}

#[test]
fn snapshot_before_timestamp_is_refused() {
    let (k0, k1) = (key(0), key(1));
    let mut tuf =
        Tuf::from_trusted_root(signed(root_expiring(1, at(100), &k0, &k1, &k1, &k1), &k0)).unwrap();
    assert_eq!(
        tuf.update_snapshot_at(signed(snapshot_of(1, at(100), &[]), &k1), &at(1)),
        Err(Error::MissingMetadata(Role::Timestamp))
    );
    assert_eq!(
        tuf.update_snapshot(signed(snapshot_of(1, at(1_000_000), &[]), &k1)),
        Err(Error::ExpiredMetadata(Role::Root))
    );
}

#[test]
fn targets_before_snapshot_is_refused() {
    let (k0, k1) = (key(0), key(1));
    let mut tuf =
        Tuf::from_trusted_root(signed(root_expiring(1, at(100), &k0, &k1, &k1, &k1), &k0)).unwrap();
    assert_eq!(
        tuf.update_targets_at(signed(targets_of(1, at(100), &[], None), &k1), &at(1)),
        Err(Error::MissingMetadata(Role::Snapshot))
    );
    tuf.update_timestamp_at(signed(timestamp_of(1, at(100), 1), &k1), &at(1)).unwrap();
    assert_eq!(
        tuf.update_targets_at(signed(targets_of(1, at(100), &[], None), &k1), &at(1)),
        Err(Error::MissingMetadata(Role::Snapshot))
    );
}

#[test]
fn expired_timestamp_is_refused() {
    let (k0, k1) = (key(0), key(1));
    let mut tuf =
        Tuf::from_trusted_root(signed(root_expiring(1, at(100), &k0, &k1, &k1, &k1), &k0)).unwrap();
    let timestamp = signed(timestamp_of(1, at(10), 1), &k1);
    assert_eq!(
        tuf.update_timestamp_at(timestamp.clone(), &at(11)),
        Err(Error::ExpiredMetadata(Role::Timestamp))
    );
    // expiring at this very instant is expired
    assert_eq!(
        tuf.update_timestamp_at(timestamp.clone(), &at(10)),
        Err(Error::ExpiredMetadata(Role::Timestamp))
    );
    assert!(tuf.timestamp().is_none());
    let just_before = Instant::new(10 * DAY - 1, 999_999_999);
    assert_eq!(
        tuf.update_timestamp_at(timestamp.clone(), &just_before),
        Ok(Some(timestamp.assume_valid()))
    );
}

#[test]
fn instants_compare_by_seconds_then_nanoseconds() {
    assert!(Instant::new(5, 0).le(&Instant::new(5, 0)));
    assert!(Instant::new(5, 0).le(&Instant::new(5, 1)));
    assert!(!Instant::new(5, 1).le(&Instant::new(5, 0)));
    assert!(Instant::new(4, 999_999_999).le(&Instant::new(5, 0)));
    assert!(!Instant::new(5, 0).le(&Instant::new(4, 999_999_999)));
    assert!(Instant::new(-1, 5).le(&Instant::new(0, 0)));
}

#[test]
fn timestamp_rollback_is_refused() {
    let (k0, k1) = (key(0), key(1));
    let mut tuf =
        Tuf::from_trusted_root(signed(root_expiring(1, at(100), &k0, &k1, &k1, &k1), &k0)).unwrap();
    tuf.update_timestamp_at(signed(timestamp_of(12, at(100), 1), &k1), &at(1)).unwrap();
    assert_eq!(
        tuf.update_timestamp_at(signed(timestamp_of(3, at(100), 1), &k1), &at(1)),
        verification_failure("Attempted to roll back timestamp metadata at version 12 to 3.")
    );
    assert_eq!(tuf.timestamp().unwrap().version(), 12);
}

#[test]
fn timestamp_naming_another_snapshot_clears_the_snapshot() {
    let mut tuf = full_state();
    let k3 = key(3);
    // the same snapshot version: the snapshot stays
    tuf.update_timestamp_at(signed(timestamp_of(2, at(100), 1), &k3), &at(1)).unwrap();
    assert!(tuf.snapshot().is_some());
    // another snapshot version: the snapshot goes, the targets stay
    tuf.update_timestamp_at(signed(timestamp_of(3, at(100), 2), &k3), &at(1)).unwrap();
    assert!(tuf.snapshot().is_none());
    assert!(tuf.targets().is_some());
}

#[test]
fn expired_snapshot_is_installed_but_stops_targets() {
    let (k0, k1, k2, k3) = (key(0), key(1), key(2), key(3));
    let mut tuf =
        Tuf::from_trusted_root(signed(root_expiring(1, at(100), &k0, &k1, &k2, &k3), &k0)).unwrap();
    tuf.update_timestamp_at(signed(timestamp_of(1, at(100), 1), &k3), &at(50)).unwrap();
    // the snapshot expired on day 10
    assert_eq!(
        tuf.update_snapshot_at(signed(snapshot_of(1, at(10), &[("targets", 1)]), &k1), &at(50)),
        Ok(true)
    );
    assert_eq!(
        tuf.update_targets_at(signed(targets_of(1, at(100), &[], None), &k2), &at(50)),
        Err(Error::ExpiredMetadata(Role::Snapshot))
    );
    assert_eq!(
        tuf.target_description_at(&VirtualTargetPath::new("a/b"), &at(50)),
        Err(Error::ExpiredMetadata(Role::Snapshot))
    );
}

#[test]
fn expired_root_or_timestamp_stops_the_snapshot() {
    let (k0, k1, k2, k3) = (key(0), key(1), key(2), key(3));
    let mut tuf =
        Tuf::from_trusted_root(signed(root_expiring(1, at(100), &k0, &k1, &k2, &k3), &k0)).unwrap();
    tuf.update_timestamp_at(signed(timestamp_of(1, at(50), 1), &k3), &at(1)).unwrap();
    let snapshot = signed(snapshot_of(1, at(100), &[]), &k1);
    assert_eq!(
        tuf.update_snapshot_at(snapshot.clone(), &at(100)),
        Err(Error::ExpiredMetadata(Role::Root))
    );
    assert_eq!(
        tuf.update_snapshot_at(snapshot.clone(), &at(50)),
        Err(Error::ExpiredMetadata(Role::Timestamp))
    );
    assert!(tuf.snapshot().is_none());
    assert_eq!(tuf.update_snapshot_at(snapshot, &at(49)), Ok(true));
}

#[test]
fn snapshot_of_another_version_than_named_is_refused() {
    let (k0, k1) = (key(0), key(1));
    let mut tuf =
        Tuf::from_trusted_root(signed(root_expiring(1, at(100), &k0, &k1, &k1, &k1), &k0)).unwrap();
    tuf.update_timestamp_at(signed(timestamp_of(1, at(100), 2), &k1), &at(1)).unwrap();
    assert_eq!(
        tuf.update_snapshot_at(signed(snapshot_of(1, at(100), &[]), &k1), &at(1)),
        verification_failure(
            "The timestamp metadata reported that the snapshot metadata should be at version 2 \
             but version 1 was found instead."
        )
    );
    assert!(tuf.snapshot().is_none());
}

#[test]
fn snapshot_listing_another_targets_version_clears_the_targets() {
    let (k1, k3) = (key(1), key(3));
    let mut tuf = full_state();
    tuf.update_timestamp_at(signed(timestamp_of(2, at(100), 2), &k3), &at(1)).unwrap();
    assert_eq!(
        tuf.update_snapshot_at(signed(snapshot_of(2, at(100), &[("targets", 1)]), &k1), &at(1)),
        Ok(true)
    );
    assert!(tuf.targets().is_some());
    tuf.update_timestamp_at(signed(timestamp_of(3, at(100), 3), &k3), &at(1)).unwrap();
    assert_eq!(
        tuf.update_snapshot_at(signed(snapshot_of(3, at(100), &[("targets", 2)]), &k1), &at(1)),
        Ok(true)
    );
    assert!(tuf.targets().is_none());
}

#[test]
fn snapshot_without_targets_listing_stops_targets() {
    let (k0, k1) = (key(0), key(1));
    let mut tuf =
        Tuf::from_trusted_root(signed(root_expiring(1, at(100), &k0, &k1, &k1, &k1), &k0)).unwrap();
    tuf.update_timestamp_at(signed(timestamp_of(1, at(100), 1), &k1), &at(1)).unwrap();
    tuf.update_snapshot_at(signed(snapshot_of(1, at(100), &[("other", 1)]), &k1), &at(1)).unwrap();
    assert_eq!(
        tuf.update_targets_at(signed(targets_of(1, at(100), &[], None), &k1), &at(1)),
        verification_failure("Snapshot metadata had no description of the targets metadata")
    );
}

#[test]
fn targets_of_another_version_than_listed_are_refused() {
    let (k0, k1) = (key(0), key(1));
    let mut tuf =
        Tuf::from_trusted_root(signed(root_expiring(1, at(100), &k0, &k1, &k1, &k1), &k0)).unwrap();
    tuf.update_timestamp_at(signed(timestamp_of(1, at(100), 1), &k1), &at(1)).unwrap();
    tuf.update_snapshot_at(signed(snapshot_of(1, at(100), &[("targets", 3)]), &k1), &at(1))
        .unwrap();
    assert_eq!(
        tuf.update_targets_at(signed(targets_of(4, at(100), &[], None), &k1), &at(1)),
        verification_failure(
            "The snapshot metadata reported that the targets metadata should be at version 3 \
             but version 4 was found instead."
        )
    );
    assert!(tuf.targets().is_none());
}

#[test]
fn expired_targets_are_refused() {
    let (k0, k1) = (key(0), key(1));
    let mut tuf =
        Tuf::from_trusted_root(signed(root_expiring(1, at(100), &k0, &k1, &k1, &k1), &k0)).unwrap();
    tuf.update_timestamp_at(signed(timestamp_of(1, at(100), 1), &k1), &at(1)).unwrap();
    tuf.update_snapshot_at(signed(snapshot_of(1, at(100), &[("targets", 1)]), &k1), &at(1))
        .unwrap();
    assert_eq!(
        tuf.update_targets_at(signed(targets_of(1, at(20), &[], None), &k1), &at(20)),
        Err(Error::ExpiredMetadata(Role::Targets))
    );
    assert!(tuf.targets().is_none());
    assert_eq!(
        tuf.update_targets_at(signed(targets_of(1, at(20), &[], None), &k1), &at(19)),
        Ok(true)
    );
}

#[test]
fn replays_are_no_news() {
    let (k1, k2, k3) = (key(1), key(2), key(3));
    let mut tuf = full_state();
    assert_eq!(
        tuf.update_timestamp_at(signed(timestamp_of(1, at(100), 1), &k3), &at(2)),
        Ok(None)
    );
    assert_eq!(
        tuf.update_snapshot_at(signed(snapshot_of(1, at(100), &[("targets", 1)]), &k1), &at(2)),
        Ok(false)
    );
    assert_eq!(
        tuf.update_targets_at(signed(targets_of(1, at(100), &[("a/b", 7)], None), &k2), &at(2)),
        Ok(false)
    );
    assert_eq!(tuf.timestamp().unwrap().version(), 1);
    assert_eq!(tuf.snapshot().unwrap().version(), 1);
    assert_eq!(tuf.targets().unwrap().version(), 1);
}

#[test]
fn target_description_of_a_listed_target() {
    let tuf = full_state();
    assert_eq!(
        tuf.target_description_at(&VirtualTargetPath::new("a/b"), &at(2)),
        Ok(target(7))
    );
    assert_eq!(
        tuf.target_description_at(&VirtualTargetPath::new("a/c"), &at(2)),
        Err(Error::TargetUnavailable)
    );
    assert_eq!(
        tuf.target_description_at(&VirtualTargetPath::new("a/b"), &at(100)),
        Err(Error::ExpiredMetadata(Role::Root))
    );
    assert_eq!(
        tuf.target_description(&VirtualTargetPath::new("a/b")),
        Err(Error::ExpiredMetadata(Role::Root))
    );
}

#[test]
fn target_description_needs_snapshot_and_targets() {
    let (k0, k1) = (key(0), key(1));
    let mut tuf =
        Tuf::from_trusted_root(signed(root_expiring(1, at(100), &k0, &k1, &k1, &k1), &k0)).unwrap();
    let path = VirtualTargetPath::new("a/b");
    assert_eq!(tuf.target_description_at(&path, &at(1)), Err(Error::MissingMetadata(Role::Snapshot)));
    tuf.update_timestamp_at(signed(timestamp_of(1, at(100), 1), &k1), &at(1)).unwrap();
    tuf.update_snapshot_at(signed(snapshot_of(1, at(100), &[("targets", 1)]), &k1), &at(1))
        .unwrap();
    assert_eq!(tuf.target_description_at(&path, &at(1)), Err(Error::MissingMetadata(Role::Targets)));
    tuf.update_targets_at(signed(targets_of(1, at(30), &[("a/b", 1)], None), &k1), &at(1)).unwrap();
    assert_eq!(tuf.target_description_at(&path, &at(1)), Ok(target(1)));
    assert_eq!(tuf.target_description_at(&path, &at(30)), Err(Error::ExpiredMetadata(Role::Targets)));
}

#[test]
fn root_document_is_validated() {
    let (k0, k1) = (key(0), key(1));
    assert_eq!(
        RootMetadata::new(
            0,
            at(100),
            keyring(&[&k0]),
            role_of(&k0),
            role_of(&k0),
            role_of(&k0),
            role_of(&k0)
        ),
        Err(Error::IllegalArgument("Metadata version must be greater than zero".to_string()))
    );
    assert_eq!(
        RootMetadata::new(
            1,
            at(100),
            keyring(&[&k0]),
            role_of(&k0),
            role_of(&k0),
            role_of(&k1),
            role_of(&k0)
        ),
        Err(Error::IllegalArgument(
            "A role names a key that the metadata does not hold".to_string()
        ))
    );
    let mut misfiled: Table<KeyId, PublicKey> = Table::new();
    misfiled.insert(k1.public.key_id().clone(), k0.public.clone());
    assert_eq!(
        RootMetadata::new(
            1,
            at(100),
            misfiled,
            role_of(&k1),
            role_of(&k1),
            role_of(&k1),
            role_of(&k1)
        ),
        Err(Error::IllegalArgument("A key is not filed under its own ID".to_string()))
    );
}

#[test]
fn role_threshold_is_validated() {
    let (k0, k1) = (key(0), key(1));
    let refused = Err(Error::IllegalArgument(
        "Threshold must be at least one and at most the number of keys".to_string(),
    ));
    assert_eq!(RoleDefinition::new(0, ids(&[&k0])), refused);
    assert_eq!(RoleDefinition::new(2, ids(&[&k0])), refused);
    assert_eq!(RoleDefinition::new(2, ids(&[&k0, &k0])), refused);
    assert_eq!(RoleDefinition::new(1, ids(&[])), refused);
    let role = RoleDefinition::new(2, ids(&[&k0, &k1])).unwrap();
    assert_eq!(role.threshold(), 2);
    assert_eq!(role.key_ids().len(), 2);
    assert!(role.key_ids().contains(k1.public.key_id()));
}

#[test]
fn documents_need_a_version_above_zero() {
    let refused =
        Error::IllegalArgument("Metadata version must be greater than zero".to_string());
    assert_eq!(MetadataDescription::new(0, None, None), Err(refused.clone()));
    assert_eq!(TimestampMetadata::new(0, at(1), description(1)), Err(refused.clone()));
    assert_eq!(SnapshotMetadata::new(0, at(1), Table::new()), Err(refused.clone()));
    assert_eq!(TargetsMetadata::new(0, at(1), Table::new(), None), Err(refused));
}

#[test]
fn table_keeps_one_value_a_key() {
    let mut table: Table<MetadataPath, MetadataDescription> = Table::new();
    assert_eq!(table.len(), 0);
    table.insert(MetadataPath::new("a"), description(1));
    table.insert(MetadataPath::new("b"), description(2));
    table.insert(MetadataPath::new("a"), description(3));
    assert_eq!(table.len(), 2);
    assert_eq!(table.get(&MetadataPath::new("a")).unwrap().version(), 3);
    assert_eq!(table.get(&MetadataPath::new("b")).unwrap().version(), 2);
    assert!(table.get(&MetadataPath::new("c")).is_none());
    assert_eq!(table.key_at(0), &MetadataPath::new("a"));
    assert_eq!(table.key_at(1), &MetadataPath::new("b"));
    assert_eq!(table.value_at(1).version(), 2);
    table.remove(&MetadataPath::new("a"));
    assert_eq!(table.len(), 1);
    assert!(!table.contains_key(&MetadataPath::new("a")));
    assert_eq!(table.key_at(0), &MetadataPath::new("b"));
    table.remove(&MetadataPath::new("zzz"));
    assert_eq!(table.len(), 1);
    let copy = table.clone();
    assert_eq!(copy, table);
    table.clear();
    assert_eq!(table.len(), 0);
    assert_eq!(copy.len(), 1);
}

#[test]
fn descriptions_keep_what_they_are_given() {
    let mut hashes: Table<HashAlgorithm, HashValue> = Table::new();
    hashes.insert(HashAlgorithm::Sha256, HashValue::new(vec![1; 32]));
    hashes.insert(HashAlgorithm::Sha512, HashValue::new(vec![2; 64]));
    hashes.insert(HashAlgorithm::Sha256, HashValue::new(vec![3; 32]));
    let d = MetadataDescription::new(4, Some(100), Some(hashes.clone())).unwrap();
    assert_eq!(d.version(), 4);
    assert_eq!(d.length(), Some(100));
    assert_eq!(d.hashes().unwrap().len(), 2);
    assert_eq!(d.hashes().unwrap().get(&HashAlgorithm::Sha256).unwrap().value(), &[3u8; 32]);
    assert_eq!(d.hashes().unwrap().get(&HashAlgorithm::Sha512).unwrap().value(), &[2u8; 64]);
    assert!(description(1).hashes().is_none());
    assert_eq!(description(1).length(), None);
    let t = TargetDescription::new(9, hashes, Some("note".to_string()));
    assert_eq!(t.length(), 9);
    assert_eq!(t.hashes().len(), 2);
    assert_eq!(t.custom(), Some(&"note".to_string()));
    assert_eq!(t.clone(), t);
}

#[test]
fn role_paths() {
    assert_eq!(MetadataPath::from_role(&Role::Root).value(), "root");
    assert_eq!(MetadataPath::from_role(&Role::Snapshot).value(), "snapshot");
    assert_eq!(MetadataPath::from_role(&Role::Targets).value(), "targets");
    assert_eq!(MetadataPath::from_role(&Role::Timestamp).value(), "timestamp");
    assert_eq!(MetadataPath::new("delegations/a").value(), "delegations/a");
}
