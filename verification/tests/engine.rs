use ring::signature::Ed25519KeyPair;
use ring::signature::KeyPair;
use tuf::crypto::HashAlgorithm;
use tuf::crypto::HashValue;
use tuf::crypto::KeyId;
use tuf::crypto::PublicKey;
use tuf::crypto::PublicKeyValue;
use tuf::crypto::Signature;
use tuf::crypto::SignatureScheme;
use tuf::crypto::SignatureValue;
use tuf::error::Error;
use tuf::error::Role;
use tuf::metadata::MetadataDescription;
use tuf::metadata::RoleDefinition;
use tuf::metadata::RootMetadata;
use tuf::metadata::SignedMetadata;
use tuf::metadata::SnapshotMetadata;
use tuf::metadata::TargetsMetadata;
use tuf::metadata::TimestampMetadata;
use tuf::path::MetadataPath;
use tuf::table::Content;
use tuf::table::Group;
use tuf::table::Table;
use tuf::time::Instant;
use tuf::tuf::Tuf;

struct TestKey {
    pair: Ed25519KeyPair,
    public: PublicKey,
}

fn key(n: u8) -> TestKey {
    let seed = [n; 32];
    let pair = Ed25519KeyPair::from_seed_unchecked(&seed).unwrap();
    let public =
        PublicKey::from_ed25519(PublicKeyValue::new(pair.public_key().as_ref().to_vec())).unwrap();
    TestKey { pair, public }
}

fn far_future() -> Instant {
    Instant::new(4_102_444_800, 0)
}

fn role_of(key: &TestKey) -> RoleDefinition {
    let mut ids: Group<KeyId> = Group::new();
    ids.insert(key.public.key_id().clone());
    RoleDefinition::new(1, ids).unwrap()
}

fn sign_with(bytes: &[u8], key: &TestKey) -> Signature {
    Signature::new(
        key.public.key_id().clone(),
        SignatureScheme::Ed25519,
        SignatureValue::new(key.pair.sign(bytes).as_ref().to_vec()),
    )
}

fn signed<M: Content + std::fmt::Debug>(metadata: M, key: &TestKey) -> SignedMetadata<M> {
    let canonical = format!("{:?}", metadata).into_bytes();
    let signature = sign_with(&canonical, key);
    SignedMetadata::new(vec![signature], metadata, canonical)
}

fn root(
    version: u32,
    root_key: &TestKey,
    snapshot_key: &TestKey,
    targets_key: &TestKey,
    timestamp_key: &TestKey,
) -> RootMetadata {
    let mut keys: Table<KeyId, PublicKey> = Table::new();
    for k in [root_key, snapshot_key, targets_key, timestamp_key] {
        keys.insert(k.public.key_id().clone(), k.public.clone());
    }
    RootMetadata::new(
        version,
        far_future(),
        keys,
        role_of(root_key),
        role_of(snapshot_key),
        role_of(targets_key),
        role_of(timestamp_key),
    )
    .unwrap()
}

fn describe<M: Content>(version: u32, signed: &SignedMetadata<M>) -> MetadataDescription {
    let bytes = signed.canonical_bytes();
    let digest = ring::digest::digest(&ring::digest::SHA256, bytes);
    let mut hashes: Table<HashAlgorithm, HashValue> = Table::new();
    hashes.insert(HashAlgorithm::Sha256, HashValue::new(digest.as_ref().to_vec()));
    MetadataDescription::new(version, Some(bytes.len() as u64), Some(hashes)).unwrap()
}

fn snapshot(version: u32) -> SnapshotMetadata {
    SnapshotMetadata::new(version, far_future(), Table::new()).unwrap()
}

fn snapshot_listing(version: u32, signed_targets: &SignedMetadata<TargetsMetadata>) -> SnapshotMetadata {
    let mut meta: Table<MetadataPath, MetadataDescription> = Table::new();
    meta.insert(
        MetadataPath::from_role(&Role::Targets),
        describe(signed_targets.assume_valid().version(), signed_targets),
    );
    SnapshotMetadata::new(version, far_future(), meta).unwrap()
}

fn timestamp_from(signed_snapshot: &SignedMetadata<SnapshotMetadata>) -> TimestampMetadata {
    TimestampMetadata::new(
        1,
        far_future(),
        describe(signed_snapshot.assume_valid().version(), signed_snapshot),
    )
    .unwrap()
}

fn targets(version: u32) -> TargetsMetadata {
    TargetsMetadata::new(version, far_future(), Table::new(), None).unwrap()
}

#[test]
fn root_trusted_keys_success() {
    let root_key = key(0);
    let root = signed(root(1, &root_key, &root_key, &root_key, &root_key), &root_key);

    assert!(matches!(
        Tuf::from_root_with_trusted_keys(root, 1, &[root_key.public.clone()]),
        Ok(_)
    ));
}

#[test]
fn root_trusted_keys_failure() {
    let k0 = key(0);
    let k1 = key(1);
    let root = signed(root(1, &k0, &k0, &k0, &k0), &k0);

    assert!(matches!(
        Tuf::from_root_with_trusted_keys(root, 1, &[k1.public.clone()]),
        Err(Error::VerificationFailure(s)) if s == "Signature threshold not met: 0/1"
    ));
}

#[test]
fn good_root_rotation() {
    let k0 = key(0);
    let k1 = key(1);
    let root_v1 = signed(root(1, &k0, &k0, &k0, &k0), &k0);

    let mut tuf = Tuf::from_trusted_root(root_v1).unwrap();

    let mut root_v2 = signed(root(2, &k1, &k1, &k1, &k1), &k1);

    // add the first key's signature to make it cross signed
    let cross = sign_with(root_v2.canonical_bytes(), &k0);
    root_v2.add_signature(cross);

    assert_eq!(tuf.update_root(root_v2.clone()), Ok(true));

    // second update should do nothing
    assert_eq!(tuf.update_root(root_v2), Ok(false));
}

#[test]
fn no_cross_sign_root_rotation() {
    let k0 = key(0);
    let k1 = key(1);
    let root_v1 = signed(root(1, &k0, &k0, &k0, &k0), &k0);

    let mut tuf = Tuf::from_trusted_root(root_v1).unwrap();

    let root_v2 = signed(root(1, &k1, &k1, &k1, &k1), &k1);

    assert!(tuf.update_root(root_v2).is_err());
}

#[test]
fn good_timestamp_update() {
    let k0 = key(0);
    let k1 = key(1);
    let root = signed(root(1, &k0, &k1, &k1, &k1), &k0);

    let mut tuf = Tuf::from_trusted_root(root).unwrap();

    let snapshot = signed(snapshot(1), &k1);

    let timestamp = signed(timestamp_from(&snapshot), &k1);
    let parsed_timestamp = timestamp.assume_valid().clone();

    assert_eq!(tuf.update_timestamp(timestamp.clone()), Ok(Some(&parsed_timestamp)));

    // second update should do nothing
    assert_eq!(tuf.update_timestamp(timestamp), Ok(None))
}

#[test]
fn bad_timestamp_update_wrong_key() {
    let k0 = key(0);
    let k1 = key(1);
    let root = signed(root(1, &k0, &k1, &k1, &k1), &k0);

    let mut tuf = Tuf::from_trusted_root(root).unwrap();

    let snapshot = signed(snapshot(1), &k1);

    // sign it with the root key
    let timestamp = signed(timestamp_from(&snapshot), &k0);

    assert!(tuf.update_timestamp(timestamp).is_err())
}

#[test]
fn good_snapshot_update() {
    let k0 = key(0);
    let k1 = key(1);
    let k2 = key(2);
    let root = signed(root(1, &k0, &k1, &k2, &k2), &k0);

    let mut tuf = Tuf::from_trusted_root(root).unwrap();

    let snapshot = signed(snapshot(1), &k1);

    let timestamp = signed(timestamp_from(&snapshot), &k2);

    tuf.update_timestamp(timestamp).unwrap();

    assert_eq!(tuf.update_snapshot(snapshot.clone()), Ok(true));

    // second update should do nothing
    assert_eq!(tuf.update_snapshot(snapshot), Ok(false));
}

#[test]
fn bad_snapshot_update_wrong_key() {
    let k0 = key(0);
    let k1 = key(1);
    let k2 = key(2);
    let root = signed(root(1, &k0, &k1, &k2, &k2), &k0);

    let mut tuf = Tuf::from_trusted_root(root).unwrap();

    // sign it with the targets key
    let snapshot = signed(snapshot(1), &k2);

    let timestamp = signed(timestamp_from(&snapshot), &k2);

    tuf.update_timestamp(timestamp).unwrap();

    assert!(tuf.update_snapshot(snapshot).is_err());
}

#[test]
fn bad_snapshot_update_wrong_version() {
    let k0 = key(0);
    let k1 = key(1);
    let k2 = key(2);
    let root = signed(root(1, &k0, &k1, &k2, &k2), &k0);

    let mut tuf = Tuf::from_trusted_root(root).unwrap();

    let snapshot_v2 = signed(snapshot(2), &k2);

    let timestamp = signed(timestamp_from(&snapshot_v2), &k2);

    tuf.update_timestamp(timestamp).unwrap();

    let snapshot_v1 = signed(snapshot(1), &k1);

    assert!(tuf.update_snapshot(snapshot_v1).is_err());
}

#[test]
fn good_targets_update() {
    let k0 = key(0);
    let k1 = key(1);
    let k2 = key(2);
    let k3 = key(3);
    let root = signed(root(1, &k0, &k1, &k2, &k3), &k0);

    let signed_targets = signed(targets(1), &k2);

    let snapshot = signed(snapshot_listing(1, &signed_targets), &k1);

    let timestamp = signed(timestamp_from(&snapshot), &k3);

    let mut tuf = Tuf::from_trusted_root(root).unwrap();

    tuf.update_timestamp(timestamp).unwrap();
    tuf.update_snapshot(snapshot).unwrap();

    assert_eq!(tuf.update_targets(signed_targets.clone()), Ok(true));

    // second update should do nothing
    assert_eq!(tuf.update_targets(signed_targets), Ok(false));
}

#[test]
fn bad_targets_update_wrong_key() {
    let k0 = key(0);
    let k1 = key(1);
    let k2 = key(2);
    let k3 = key(3);
    let root = signed(root(1, &k0, &k1, &k2, &k3), &k0);

    let mut tuf = Tuf::from_trusted_root(root).unwrap();

    // sign it with the timestamp key
    let signed_targets = signed(targets(1), &k3);

    let snapshot = signed(snapshot_listing(1, &signed_targets), &k1);

    let timestamp = signed(timestamp_from(&snapshot), &k3);

    tuf.update_timestamp(timestamp).unwrap();
    tuf.update_snapshot(snapshot).unwrap();

    assert!(tuf.update_targets(signed_targets).is_err());
}

#[test]
fn bad_targets_update_wrong_version() {
    let k0 = key(0);
    let k1 = key(1);
    let k2 = key(2);
    let k3 = key(3);
    let root = signed(root(1, &k0, &k1, &k2, &k3), &k0);

    let mut tuf = Tuf::from_trusted_root(root).unwrap();

    let signed_targets_v2 = signed(targets(2), &k2);

    let snapshot = signed(snapshot_listing(1, &signed_targets_v2), &k1);

    let timestamp = signed(timestamp_from(&snapshot), &k3);

    tuf.update_timestamp(timestamp).unwrap();
    tuf.update_snapshot(snapshot).unwrap();

    let signed_targets_v1 = signed(targets(1), &k2);

    assert!(tuf.update_targets(signed_targets_v1).is_err());
}
