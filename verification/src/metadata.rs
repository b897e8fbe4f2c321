//! The signed documents of a repository: root, timestamp, snapshot and
//! targets metadata, and the delegations that targets metadata may carry.

use crate::crypto::valid_key;
use crate::crypto::HashAlgorithm;
use crate::crypto::HashValue;
use crate::crypto::KeyId;
use crate::crypto::PublicKey;
use crate::crypto::Signature;
use crate::crypto::SignatureView;
use crate::error::agrees;
use crate::error::Error;
use crate::error::ErrorView;
use crate::path::MetadataPath;
use crate::path::VirtualTargetPath;
use crate::table::Content;
use crate::table::Group;
use crate::table::Label;
use crate::table::Table;
use crate::time::Instant;
use crate::verify::signature_views;
use crate::verify::verify_outcome;
use crate::verify::verify_signatures;
use crate::verify::Keys;
use vstd::prelude::*;

verus! {

/// Every key of the keyring goes under its own ID, and is a valid key.
pub open spec fn valid_keyring(keys: Keys) -> bool {
    forall|id: Seq<u8>| #[trigger]
        keys.contains_key(id) ==> keys[id].key_id == id && valid_key(keys[id])
}

/// Whether every key of `keys` goes under its own ID.
pub fn check_keyring(keys: &Table<KeyId, PublicKey>) -> (r: bool)
    ensures
        r == valid_keyring(keys@),
{
    let n = keys.len();
    let mut i: usize = 0;
    while i < n
        invariant
            i <= n,
            n == keys.order().len(),
            n == keys.values().len(),
            keys@.dom() =~= keys.order().to_set(),
            forall|j: int|
                0 <= j < keys.order().len() ==> #[trigger] keys@[keys.order()[j]]
                    == keys.values()[j],
            forall|j: int|
                0 <= j < i ==> (#[trigger] keys.values()[j]).key_id == keys.order()[j]
                    && valid_key(keys.values()[j]),
        decreases n - i,
    {
        let id = keys.key_at(i);
        let key = keys.value_at(i);
        if !id.same(key.key_id()) {
            proof {
                let k = keys.order()[i as int];
                assert(keys.order().to_set().contains(k));
                assert(keys@[k] == keys.values()[i as int]);
            }
            return false;
        }
        i += 1;
    }
    proof {
        assert forall|id: Seq<u8>| #[trigger] keys@.contains_key(id) implies keys@[id].key_id
            == id && valid_key(keys@[id]) by {
            assert(keys.order().to_set().contains(id));
            let j = keys.order().index_of(id);
            assert(keys.order()[j] == id);
            assert(keys@[keys.order()[j]] == keys.values()[j]);
        }
    }
    true
}

/// Whether every ID of `ids` has a key in `keys`.
pub fn ids_within(ids: &Group<KeyId>, keys: &Table<KeyId, PublicKey>) -> (r: bool)
    ensures
        r == ids@.subset_of(keys@.dom()),
{
    let n = ids.len();
    let mut i: usize = 0;
    while i < n
        invariant
            i <= n,
            n == ids.order().len(),
            ids@ =~= ids.order().to_set(),
            forall|j: int| 0 <= j < i ==> keys@.contains_key(#[trigger] ids.order()[j]),
        decreases n - i,
    {
        if !keys.contains_key(ids.key_at(i)) {
            proof {
                assert(ids.order().to_set().contains(ids.order()[i as int]));
            }
            return false;
        }
        i += 1;
    }
    proof {
        assert forall|id: Seq<u8>| ids@.contains(id) implies keys@.dom().contains(id) by {
            assert(ids.order().to_set().contains(id));
            let j = ids.order().index_of(id);
            assert(ids.order()[j] == id);
        }
    }
    true
}

/// A [`RoleDefinition`] or the signing part of a [`Delegation`], as
/// contracts see it.
pub ghost struct RoleView {
    pub threshold: u32,
    pub key_ids: Set<Seq<u8>>,
}

/// The threshold is at least one and no more than the number of keys.
pub open spec fn valid_role(r: RoleView) -> bool {
    r.key_ids.finite() && 1 <= r.threshold <= r.key_ids.len()
}

/// The keys that may sign for a role, and how many of them must.
#[derive(Debug, PartialEq)]
pub struct RoleDefinition {
    threshold: u32,
    key_ids: Group<KeyId>,
}

impl View for RoleDefinition {
    type V = RoleView;

    closed spec fn view(&self) -> RoleView {
        RoleView { threshold: self.threshold, key_ids: self.key_ids@ }
    }
}

impl Clone for RoleDefinition {
    fn clone(&self) -> (r: Self)
        ensures
            r@ == self@,
    {
        proof {
            use_type_invariant(self);
        }
        RoleDefinition { threshold: self.threshold, key_ids: self.key_ids.clone() }
    }
}

impl RoleDefinition {
    #[verifier::type_invariant]
    closed spec fn inv(&self) -> bool {
        valid_role(self@)
    }

    /// A role definition; the threshold must be at least one and no more
    /// than the number of keys.
    pub fn new(threshold: u32, key_ids: Group<KeyId>) -> (r: Result<RoleDefinition, Error>)
        ensures
            match r {
                Ok(role) => role@ == (RoleView { threshold: threshold, key_ids: key_ids@ })
                    && valid_role(role@),
                Err(e) => !valid_role(RoleView { threshold: threshold, key_ids: key_ids@ })
                    && e@ == ErrorView::IllegalArgument(
                    "Threshold must be at least one and at most the number of keys"@,
                ),
            },
    {
        let n = key_ids.len();
        if threshold < 1 || threshold as usize > n {
            return Err(
                Error::illegal_argument(
                    "Threshold must be at least one and at most the number of keys",
                ),
            );
        }
        Ok(RoleDefinition { threshold, key_ids })
    }

    /// The number of distinct keys that must sign.
    pub fn threshold(&self) -> (r: u32)
        ensures
            r == self@.threshold,
            valid_role(self@),
    {
        proof {
            use_type_invariant(self);
        }
        self.threshold
    }

    /// The IDs of the keys that may sign.
    pub fn key_ids(&self) -> (r: &Group<KeyId>)
        ensures
            r@ == self@.key_ids,
    {
        &self.key_ids
    }
}

/// Hash values by their algorithms.
pub type Hashes = Map<HashAlgorithm, Seq<u8>>;

/// The view of an optional table of hashes.
pub open spec fn optional_hashes(hashes: Option<Table<HashAlgorithm, HashValue>>) -> Option<
    Hashes,
> {
    match hashes {
        Some(h) => Some(h@),
        None => None,
    }
}

/// A [`MetadataDescription`] as contracts see it.
pub ghost struct MetadataDescriptionView {
    pub version: u32,
    pub length: Option<u64>,
    pub hashes: Option<Hashes>,
}

/// What one document says of another: its version, and, where given, its
/// length and hashes.
#[derive(Debug, PartialEq)]
pub struct MetadataDescription {
    version: u32,
    length: Option<u64>,
    hashes: Option<Table<HashAlgorithm, HashValue>>,
}

impl View for MetadataDescription {
    type V = MetadataDescriptionView;

    closed spec fn view(&self) -> MetadataDescriptionView {
        MetadataDescriptionView {
            version: self.version,
            length: self.length,
            hashes: optional_hashes(self.hashes),
        }
    }
}

impl Clone for MetadataDescription {
    fn clone(&self) -> (r: Self)
        ensures
            r@ == self@,
    {
        proof {
            use_type_invariant(self);
        }
        MetadataDescription {
            version: self.version,
            length: self.length,
            hashes: match &self.hashes {
                Some(h) => Some(h.clone()),
                None => None,
            },
        }
    }
}

impl Content for MetadataDescription {
    fn duplicate(&self) -> (r: Self) {
        self.clone()
    }
}

impl MetadataDescription {
    #[verifier::type_invariant]
    closed spec fn inv(&self) -> bool {
        self.version >= 1
    }

    /// A description; the version must be at least one.
    pub fn new(
        version: u32,
        length: Option<u64>,
        hashes: Option<Table<HashAlgorithm, HashValue>>,
    ) -> (r: Result<MetadataDescription, Error>)
        ensures
            match r {
                Ok(d) => version >= 1 && d@ == (MetadataDescriptionView {
                    version: version,
                    length: length,
                    hashes: optional_hashes(hashes),
                }),
                Err(e) => version < 1 && e@ == ErrorView::IllegalArgument(version_text()),
            },
    {
        if version < 1 {
            return Err(Error::illegal_argument("Metadata version must be greater than zero"));
        }
        Ok(MetadataDescription { version, length, hashes })
    }

    /// The version of the described document, which is at least one.
    pub fn version(&self) -> (r: u32)
        ensures
            r == self@.version,
            r >= 1,
    {
        proof {
            use_type_invariant(self);
        }
        self.version
    }

    /// The length of the described document, where it is given.
    pub fn length(&self) -> (r: Option<u64>)
        ensures
            r == self@.length,
    {
        self.length
    }

    /// The hashes of the described document, where they are given.
    pub fn hashes(&self) -> (r: Option<&Table<HashAlgorithm, HashValue>>)
        ensures
            match r {
                Some(h) => self@.hashes == Some(h@),
                None => self@.hashes is None,
            },
    {
        self.hashes.as_ref()
    }
}

/// What the error says when a document's version is zero.
pub open spec fn version_text() -> Seq<char> {
    "Metadata version must be greater than zero"@
}

/// A [`TargetDescription`] as contracts see it.
pub ghost struct TargetDescriptionView {
    pub length: u64,
    pub hashes: Hashes,
    pub custom: Option<Seq<char>>,
}

/// What targets metadata says of a target file: its length, its hashes, and
/// whatever else the repository chose to add.
#[derive(Debug, PartialEq)]
pub struct TargetDescription {
    length: u64,
    hashes: Table<HashAlgorithm, HashValue>,
    custom: Option<String>,
}

impl View for TargetDescription {
    type V = TargetDescriptionView;

    closed spec fn view(&self) -> TargetDescriptionView {
        TargetDescriptionView {
            length: self.length,
            hashes: self.hashes@,
            custom: match self.custom {
                Some(s) => Some(s@),
                None => None,
            },
        }
    }
}

impl Clone for TargetDescription {
    fn clone(&self) -> (r: Self)
        ensures
            r@ == self@,
    {
        TargetDescription {
            length: self.length,
            hashes: self.hashes.clone(),
            custom: match &self.custom {
                Some(s) => Some(s.clone()),
                None => None,
            },
        }
    }
}

impl Content for TargetDescription {
    fn duplicate(&self) -> (r: Self) {
        self.clone()
    }
}

impl TargetDescription {
    /// A description of a target file.
    pub fn new(
        length: u64,
        hashes: Table<HashAlgorithm, HashValue>,
        custom: Option<String>,
    ) -> (r: TargetDescription)
        ensures
            r@ == (TargetDescriptionView {
                length: length,
                hashes: hashes@,
                custom: match custom {
                    Some(s) => Some(s@),
                    None => None,
                },
            }),
    {
        TargetDescription { length, hashes, custom }
    }

    /// The length of the target file.
    pub fn length(&self) -> (r: u64)
        ensures
            r == self@.length,
    {
        self.length
    }

    /// The hashes of the target file.
    pub fn hashes(&self) -> (r: &Table<HashAlgorithm, HashValue>)
        ensures
            r@ == self@.hashes,
    {
        &self.hashes
    }

    /// What else the repository says of the target file.
    pub fn custom(&self) -> (r: Option<&String>)
        ensures
            match r {
                Some(s) => self@.custom == Some(s@),
                None => self@.custom is None,
            },
    {
        self.custom.as_ref()
    }
}

/// A [`RootMetadata`] as contracts see it.
pub ghost struct RootView {
    pub version: u32,
    pub expires: Instant,
    pub keys: Keys,
    pub root: RoleView,
    pub snapshot: RoleView,
    pub targets: RoleView,
    pub timestamp: RoleView,
}

/// The role is valid and every key it names is in `keys`.
pub open spec fn role_within(role: RoleView, keys: Keys) -> bool {
    valid_role(role) && role.key_ids.subset_of(keys.dom())
}

/// What holds of every root document: its version is at least one, its keys
/// go under their own IDs, and its four roles name keys that it holds, with
/// thresholds that those keys can meet.
pub open spec fn valid_root(v: RootView) -> bool {
    &&& v.version >= 1
    &&& valid_keyring(v.keys)
    &&& role_within(v.root, v.keys)
    &&& role_within(v.snapshot, v.keys)
    &&& role_within(v.targets, v.keys)
    &&& role_within(v.timestamp, v.keys)
}

/// What the error says when the parts given do not make a root document.
pub open spec fn root_defect(v: RootView) -> Seq<char> {
    if v.version < 1 {
        version_text()
    } else if !valid_keyring(v.keys) {
        keyring_text()
    } else {
        role_keys_text()
    }
}

/// What the error says when a key goes under an ID that is not its own.
pub open spec fn keyring_text() -> Seq<char> {
    "A key is not filed under its own ID"@
}

/// What the error says when a role names a key that the document lacks.
pub open spec fn role_keys_text() -> Seq<char> {
    "A role names a key that the metadata does not hold"@
}

/// Metadata for the root role: the keys of the repository and the roles
/// that they sign for.
#[derive(Debug, PartialEq)]
pub struct RootMetadata {
    version: u32,
    expires: Instant,
    keys: Table<KeyId, PublicKey>,
    root: RoleDefinition,
    snapshot: RoleDefinition,
    targets: RoleDefinition,
    timestamp: RoleDefinition,
}

impl View for RootMetadata {
    type V = RootView;

    closed spec fn view(&self) -> RootView {
        RootView {
            version: self.version,
            expires: self.expires,
            keys: self.keys@,
            root: self.root@,
            snapshot: self.snapshot@,
            targets: self.targets@,
            timestamp: self.timestamp@,
        }
    }
}

impl Clone for RootMetadata {
    fn clone(&self) -> (r: Self)
        ensures
            r@ == self@,
    {
        proof {
            use_type_invariant(self);
        }
        RootMetadata {
            version: self.version,
            expires: self.expires,
            keys: self.keys.clone(),
            root: self.root.clone(),
            snapshot: self.snapshot.clone(),
            targets: self.targets.clone(),
            timestamp: self.timestamp.clone(),
        }
    }
}

impl Content for RootMetadata {
    fn duplicate(&self) -> (r: Self) {
        self.clone()
    }
}

impl RootMetadata {
    #[verifier::type_invariant]
    closed spec fn inv(&self) -> bool {
        valid_root(self@)
    }

    /// A root document of the given parts, which must meet [`valid_root`].
    pub fn new(
        version: u32,
        expires: Instant,
        keys: Table<KeyId, PublicKey>,
        root: RoleDefinition,
        snapshot: RoleDefinition,
        targets: RoleDefinition,
        timestamp: RoleDefinition,
    ) -> (r: Result<RootMetadata, Error>)
        ensures
            ({
                let v = RootView {
                    version: version,
                    expires: expires,
                    keys: keys@,
                    root: root@,
                    snapshot: snapshot@,
                    targets: targets@,
                    timestamp: timestamp@,
                };
                match r {
                    Ok(m) => valid_root(v) && m@ == v,
                    Err(e) => !valid_root(v) && e@ == ErrorView::IllegalArgument(root_defect(v)),
                }
            }),
    {
        if version < 1 {
            return Err(Error::illegal_argument("Metadata version must be greater than zero"));
        }
        if !check_keyring(&keys) {
            return Err(Error::illegal_argument("A key is not filed under its own ID"));
        }
        let _ = root.threshold();
        let _ = snapshot.threshold();
        let _ = targets.threshold();
        let _ = timestamp.threshold();
        if !(ids_within(root.key_ids(), &keys) && ids_within(snapshot.key_ids(), &keys)
            && ids_within(targets.key_ids(), &keys) && ids_within(timestamp.key_ids(), &keys)) {
            return Err(
                Error::illegal_argument("A role names a key that the metadata does not hold"),
            );
        }
        Ok(RootMetadata { version, expires, keys, root, snapshot, targets, timestamp })
    }

    /// The version number, which is at least one.
    pub fn version(&self) -> (r: u32)
        ensures
            r == self@.version,
            valid_root(self@),
    {
        proof {
            use_type_invariant(self);
        }
        self.version
    }

    /// When the document expires.
    pub fn expires(&self) -> (r: &Instant)
        ensures
            *r == self@.expires,
    {
        &self.expires
    }

    /// The keys of the repository, by their IDs.
    pub fn keys(&self) -> (r: &Table<KeyId, PublicKey>)
        ensures
            r@ == self@.keys,
    {
        &self.keys
    }

    /// The definition of the root role.
    pub fn root(&self) -> (r: &RoleDefinition)
        ensures
            r@ == self@.root,
    {
        &self.root
    }

    /// The definition of the snapshot role.
    pub fn snapshot(&self) -> (r: &RoleDefinition)
        ensures
            r@ == self@.snapshot,
    {
        &self.snapshot
    }

    /// The definition of the targets role.
    pub fn targets(&self) -> (r: &RoleDefinition)
        ensures
            r@ == self@.targets,
    {
        &self.targets
    }

    /// The definition of the timestamp role.
    pub fn timestamp(&self) -> (r: &RoleDefinition)
        ensures
            r@ == self@.timestamp,
    {
        &self.timestamp
    }
}

/// A [`TimestampMetadata`] as contracts see it.
pub ghost struct TimestampView {
    pub version: u32,
    pub expires: Instant,
    pub snapshot: MetadataDescriptionView,
}

/// Metadata for the timestamp role: which snapshot is the current one.
#[derive(Debug, PartialEq)]
pub struct TimestampMetadata {
    version: u32,
    expires: Instant,
    snapshot: MetadataDescription,
}

impl View for TimestampMetadata {
    type V = TimestampView;

    closed spec fn view(&self) -> TimestampView {
        TimestampView { version: self.version, expires: self.expires, snapshot: self.snapshot@ }
    }
}

impl Clone for TimestampMetadata {
    fn clone(&self) -> (r: Self)
        ensures
            r@ == self@,
    {
        proof {
            use_type_invariant(self);
        }
        TimestampMetadata {
            version: self.version,
            expires: self.expires,
            snapshot: self.snapshot.clone(),
        }
    }
}

impl Content for TimestampMetadata {
    fn duplicate(&self) -> (r: Self) {
        self.clone()
    }
}

impl TimestampMetadata {
    #[verifier::type_invariant]
    closed spec fn inv(&self) -> bool {
        self.version >= 1
    }

    /// A timestamp document; the version must be at least one.
    pub fn new(version: u32, expires: Instant, snapshot: MetadataDescription) -> (r: Result<
        TimestampMetadata,
        Error,
    >)
        ensures
            match r {
                Ok(m) => version >= 1 && m@ == (TimestampView {
                    version: version,
                    expires: expires,
                    snapshot: snapshot@,
                }),
                Err(e) => version < 1 && e@ == ErrorView::IllegalArgument(version_text()),
            },
    {
        if version < 1 {
            return Err(Error::illegal_argument("Metadata version must be greater than zero"));
        }
        Ok(TimestampMetadata { version, expires, snapshot })
    }

    /// The version number, which is at least one.
    pub fn version(&self) -> (r: u32)
        ensures
            r == self@.version,
            r >= 1,
    {
        proof {
            use_type_invariant(self);
        }
        self.version
    }

    /// When the document expires.
    pub fn expires(&self) -> (r: &Instant)
        ensures
            *r == self@.expires,
    {
        &self.expires
    }

    /// What the document says of the current snapshot.
    pub fn snapshot(&self) -> (r: &MetadataDescription)
        ensures
            r@ == self@.snapshot,
            r@.version >= 1,
    {
        let _ = self.snapshot.version();
        &self.snapshot
    }
}

/// A [`SnapshotMetadata`] as contracts see it.
pub ghost struct SnapshotView {
    pub version: u32,
    pub expires: Instant,
    pub meta: Map<Seq<char>, MetadataDescriptionView>,
}

/// Metadata for the snapshot role: the versions of the targets metadata and
/// of the delegated roles.
#[derive(Debug, PartialEq)]
pub struct SnapshotMetadata {
    version: u32,
    expires: Instant,
    meta: Table<MetadataPath, MetadataDescription>,
}

impl View for SnapshotMetadata {
    type V = SnapshotView;

    closed spec fn view(&self) -> SnapshotView {
        SnapshotView { version: self.version, expires: self.expires, meta: self.meta@ }
    }
}

impl Clone for SnapshotMetadata {
    fn clone(&self) -> (r: Self)
        ensures
            r@ == self@,
    {
        proof {
            use_type_invariant(self);
        }
        SnapshotMetadata {
            version: self.version,
            expires: self.expires,
            meta: self.meta.clone(),
        }
    }
}

impl Content for SnapshotMetadata {
    fn duplicate(&self) -> (r: Self) {
        self.clone()
    }
}

impl SnapshotMetadata {
    #[verifier::type_invariant]
    closed spec fn inv(&self) -> bool {
        self.version >= 1
    }

    /// A snapshot document; the version must be at least one.
    pub fn new(
        version: u32,
        expires: Instant,
        meta: Table<MetadataPath, MetadataDescription>,
    ) -> (r: Result<SnapshotMetadata, Error>)
        ensures
            match r {
                Ok(m) => version >= 1 && m@ == (SnapshotView {
                    version: version,
                    expires: expires,
                    meta: meta@,
                }),
                Err(e) => version < 1 && e@ == ErrorView::IllegalArgument(version_text()),
            },
    {
        if version < 1 {
            return Err(Error::illegal_argument("Metadata version must be greater than zero"));
        }
        Ok(SnapshotMetadata { version, expires, meta })
    }

    /// The version number, which is at least one.
    pub fn version(&self) -> (r: u32)
        ensures
            r == self@.version,
            r >= 1,
    {
        proof {
            use_type_invariant(self);
        }
        self.version
    }

    /// When the document expires.
    pub fn expires(&self) -> (r: &Instant)
        ensures
            *r == self@.expires,
    {
        &self.expires
    }

    /// What the document says of each role's metadata.
    pub fn meta(&self) -> (r: &Table<MetadataPath, MetadataDescription>)
        ensures
            r@ == self@.meta,
    {
        &self.meta
    }
}

/// A [`Delegation`] as contracts see it.
pub ghost struct DelegationView {
    pub role: Seq<char>,
    pub terminating: bool,
    pub threshold: u32,
    pub key_ids: Set<Seq<u8>>,
    pub paths: Set<Seq<char>>,
}

impl DelegationView {
    /// Who signs for the delegated role.
    pub open spec fn signers(self) -> RoleView {
        RoleView { threshold: self.threshold, key_ids: self.key_ids }
    }
}

/// The handing over of some targets to another role.
#[derive(Debug, PartialEq)]
pub struct Delegation {
    role: MetadataPath,
    terminating: bool,
    threshold: u32,
    key_ids: Group<KeyId>,
    paths: Group<VirtualTargetPath>,
}

impl View for Delegation {
    type V = DelegationView;

    closed spec fn view(&self) -> DelegationView {
        DelegationView {
            role: self.role@,
            terminating: self.terminating,
            threshold: self.threshold,
            key_ids: self.key_ids@,
            paths: self.paths@,
        }
    }
}

impl Clone for Delegation {
    fn clone(&self) -> (r: Self)
        ensures
            r@ == self@,
    {
        proof {
            use_type_invariant(self);
        }
        Delegation {
            role: self.role.clone(),
            terminating: self.terminating,
            threshold: self.threshold,
            key_ids: self.key_ids.clone(),
            paths: self.paths.clone(),
        }
    }
}

impl Delegation {
    #[verifier::type_invariant]
    closed spec fn inv(&self) -> bool {
        valid_role(self@.signers())
    }

    /// A delegation; the threshold must be at least one and no more than the
    /// number of keys.
    pub fn new(
        role: MetadataPath,
        terminating: bool,
        threshold: u32,
        key_ids: Group<KeyId>,
        paths: Group<VirtualTargetPath>,
    ) -> (r: Result<Delegation, Error>)
        ensures
            ({
                let v = DelegationView {
                    role: role@,
                    terminating: terminating,
                    threshold: threshold,
                    key_ids: key_ids@,
                    paths: paths@,
                };
                match r {
                    Ok(d) => valid_role(v.signers()) && d@ == v,
                    Err(e) => !valid_role(v.signers()) && e@ == ErrorView::IllegalArgument(
                        "Threshold must be at least one and at most the number of keys"@,
                    ),
                }
            }),
    {
        let n = key_ids.len();
        if threshold < 1 || threshold as usize > n {
            return Err(
                Error::illegal_argument(
                    "Threshold must be at least one and at most the number of keys",
                ),
            );
        }
        Ok(Delegation { role, terminating, threshold, key_ids, paths })
    }

    /// The role that the targets are handed to.
    pub fn role(&self) -> (r: &MetadataPath)
        ensures
            r@ == self@.role,
    {
        &self.role
    }

    /// Whether a search that finds nothing under this delegation ends there.
    pub fn terminating(&self) -> (r: bool)
        ensures
            r == self@.terminating,
    {
        self.terminating
    }

    /// The number of distinct keys that must sign.
    pub fn threshold(&self) -> (r: u32)
        ensures
            r == self@.threshold,
            valid_role(self@.signers()),
    {
        proof {
            use_type_invariant(self);
        }
        self.threshold
    }

    /// The IDs of the keys that may sign.
    pub fn key_ids(&self) -> (r: &Group<KeyId>)
        ensures
            r@ == self@.key_ids,
    {
        &self.key_ids
    }

    /// The patterns of the targets that are handed over.
    pub fn paths(&self) -> (r: &Group<VirtualTargetPath>)
        ensures
            r@ == self@.paths,
    {
        &self.paths
    }
}

/// The views of the delegations of `s`, in order.
pub open spec fn delegation_views(s: Seq<Delegation>) -> Seq<DelegationView> {
    Seq::new(s.len(), |i: int| s[i]@)
}

/// A [`Delegations`] as contracts see it.
pub ghost struct DelegationsView {
    pub keys: Keys,
    pub roles: Seq<DelegationView>,
}

/// The delegations of a targets document: the keys of the delegated roles,
/// and the delegations in the order in which they are searched.
#[derive(Debug, PartialEq)]
pub struct Delegations {
    keys: Table<KeyId, PublicKey>,
    roles: Vec<Delegation>,
}

impl View for Delegations {
    type V = DelegationsView;

    closed spec fn view(&self) -> DelegationsView {
        DelegationsView { keys: self.keys@, roles: delegation_views(self.roles@) }
    }
}

impl Clone for Delegations {
    fn clone(&self) -> (r: Self)
        ensures
            r@ == self@,
    {
        proof {
            use_type_invariant(self);
        }
        let mut roles: Vec<Delegation> = Vec::new();
        let mut i: usize = 0;
        while i < self.roles.len()
            invariant
                i <= self.roles@.len(),
                roles@.len() == i,
                forall|j: int| 0 <= j < i ==> roles@[j]@ == self.roles@[j]@,
            decreases self.roles@.len() - i,
        {
            roles.push(self.roles[i].clone());
            i += 1;
        }
        assert(delegation_views(roles@) =~= delegation_views(self.roles@));
        Delegations { keys: self.keys.clone(), roles }
    }
}

impl Delegations {
    #[verifier::type_invariant]
    closed spec fn inv(&self) -> bool {
        valid_keyring(self.keys@)
    }

    /// Delegations of the given parts; every key must go under its own ID.
    pub fn new(keys: Table<KeyId, PublicKey>, roles: Vec<Delegation>) -> (r: Result<
        Delegations,
        Error,
    >)
        ensures
            match r {
                Ok(d) => valid_keyring(keys@) && d@ == (DelegationsView {
                    keys: keys@,
                    roles: delegation_views(roles@),
                }),
                Err(e) => !valid_keyring(keys@) && e@ == ErrorView::IllegalArgument(
                    keyring_text(),
                ),
            },
    {
        if !check_keyring(&keys) {
            return Err(Error::illegal_argument("A key is not filed under its own ID"));
        }
        Ok(Delegations { keys, roles })
    }

    /// The keys of the delegated roles, by their IDs.
    pub fn keys(&self) -> (r: &Table<KeyId, PublicKey>)
        ensures
            r@ == self@.keys,
            valid_keyring(self@.keys),
    {
        proof {
            use_type_invariant(self);
        }
        &self.keys
    }

    /// The delegations, in the order in which they are searched.
    pub fn roles(&self) -> (r: &Vec<Delegation>)
        ensures
            delegation_views(r@) == self@.roles,
    {
        &self.roles
    }
}

/// A [`TargetsMetadata`] as contracts see it.
pub ghost struct TargetsView {
    pub version: u32,
    pub expires: Instant,
    pub targets: Map<Seq<char>, TargetDescriptionView>,
    pub delegations: Option<DelegationsView>,
}

/// Metadata for the targets role or for a delegated role: the targets it
/// vouches for, and the roles it hands others to.
#[derive(Debug, PartialEq)]
pub struct TargetsMetadata {
    version: u32,
    expires: Instant,
    targets: Table<VirtualTargetPath, TargetDescription>,
    delegations: Option<Delegations>,
}

impl View for TargetsMetadata {
    type V = TargetsView;

    closed spec fn view(&self) -> TargetsView {
        TargetsView {
            version: self.version,
            expires: self.expires,
            targets: self.targets@,
            delegations: match self.delegations {
                Some(d) => Some(d@),
                None => None,
            },
        }
    }
}

impl Clone for TargetsMetadata {
    fn clone(&self) -> (r: Self)
        ensures
            r@ == self@,
    {
        proof {
            use_type_invariant(self);
        }
        TargetsMetadata {
            version: self.version,
            expires: self.expires,
            targets: self.targets.clone(),
            delegations: match &self.delegations {
                Some(d) => Some(d.clone()),
                None => None,
            },
        }
    }
}

impl Content for TargetsMetadata {
    fn duplicate(&self) -> (r: Self) {
        self.clone()
    }
}

impl TargetsMetadata {
    #[verifier::type_invariant]
    closed spec fn inv(&self) -> bool {
        self.version >= 1
    }

    /// A targets document; the version must be at least one.
    pub fn new(
        version: u32,
        expires: Instant,
        targets: Table<VirtualTargetPath, TargetDescription>,
        delegations: Option<Delegations>,
    ) -> (r: Result<TargetsMetadata, Error>)
        ensures
            match r {
                Ok(m) => version >= 1 && m@ == (TargetsView {
                    version: version,
                    expires: expires,
                    targets: targets@,
                    delegations: match delegations {
                        Some(d) => Some(d@),
                        None => None,
                    },
                }),
                Err(e) => version < 1 && e@ == ErrorView::IllegalArgument(version_text()),
            },
    {
        if version < 1 {
            return Err(Error::illegal_argument("Metadata version must be greater than zero"));
        }
        Ok(TargetsMetadata { version, expires, targets, delegations })
    }

    /// The version number, which is at least one.
    pub fn version(&self) -> (r: u32)
        ensures
            r == self@.version,
            r >= 1,
    {
        proof {
            use_type_invariant(self);
        }
        self.version
    }

    /// When the document expires.
    pub fn expires(&self) -> (r: &Instant)
        ensures
            *r == self@.expires,
    {
        &self.expires
    }

    /// The targets that the document vouches for, by their paths.
    pub fn targets(&self) -> (r: &Table<VirtualTargetPath, TargetDescription>)
        ensures
            r@ == self@.targets,
    {
        &self.targets
    }

    /// The delegations of the document, if it has any.
    pub fn delegations(&self) -> (r: Option<&Delegations>)
        ensures
            match r {
                Some(d) => self@.delegations == Some(d@),
                None => self@.delegations is None,
            },
    {
        self.delegations.as_ref()
    }
}

/// A [`SignedMetadata`] as contracts see it.
pub ghost struct SignedView<T> {
    pub signatures: Seq<SignatureView>,
    pub metadata: T,
    pub canonical: Seq<u8>,
}

/// A document together with its signatures and with the canonical bytes
/// that the signatures were made over.
#[derive(Debug, PartialEq)]
pub struct SignedMetadata<M: Content> {
    signatures: Vec<Signature>,
    metadata: M,
    canonical: Vec<u8>,
}

impl<M: Content> View for SignedMetadata<M> {
    type V = SignedView<M::V>;

    closed spec fn view(&self) -> SignedView<M::V> {
        SignedView {
            signatures: signature_views(self.signatures@),
            metadata: self.metadata@,
            canonical: self.canonical@,
        }
    }
}

impl<M: Content> Clone for SignedMetadata<M> {
    fn clone(&self) -> (r: Self)
        ensures
            r@ == self@,
    {
        let mut signatures: Vec<Signature> = Vec::new();
        let mut i: usize = 0;
        while i < self.signatures.len()
            invariant
                i <= self.signatures@.len(),
                signatures@.len() == i,
                forall|j: int| 0 <= j < i ==> signatures@[j]@ == self.signatures@[j]@,
            decreases self.signatures@.len() - i,
        {
            signatures.push(self.signatures[i].clone());
            i += 1;
        }
        assert(signature_views(signatures@) =~= signature_views(self.signatures@));
        SignedMetadata {
            signatures,
            metadata: self.metadata.duplicate(),
            canonical: vstd::slice::slice_to_vec(self.canonical.as_slice()),
        }
    }
}

impl<M: Content> SignedMetadata<M> {
    /// A document with the signatures that were made over `canonical`, the
    /// canonical form of the document.
    pub fn new(signatures: Vec<Signature>, metadata: M, canonical: Vec<u8>) -> (r: Self)
        ensures
            r@ == (SignedView {
                signatures: signature_views(signatures@),
                metadata: metadata@,
                canonical: canonical@,
            }),
    {
        SignedMetadata { signatures, metadata, canonical }
    }

    /// Appends a signature.
    pub fn add_signature(&mut self, signature: Signature)
        ensures
            final(self)@ == (SignedView {
                signatures: old(self)@.signatures.push(signature@),
                ..old(self)@
            }),
    {
        self.signatures.push(signature);
        assert(signature_views(self.signatures@) =~= signature_views(old(self).signatures@).push(
            signature@,
        ));
    }

    /// The signatures, in order.
    pub fn signatures(&self) -> (r: &Vec<Signature>)
        ensures
            signature_views(r@) == self@.signatures,
    {
        &self.signatures
    }

    /// The bytes that the signatures were made over.
    pub fn canonical_bytes(&self) -> (r: &[u8])
        ensures
            r@ == self@.canonical,
    {
        self.canonical.as_slice()
    }

    /// The document, whether or not its signatures verify.
    pub fn assume_valid(&self) -> (r: &M)
        ensures
            r@ == self@.metadata,
    {
        &self.metadata
    }

    /// The document, taken out of its envelope.
    pub fn into_metadata(self) -> (r: M)
        ensures
            r@ == self@.metadata,
    {
        self.metadata
    }

    /// Checks that at least `threshold` distinct keys of `keys` have signed
    /// the document.
    pub fn verify(&self, threshold: u32, keys: &Table<KeyId, PublicKey>) -> (r: Result<(), Error>)
        ensures
            agrees(r, verify_outcome(self@.signatures, keys@, self@.canonical, threshold)),
    {
        verify_signatures(&self.signatures, self.canonical.as_slice(), threshold, keys, None)
    }

    /// Checks that at least `threshold` distinct keys have signed the
    /// document, among those keys of `keys` whose ID is in `allowed`.
    pub fn verify_among(
        &self,
        threshold: u32,
        keys: &Table<KeyId, PublicKey>,
        allowed: &Group<KeyId>,
    ) -> (r: Result<(), Error>)
        ensures
            agrees(
                r,
                verify_outcome(
                    self@.signatures,
                    keys@.restrict(allowed@),
                    self@.canonical,
                    threshold,
                ),
            ),
    {
        verify_signatures(
            &self.signatures,
            self.canonical.as_slice(),
            threshold,
            keys,
            Some(allowed),
        )
    }
}

} // verus!
