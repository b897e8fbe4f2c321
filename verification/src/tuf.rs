//! Components needed to verify TUF metadata and targets.

use crate::crypto::KeyId;
use crate::crypto::PublicKey;
use crate::crypto::PublicKeyView;
use crate::error::agrees;
use crate::error::Error;
use crate::error::ErrorView;
use crate::error::Role;
use crate::messages::mismatch_error;
use crate::messages::mismatch_text;
use crate::messages::rollback_error;
use crate::messages::rollback_text;
use crate::messages::delegation_mismatch_error;
use crate::messages::delegation_mismatch_text;
use crate::messages::no_targets_text;
use crate::messages::not_authorized_text;
use crate::messages::stale_listing_error;
use crate::messages::stale_listing_text;
use crate::messages::unknown_role_error;
use crate::messages::unknown_role_text;
use crate::messages::unlisted_error;
use crate::messages::unlisted_text;
use crate::metadata::delegation_views;
use crate::metadata::Delegation;
use crate::metadata::DelegationView;
use crate::metadata::Delegations;
use crate::metadata::MetadataDescriptionView;
use crate::metadata::RoleView;
use crate::metadata::TargetDescription;
use crate::metadata::TargetDescriptionView;
use crate::path::chain_admits;
use crate::path::chain_view;
use crate::path::VirtualTargetPath;
use crate::table::Group;
use crate::metadata::RootMetadata;
use crate::metadata::RootView;
use crate::metadata::SignedMetadata;
use crate::metadata::SignedView;
use crate::metadata::SnapshotMetadata;
use crate::metadata::SnapshotView;
use crate::metadata::TargetsMetadata;
use crate::metadata::TargetsView;
use crate::metadata::TimestampMetadata;
use crate::metadata::TimestampView;
use crate::path::MetadataPath;
use crate::table::Label;
use crate::table::Table;
use crate::time::now;
use crate::time::Instant;
use crate::verify::verify_outcome;
use crate::verify::Keys;
use vstd::prelude::*;

verus! {

/// A [`Tuf`] as contracts see it: the trusted root, and the other documents
/// as far as they have been installed.
pub ghost struct TufView {
    pub root: RootView,
    pub snapshot: Option<SnapshotView>,
    pub targets: Option<TargetsView>,
    pub timestamp: Option<TimestampView>,
    pub delegations: Map<Seq<char>, TargetsView>,
}

impl TufView {
    /// The state that trusts `root` and nothing else yet.
    pub open spec fn fresh(root: RootView) -> TufView {
        TufView {
            root: root,
            snapshot: None,
            targets: None,
            timestamp: None,
            delegations: Map::empty(),
        }
    }

    /// The version of the installed timestamp, or zero.
    pub open spec fn timestamp_version(self) -> u32 {
        match self.timestamp {
            Some(t) => t.version,
            None => 0,
        }
    }

    /// The version of the installed snapshot, or zero.
    pub open spec fn snapshot_version(self) -> u32 {
        match self.snapshot {
            Some(s) => s.version,
            None => 0,
        }
    }

    /// The version of the installed targets metadata, or zero.
    pub open spec fn targets_version(self) -> u32 {
        match self.targets {
            Some(t) => t.version,
            None => 0,
        }
    }

    /// The version of the installed metadata of the delegated role, or zero.
    pub open spec fn delegation_version(self, role: Seq<char>) -> u32 {
        if self.delegations.contains_key(role) {
            self.delegations[role].version
        } else {
            0
        }
    }
}

/// What holds of every state of the engine: the installed snapshot is the
/// one that the installed timestamp names, and the installed targets
/// metadata has the version that the installed snapshot lists.
pub open spec fn coherent(s: TufView) -> bool {
    &&& s.snapshot is Some ==> s.timestamp is Some && s.timestamp->0.snapshot.version
        == s.snapshot->0.version
    &&& s.snapshot is Some && s.targets is Some ==> listed_targets_version(s.snapshot->0)
        == s.targets->0.version
}

/// The keys of `keys`, each under its own ID; of two keys with one ID the
/// later one stays.
pub open spec fn keyring(keys: Seq<PublicKeyView>) -> Keys
    decreases keys.len(),
{
    if keys.len() == 0 {
        Map::empty()
    } else {
        keyring(keys.drop_last()).insert(keys.last().key_id, keys.last())
    }
}

/// The views of the keys of `s`, in order.
pub open spec fn public_key_views(s: Seq<PublicKey>) -> Seq<PublicKeyView> {
    Seq::new(s.len(), |i: int| s[i]@)
}

/// What the threshold check says of `doc` for a role of a root document:
/// the role's keys among `keys` must meet the role's threshold.
pub open spec fn signed_by_role<T>(doc: SignedView<T>, keys: Keys, role: RoleView) -> Result<
    (),
    ErrorView,
> {
    verify_outcome(doc.signatures, keys.restrict(role.key_ids), doc.canonical, role.threshold)
}

/// What comes of trusting a root document on first use: the document must be
/// signed as its own root role asks.
pub open spec fn trusted_root_outcome(doc: SignedView<RootView>) -> Result<TufView, ErrorView> {
    match signed_by_role(doc, doc.metadata.keys, doc.metadata.root) {
        Ok(_) => Ok(TufView::fresh(doc.metadata)),
        Err(e) => Err(e),
    }
}

/// What comes of trusting a root document on the word of given keys: at
/// least `threshold` of them must have signed it, and it must be signed as
/// its own root role asks.
pub open spec fn trusted_keys_outcome(
    doc: SignedView<RootView>,
    threshold: u32,
    keys: Seq<PublicKeyView>,
) -> Result<TufView, ErrorView> {
    match verify_outcome(doc.signatures, keyring(keys), doc.canonical, threshold) {
        Ok(_) => trusted_root_outcome(doc),
        Err(e) => Err(e),
    }
}

/// The state after `doc` is offered as the next root, and what the caller
/// is told. The outgoing root's root role must have signed the document; an
/// equal version changes nothing; a lower version is a rollback; and the
/// document must be signed as its own root role asks. A new root leaves
/// nothing else installed.
pub open spec fn update_root_outcome(s: TufView, doc: SignedView<RootView>) -> (
    TufView,
    Result<bool, ErrorView>,
) {
    let new = doc.metadata;
    match signed_by_role(doc, s.root.keys, s.root.root) {
        Err(e) => (s, Err(e)),
        Ok(_) => if new.version == s.root.version {
            (s, Ok(false))
        } else if new.version < s.root.version {
            (
                s,
                Err(
                    ErrorView::VerificationFailure(
                        rollback_text("root"@, s.root.version, new.version),
                    ),
                ),
            )
        } else {
            match signed_by_role(doc, new.keys, new.root) {
                Err(e) => (s, Err(e)),
                Ok(_) => (TufView::fresh(new), Ok(true)),
            }
        },
    }
}

/// The state after `doc` is offered as the next timestamp at the time `now`,
/// and what the caller is told: the installed timestamp if it is new.
pub open spec fn update_timestamp_outcome(s: TufView, doc: SignedView<TimestampView>, now: Instant)
    -> (TufView, Result<Option<TimestampView>, ErrorView>) {
    let new = doc.metadata;
    match signed_by_role(doc, s.root.keys, s.root.timestamp) {
        Err(e) => (s, Err(e)),
        Ok(_) => if new.expires.at_or_before(now) {
            (s, Err(ErrorView::ExpiredMetadata(Role::Timestamp)))
        } else if new.version < s.timestamp_version() {
            (
                s,
                Err(
                    ErrorView::VerificationFailure(
                        rollback_text("timestamp"@, s.timestamp_version(), new.version),
                    ),
                ),
            )
        } else if new.version == s.timestamp_version() {
            (s, Ok(None))
        } else {
            (
                TufView {
                    timestamp: Some(new),
                    snapshot: if s.snapshot_version() != new.snapshot.version {
                        None
                    } else {
                        s.snapshot
                    },
                    ..s
                },
                Ok(Some(new)),
            )
        },
    }
}

/// The root document of the state has expired at the time `now`.
pub open spec fn root_expired(s: TufView, now: Instant) -> bool {
    s.root.expires.at_or_before(now)
}

/// The version that the snapshot lists for the targets metadata, or zero.
pub open spec fn listed_targets_version(snapshot: SnapshotView) -> u32 {
    if snapshot.meta.contains_key("targets"@) {
        snapshot.meta["targets"@].version
    } else {
        0
    }
}

/// The delegated metadata that stays when a snapshot with the listing `meta`
/// is installed: all but those whose version is above the one that the
/// snapshot lists for their role.
pub open spec fn purged(
    delegations: Map<Seq<char>, TargetsView>,
    meta: Map<Seq<char>, MetadataDescriptionView>,
) -> Map<Seq<char>, TargetsView> {
    Map::new(
        |role: Seq<char>|
            delegations.contains_key(role) && !(meta.contains_key(role)
                && delegations[role].version > meta[role].version),
        |role: Seq<char>| delegations[role],
    )
}

/// The state after `doc` is offered as the next snapshot at the time `now`,
/// and whether the state advanced. The root and the timestamp must be there
/// and not expired; the timestamp names the version to install. Whether the
/// snapshot itself has expired is not asked here.
pub open spec fn update_snapshot_outcome(s: TufView, doc: SignedView<SnapshotView>, now: Instant)
    -> (TufView, Result<bool, ErrorView>) {
    let new = doc.metadata;
    if root_expired(s, now) {
        (s, Err(ErrorView::ExpiredMetadata(Role::Root)))
    } else {
        match s.timestamp {
            None => (s, Err(ErrorView::MissingMetadata(Role::Timestamp))),
            Some(timestamp) => if timestamp.expires.at_or_before(now) {
                (s, Err(ErrorView::ExpiredMetadata(Role::Timestamp)))
            } else if timestamp.snapshot.version < s.snapshot_version() {
                (
                    s,
                    Err(
                        ErrorView::VerificationFailure(
                            rollback_text(
                                "snapshot"@,
                                s.snapshot_version(),
                                timestamp.snapshot.version,
                            ),
                        ),
                    ),
                )
            } else if timestamp.snapshot.version == s.snapshot_version() {
                (s, Ok(false))
            } else {
                match signed_by_role(doc, s.root.keys, s.root.snapshot) {
                    Err(e) => (s, Err(e)),
                    Ok(_) => if new.version != timestamp.snapshot.version {
                        (
                            s,
                            Err(
                                ErrorView::VerificationFailure(
                                    mismatch_text(
                                        "timestamp"@,
                                        "snapshot"@,
                                        timestamp.snapshot.version,
                                        new.version,
                                    ),
                                ),
                            ),
                        )
                    } else {
                        (
                            TufView {
                                snapshot: Some(new),
                                targets: if s.targets_version() != listed_targets_version(new) {
                                    None
                                } else {
                                    s.targets
                                },
                                delegations: purged(s.delegations, new.meta),
                                ..s
                            },
                            Ok(true),
                        )
                    },
                }
            },
        }
    }
}

/// The state after `doc` is offered as the next targets metadata at the time
/// `now`, and whether the state advanced. The root and the snapshot must be
/// there and not expired; the snapshot names the version to install.
pub open spec fn update_targets_outcome(s: TufView, doc: SignedView<TargetsView>, now: Instant)
    -> (TufView, Result<bool, ErrorView>) {
    let new = doc.metadata;
    if root_expired(s, now) {
        (s, Err(ErrorView::ExpiredMetadata(Role::Root)))
    } else {
        match s.snapshot {
            None => (s, Err(ErrorView::MissingMetadata(Role::Snapshot))),
            Some(snapshot) => if snapshot.expires.at_or_before(now) {
                (s, Err(ErrorView::ExpiredMetadata(Role::Snapshot)))
            } else if !snapshot.meta.contains_key("targets"@) {
                (s, Err(ErrorView::VerificationFailure(no_targets_text())))
            } else {
                let listed = snapshot.meta["targets"@].version;
                if listed < s.targets_version() {
                    (
                        s,
                        Err(
                            ErrorView::VerificationFailure(
                                rollback_text("targets"@, s.targets_version(), listed),
                            ),
                        ),
                    )
                } else if listed == s.targets_version() {
                    (s, Ok(false))
                } else {
                    match signed_by_role(doc, s.root.keys, s.root.targets) {
                        Err(e) => (s, Err(e)),
                        Ok(_) => if new.version != listed {
                            (
                                s,
                                Err(
                                    ErrorView::VerificationFailure(
                                        mismatch_text(
                                            "snapshot"@,
                                            "targets"@,
                                            listed,
                                            new.version,
                                        ),
                                    ),
                                ),
                            )
                        } else if new.expires.at_or_before(now) {
                            (s, Err(ErrorView::ExpiredMetadata(Role::Targets)))
                        } else {
                            (TufView { targets: Some(new), ..s }, Ok(true))
                        },
                    }
                }
            },
        }
    }
}

/// The targets metadata that `parent_role` names: the top-level targets
/// metadata, or the installed metadata of a delegated role.
pub open spec fn parent_of(s: TufView, parent_role: Seq<char>) -> Option<TargetsView> {
    if parent_role == "targets"@ {
        s.targets
    } else if s.delegations.contains_key(parent_role) {
        Some(s.delegations[parent_role])
    } else {
        None
    }
}

/// The first delegation of `roles` that hands over to `role`.
pub open spec fn first_delegation(roles: Seq<DelegationView>, role: Seq<char>) -> Option<
    DelegationView,
>
    decreases roles.len(),
{
    if roles.len() == 0 {
        None
    } else if roles[0].role == role {
        Some(roles[0])
    } else {
        first_delegation(roles.drop_first(), role)
    }
}

/// The delegation to `role` as `parent_role` states it, with the keys that
/// the parent holds for its delegated roles.
pub open spec fn find_delegation(s: TufView, parent_role: Seq<char>, role: Seq<char>) -> Option<
    (Keys, DelegationView),
> {
    match parent_of(s, parent_role) {
        None => None,
        Some(parent) => match parent.delegations {
            None => None,
            Some(delegations) => match first_delegation(delegations.roles, role) {
                Some(delegation) => Some((delegations.keys, delegation)),
                None => None,
            },
        },
    }
}

/// The state after `doc` is offered as the metadata of the delegated role
/// `role` at the time `now`, and whether the state advanced. The root, the
/// snapshot and the targets metadata must be there and not expired; the
/// snapshot names the version to install; and `parent_role`, which must be
/// the targets role or a role whose metadata is installed, names the keys
/// that must have signed.
pub open spec fn update_delegation_outcome(
    s: TufView,
    parent_role: Seq<char>,
    role: Seq<char>,
    doc: SignedView<TargetsView>,
    now: Instant,
) -> (TufView, Result<bool, ErrorView>) {
    let new = doc.metadata;
    if root_expired(s, now) {
        (s, Err(ErrorView::ExpiredMetadata(Role::Root)))
    } else if s.snapshot is None {
        (s, Err(ErrorView::MissingMetadata(Role::Snapshot)))
    } else if s.snapshot->0.expires.at_or_before(now) {
        (s, Err(ErrorView::ExpiredMetadata(Role::Snapshot)))
    } else if s.targets is None {
        (s, Err(ErrorView::MissingMetadata(Role::Targets)))
    } else if s.targets->0.expires.at_or_before(now) {
        (s, Err(ErrorView::ExpiredMetadata(Role::Targets)))
    } else if s.targets->0.delegations is None {
        (s, Err(ErrorView::VerificationFailure(not_authorized_text())))
    } else if !s.snapshot->0.meta.contains_key(role) {
        (s, Err(ErrorView::VerificationFailure(unlisted_text(role))))
    } else {
        let listed = s.snapshot->0.meta[role].version;
        let current = s.delegation_version(role);
        if listed < current {
            (s, Err(ErrorView::VerificationFailure(stale_listing_text(role, listed, current))))
        } else {
            match find_delegation(s, parent_role, role) {
                None => (s, Err(ErrorView::VerificationFailure(unknown_role_text(role)))),
                Some((keys, delegation)) => match signed_by_role(
                    doc,
                    keys,
                    delegation.signers(),
                ) {
                    Err(e) => (s, Err(e)),
                    Ok(_) => if current == listed {
                        (s, Ok(false))
                    } else if new.version != listed {
                        (
                            s,
                            Err(
                                ErrorView::VerificationFailure(
                                    delegation_mismatch_text(role, listed, new.version),
                                ),
                            ),
                        )
                    } else if new.expires.at_or_before(now) {
                        (s, Err(ErrorView::ExpiredMetadata(Role::Targets)))
                    } else {
                        (TufView { delegations: s.delegations.insert(role, new), ..s }, Ok(true))
                    },
                },
            }
        }
    }
}

/// What a search of delegations comes to: whether the search ends here, the
/// description if one was found, and the roles visited so far.
pub ghost struct Found {
    pub terminate: bool,
    pub description: Option<TargetDescriptionView>,
    pub visited: Set<Seq<char>>,
}

/// How many roles with installed metadata have not been visited.
pub open spec fn unvisited(s: TufView, visited: Set<Seq<char>>) -> nat {
    s.delegations.dom().difference(visited).len()
}

/// The search for `path` through the delegations `roles` from position
/// `idx` on, depth first and in the order of the list.
///
/// `chain` holds the pattern sets of the delegations that led here, and
/// `visited` the roles that the search has come by. A role that was visited
/// before, a path that the chain does not admit, and metadata that is not
/// installed or has expired each end the search of this list, with the
/// delegation's own word on whether the whole search ends. A delegated role
/// that lists the path gives its description. Otherwise the search goes on
/// in the role's own delegations; what it finds there is final if it found a
/// description or met a terminating delegation, and else the next delegation
/// of the list is tried. At the end of the list the answer is
/// `default_terminate` and no description.
pub open spec fn lookup_outcome(
    s: TufView,
    now: Instant,
    path: Seq<char>,
    roles: Seq<DelegationView>,
    idx: nat,
    default_terminate: bool,
    chain: Seq<Set<Seq<char>>>,
    visited: Set<Seq<char>>,
) -> Found
    decreases unvisited(s, visited), roles.len() - idx,
    when s.delegations.dom().finite()
    via lookup_decreases
{
    if idx >= roles.len() {
        Found { terminate: default_terminate, description: None, visited: visited }
    } else {
        let delegation = roles[idx as int];
        let seen = visited.insert(delegation.role);
        if visited.contains(delegation.role) {
            Found { terminate: delegation.terminating, description: None, visited: visited }
        } else if chain.len() > 0 && !chain_admits(chain, path) {
            Found { terminate: delegation.terminating, description: None, visited: seen }
        } else if !s.delegations.contains_key(delegation.role) {
            Found { terminate: delegation.terminating, description: None, visited: seen }
        } else {
            let targets = s.delegations[delegation.role];
            if targets.expires.at_or_before(now) {
                Found { terminate: delegation.terminating, description: None, visited: seen }
            } else if targets.targets.contains_key(path) {
                Found {
                    terminate: delegation.terminating,
                    description: Some(targets.targets[path]),
                    visited: seen,
                }
            } else {
                match targets.delegations {
                    Some(inner) => {
                        let below = lookup_outcome(
                            s,
                            now,
                            path,
                            inner.roles,
                            0,
                            delegation.terminating,
                            chain.push(delegation.paths),
                            seen,
                        );
                        if below.terminate || below.description is Some {
                            below
                        } else {
                            lookup_outcome(
                                s,
                                now,
                                path,
                                roles,
                                idx + 1,
                                default_terminate,
                                chain,
                                seen.union(below.visited),
                            )
                        }
                    },
                    None => lookup_outcome(
                        s,
                        now,
                        path,
                        roles,
                        idx + 1,
                        default_terminate,
                        chain,
                        seen,
                    ),
                }
            }
        }
    }
}

#[via_fn]
proof fn lookup_decreases(
    s: TufView,
    now: Instant,
    path: Seq<char>,
    roles: Seq<DelegationView>,
    idx: nat,
    default_terminate: bool,
    chain: Seq<Set<Seq<char>>>,
    visited: Set<Seq<char>>,
) {
    if idx < roles.len() {
        let delegation = roles[idx as int];
        let seen = visited.insert(delegation.role);
        visiting_counts(s, visited, delegation.role);
        assert forall|more: Set<Seq<char>>| unvisited(s, #[trigger] seen.union(more)) <= unvisited(
            s,
            visited,
        ) by {
            more_visited_counts(s, seen, seen.union(more));
        }
    }
}

/// Visiting a role leaves no more roles unvisited than before, and one less
/// if the role's metadata is installed and was not visited yet.
pub proof fn visiting_counts(s: TufView, visited: Set<Seq<char>>, role: Seq<char>)
    requires
        s.delegations.dom().finite(),
    ensures
        unvisited(s, visited.insert(role)) <= unvisited(s, visited),
        s.delegations.contains_key(role) && !visited.contains(role) ==> unvisited(
            s,
            visited.insert(role),
        ) < unvisited(s, visited),
{
    let dom = s.delegations.dom();
    let before = dom.difference(visited);
    let after = dom.difference(visited.insert(role));
    vstd::set_lib::lemma_len_difference(dom, visited);
    assert(before.finite()) by {
        vstd::set_lib::lemma_len_subset(before, dom);
    }
    if dom.contains(role) && !visited.contains(role) {
        assert(after =~= before.remove(role));
    } else {
        assert(after =~= before);
    }
}

/// Where more roles were visited, no more roles are unvisited.
pub proof fn more_visited_counts(s: TufView, fewer: Set<Seq<char>>, more: Set<Seq<char>>)
    requires
        s.delegations.dom().finite(),
        fewer.subset_of(more),
    ensures
        unvisited(s, more) <= unvisited(s, fewer),
{
    let dom = s.delegations.dom();
    vstd::set_lib::lemma_len_subset(dom.difference(fewer), dom);
    vstd::set_lib::lemma_len_subset(dom.difference(more), dom.difference(fewer));
}

/// A search visits roles and forgets none: the roles visited before it are
/// among those visited after it.
pub proof fn lookup_grows(
    s: TufView,
    now: Instant,
    path: Seq<char>,
    roles: Seq<DelegationView>,
    idx: nat,
    default_terminate: bool,
    chain: Seq<Set<Seq<char>>>,
    visited: Set<Seq<char>>,
)
    requires
        s.delegations.dom().finite(),
    ensures
        visited.subset_of(
            lookup_outcome(s, now, path, roles, idx, default_terminate, chain, visited).visited,
        ),
    decreases unvisited(s, visited), roles.len() - idx,
{
    if idx < roles.len() {
        let delegation = roles[idx as int];
        let seen = visited.insert(delegation.role);
        if !visited.contains(delegation.role) {
            visiting_counts(s, visited, delegation.role);
            if s.delegations.contains_key(delegation.role) {
                let targets = s.delegations[delegation.role];
                if !(chain.len() > 0 && !chain_admits(chain, path)) && !targets.expires.at_or_before(
                    now,
                ) && !targets.targets.contains_key(path) {
                    match targets.delegations {
                        Some(inner) => {
                            lookup_grows(
                                s,
                                now,
                                path,
                                inner.roles,
                                0,
                                delegation.terminating,
                                chain.push(delegation.paths),
                                seen,
                            );
                            let below = lookup_outcome(
                                s,
                                now,
                                path,
                                inner.roles,
                                0,
                                delegation.terminating,
                                chain.push(delegation.paths),
                                seen,
                            );
                            if !(below.terminate || below.description is Some) {
                                more_visited_counts(s, seen, seen.union(below.visited));
                                lookup_grows(
                                    s,
                                    now,
                                    path,
                                    roles,
                                    idx + 1,
                                    default_terminate,
                                    chain,
                                    seen.union(below.visited),
                                );
                            }
                        },
                        None => {
                            lookup_grows(
                                s,
                                now,
                                path,
                                roles,
                                idx + 1,
                                default_terminate,
                                chain,
                                seen,
                            );
                        },
                    }
                }
            }
        }
    }
}

/// What is known of the target `path` at the time `now`: the description
/// that the targets metadata gives, or else the one that a search of the
/// delegations finds. The root, the snapshot and the targets metadata must
/// be there and not expired.
pub open spec fn target_description_outcome(s: TufView, path: Seq<char>, now: Instant) -> Result<
    TargetDescriptionView,
    ErrorView,
> {
    if root_expired(s, now) {
        Err(ErrorView::ExpiredMetadata(Role::Root))
    } else if s.snapshot is None {
        Err(ErrorView::MissingMetadata(Role::Snapshot))
    } else if s.snapshot->0.expires.at_or_before(now) {
        Err(ErrorView::ExpiredMetadata(Role::Snapshot))
    } else if s.targets is None {
        Err(ErrorView::MissingMetadata(Role::Targets))
    } else if s.targets->0.expires.at_or_before(now) {
        Err(ErrorView::ExpiredMetadata(Role::Targets))
    } else if s.targets->0.targets.contains_key(path) {
        Ok(s.targets->0.targets[path])
    } else {
        match s.targets->0.delegations {
            Some(delegations) => match lookup_outcome(
                s,
                now,
                path,
                delegations.roles,
                0,
                false,
                Seq::empty(),
                Set::empty(),
            ).description {
                Some(description) => Ok(description),
                None => Err(ErrorView::TargetUnavailable),
            },
            None => Err(ErrorView::TargetUnavailable),
        }
    }
}

/// Whether `r` is the description outcome `expected`.
pub open spec fn description_agrees(
    r: Result<TargetDescription, Error>,
    expected: Result<TargetDescriptionView, ErrorView>,
) -> bool {
    match r {
        Ok(d) => expected == Ok::<TargetDescriptionView, ErrorView>(d@),
        Err(e) => expected == Err::<TargetDescriptionView, ErrorView>(e@),
    }
}

/// Whether `r` is the timestamp outcome `expected`.
pub open spec fn timestamp_agrees(
    r: Result<Option<&TimestampMetadata>, Error>,
    expected: Result<Option<TimestampView>, ErrorView>,
) -> bool {
    match r {
        Ok(Some(t)) => expected == Ok::<Option<TimestampView>, ErrorView>(Some(t@)),
        Ok(None) => expected == Ok::<Option<TimestampView>, ErrorView>(None),
        Err(e) => expected == Err::<Option<TimestampView>, ErrorView>(e@),
    }
}

/// Whether `r` is the construction outcome `expected`.
pub open spec fn tuf_agrees(r: Result<Tuf, Error>, expected: Result<TufView, ErrorView>) -> bool {
    match r {
        Ok(t) => expected == Ok::<TufView, ErrorView>(t@),
        Err(e) => expected == Err::<TufView, ErrorView>(e@),
    }
}

/// Builds the keyring of `keys`.
fn keyring_of(keys: &[PublicKey]) -> (r: Table<KeyId, PublicKey>)
    ensures
        r@ == keyring(public_key_views(keys@)),
{
    let mut table: Table<KeyId, PublicKey> = Table::new();
    let mut i: usize = 0;
    let ghost views = public_key_views(keys@);
    while i < keys.len()
        invariant
            i <= keys@.len(),
            views == public_key_views(keys@),
            table@ == keyring(views.take(i as int)),
        decreases keys@.len() - i,
    {
        let key = &keys[i];
        proof {
            assert(views.take(i + 1).drop_last() =~= views.take(i as int));
            assert(views.take(i + 1).last() == key@);
        }
        table.insert(key.key_id().clone(), key.clone());
        i += 1;
    }
    proof {
        assert(views.take(i as int) =~= views);
    }
    table
}

/// Contains trusted TUF metadata and can be used to verify other metadata and targets.
#[derive(Debug)]
pub struct Tuf {
    root: RootMetadata,
    snapshot: Option<SnapshotMetadata>,
    targets: Option<TargetsMetadata>,
    timestamp: Option<TimestampMetadata>,
    delegations: Table<MetadataPath, TargetsMetadata>,
}

impl View for Tuf {
    type V = TufView;

    closed spec fn view(&self) -> TufView {
        TufView {
            root: self.root@,
            snapshot: match self.snapshot {
                Some(s) => Some(s@),
                None => None,
            },
            targets: match self.targets {
                Some(t) => Some(t@),
                None => None,
            },
            timestamp: match self.timestamp {
                Some(t) => Some(t@),
                None => None,
            },
            delegations: self.delegations@,
        }
    }
}

impl Tuf {
    #[verifier::type_invariant]
    closed spec fn inv(&self) -> bool {
        coherent(self@)
    }

    /// Create a new [`Tuf`] struct from a set of trusted root keys that are used to verify the
    /// signed metadata. The signed root metadata must be signed with at least a `root_threshold`
    /// of the provided root_keys. It is not necessary for the root metadata to contain these keys.
    pub fn from_root_with_trusted_keys(
        signed_root: SignedMetadata<RootMetadata>,
        root_threshold: u32,
        root_keys: &[PublicKey],
    ) -> (r: Result<Tuf, Error>)
        ensures
            tuf_agrees(r, trusted_keys_outcome(signed_root@, root_threshold, public_key_views(root_keys@))),
    {
        let keys = keyring_of(root_keys);
        match signed_root.verify(root_threshold, &keys) {
            Ok(_) => Self::from_trusted_root(signed_root),
            Err(e) => Err(e),
        }
    }

    /// Create a new [`Tuf`] struct from a piece of metadata that is assumed to be trusted.
    ///
    /// **WARNING**: This is trust-on-first-use (TOFU) and offers weaker security guarantees than
    /// the related method [`Tuf::from_root_with_trusted_keys`].
    pub fn from_trusted_root(signed_root: SignedMetadata<RootMetadata>) -> (r: Result<Tuf, Error>)
        ensures
            tuf_agrees(r, trusted_root_outcome(signed_root@)),
    {
        let check = {
            let root = signed_root.assume_valid();
            signed_root.verify_among(root.root().threshold(), root.keys(), root.root().key_ids())
        };
        match check {
            Ok(_) => Ok(
                Tuf {
                    root: signed_root.into_metadata(),
                    snapshot: None,
                    targets: None,
                    timestamp: None,
                    delegations: Table::new(),
                },
            ),
            Err(e) => Err(e),
        }
    }

    /// An immutable reference to the root metadata.
    pub fn root(&self) -> (r: &RootMetadata)
        ensures
            r@ == self@.root,
    {
        &self.root
    }

    /// An immutable reference to the optional snapshot metadata.
    pub fn snapshot(&self) -> (r: Option<&SnapshotMetadata>)
        ensures
            match r {
                Some(s) => self@.snapshot == Some(s@),
                None => self@.snapshot is None,
            },
            coherent(self@),
    {
        proof {
            use_type_invariant(self);
        }
        self.snapshot.as_ref()
    }

    /// An immutable reference to the optional targets metadata.
    pub fn targets(&self) -> (r: Option<&TargetsMetadata>)
        ensures
            match r {
                Some(t) => self@.targets == Some(t@),
                None => self@.targets is None,
            },
            coherent(self@),
    {
        proof {
            use_type_invariant(self);
        }
        self.targets.as_ref()
    }

    /// An immutable reference to the optional timestamp metadata.
    pub fn timestamp(&self) -> (r: Option<&TimestampMetadata>)
        ensures
            match r {
                Some(t) => self@.timestamp == Some(t@),
                None => self@.timestamp is None,
            },
            coherent(self@),
    {
        proof {
            use_type_invariant(self);
        }
        self.timestamp.as_ref()
    }

    /// An immutable reference to the delegated metadata.
    pub fn delegations(&self) -> (r: &Table<MetadataPath, TargetsMetadata>)
        ensures
            r@ == self@.delegations,
    {
        &self.delegations
    }

    fn current_timestamp_version(&self) -> (r: u32)
        ensures
            r == self@.timestamp_version(),
    {
        match &self.timestamp {
            Some(t) => t.version(),
            None => 0,
        }
    }

    fn current_snapshot_version(&self) -> (r: u32)
        ensures
            r == self@.snapshot_version(),
    {
        match &self.snapshot {
            Some(t) => t.version(),
            None => 0,
        }
    }

    fn current_targets_version(&self) -> (r: u32)
        ensures
            r == self@.targets_version(),
    {
        match &self.targets {
            Some(t) => t.version(),
            None => 0,
        }
    }

    fn current_delegation_version(&self, role: &MetadataPath) -> (r: u32)
        ensures
            r == self@.delegation_version(role@),
    {
        match self.delegations.get(role) {
            Some(t) => t.version(),
            None => 0,
        }
    }

    /// Verify and update the root metadata.
    pub fn update_root(&mut self, signed_root: SignedMetadata<RootMetadata>) -> (r: Result<
        bool,
        Error,
    >)
        ensures
            final(self)@ == update_root_outcome(old(self)@, signed_root@).0,
            agrees(r, update_root_outcome(old(self)@, signed_root@).1),
    {
        // First, check that the new root was signed by the old root.
        let by_old = signed_root.verify_among(
            self.root.root().threshold(),
            self.root.keys(),
            self.root.root().key_ids(),
        );
        match by_old {
            Ok(_) => {},
            Err(e) => {
                return Err(e);
            },
        }
        // Next, make sure the new root has a higher version than the old root.
        let new_version = signed_root.assume_valid().version();
        let old_version = self.root.version();
        if new_version == old_version {
            return Ok(false);
        } else if new_version < old_version {
            return Err(rollback_error("root", old_version, new_version));
        }
        // Finally, make sure the new root was signed by the keys in the new root.
        let by_new = {
            let new_root = signed_root.assume_valid();
            signed_root.verify_among(
                new_root.root().threshold(),
                new_root.keys(),
                new_root.root().key_ids(),
            )
        };
        match by_new {
            Ok(_) => {},
            Err(e) => {
                return Err(e);
            },
        }
        self.purge_metadata();
        self.root = signed_root.into_metadata();
        Ok(true)
    }

    /// Verify and update the timestamp metadata, reading the time from the
    /// system clock.
    ///
    /// Returns a reference to the parsed metadata if the metadata was newer.
    pub fn update_timestamp(&mut self, signed_timestamp: SignedMetadata<TimestampMetadata>) -> (r:
        Result<Option<&TimestampMetadata>, Error>)
        ensures
            exists|at: Instant|
                final(self)@ == (#[trigger] update_timestamp_outcome(
                    old(self)@,
                    signed_timestamp@,
                    at,
                )).0 && timestamp_agrees(
                    r,
                    update_timestamp_outcome(old(self)@, signed_timestamp@, at).1,
                ),
    {
        let at = now();
        self.update_timestamp_at(signed_timestamp, &at)
    }

    /// Verify and update the timestamp metadata, as of the time `now`.
    ///
    /// Returns a reference to the parsed metadata if the metadata was newer.
    pub fn update_timestamp_at(
        &mut self,
        signed_timestamp: SignedMetadata<TimestampMetadata>,
        now: &Instant,
    ) -> (r: Result<Option<&TimestampMetadata>, Error>)
        ensures
            final(self)@ == update_timestamp_outcome(old(self)@, signed_timestamp@, *now).0,
            timestamp_agrees(r, update_timestamp_outcome(old(self)@, signed_timestamp@, *now).1),
    {
        proof {
            use_type_invariant(&*self);
        }
        // First, make sure the root signed the metadata.
        let signed = signed_timestamp.verify_among(
            self.root.timestamp().threshold(),
            self.root.keys(),
            self.root.timestamp().key_ids(),
        );
        match signed {
            Ok(_) => {},
            Err(e) => {
                return Err(e);
            },
        }
        let timestamp = signed_timestamp.into_metadata();
        // Next, make sure the timestamp hasn't expired.
        if timestamp.expires().le(now) {
            return Err(Error::ExpiredMetadata(Role::Timestamp));
        }
        // Next, make sure the new metadata has a higher version than the old metadata.
        let current_version = self.current_timestamp_version();
        if timestamp.version() < current_version {
            return Err(rollback_error("timestamp", current_version, timestamp.version()));
        } else if timestamp.version() == current_version {
            return Ok(None);
        }
        if self.current_snapshot_version() != timestamp.snapshot().version() {
            self.snapshot = None;
        }
        self.timestamp = Some(timestamp);
        Ok(self.timestamp.as_ref())
    }

    /// Verify and update the snapshot metadata, reading the time from the
    /// system clock.
    pub fn update_snapshot(&mut self, signed_snapshot: SignedMetadata<SnapshotMetadata>) -> (r:
        Result<bool, Error>)
        ensures
            exists|at: Instant|
                final(self)@ == (#[trigger] update_snapshot_outcome(
                    old(self)@,
                    signed_snapshot@,
                    at,
                )).0 && agrees(r, update_snapshot_outcome(old(self)@, signed_snapshot@, at).1),
    {
        let at = now();
        self.update_snapshot_at(signed_snapshot, &at)
    }

    /// Verify and update the snapshot metadata, as of the time `now`.
    pub fn update_snapshot_at(
        &mut self,
        signed_snapshot: SignedMetadata<SnapshotMetadata>,
        now: &Instant,
    ) -> (r: Result<bool, Error>)
        ensures
            final(self)@ == update_snapshot_outcome(old(self)@, signed_snapshot@, *now).0,
            agrees(r, update_snapshot_outcome(old(self)@, signed_snapshot@, *now).1),
    {
        proof {
            use_type_invariant(&*self);
        }
        let claimed = {
            let root = match self.safe_root_ref(now) {
                Ok(root) => root,
                Err(e) => {
                    return Err(e);
                },
            };
            let timestamp = match self.safe_timestamp_ref(now) {
                Ok(timestamp) => timestamp,
                Err(e) => {
                    return Err(e);
                },
            };
            let current_version = self.current_snapshot_version();
            let claimed = timestamp.snapshot().version();
            if claimed < current_version {
                return Err(rollback_error("snapshot", current_version, claimed));
            } else if claimed == current_version {
                return Ok(false);
            }
            let signed = signed_snapshot.verify_among(
                root.snapshot().threshold(),
                root.keys(),
                root.snapshot().key_ids(),
            );
            match signed {
                Ok(_) => {},
                Err(e) => {
                    return Err(e);
                },
            }
            claimed
        };
        let snapshot = signed_snapshot.into_metadata();
        if snapshot.version() != claimed {
            return Err(mismatch_error("timestamp", "snapshot", claimed, snapshot.version()));
        }
        // The expiration is not checked here: the snapshot must be installed in any case, so
        // that it can guard the targets and the delegations against rollback.
        let listed = match snapshot.meta().get(&MetadataPath::from_role(&Role::Targets)) {
            Some(description) => description.version(),
            None => 0,
        };
        if self.current_targets_version() != listed {
            self.targets = None;
        }
        self.snapshot = Some(snapshot);
        self.purge_delegations();
        Ok(true)
    }

    /// Removes the delegated metadata whose version is above the version
    /// that the installed snapshot lists for its role.
    fn purge_delegations(&mut self)
        ensures
            final(self)@ == (TufView {
                delegations: match old(self)@.snapshot {
                    Some(snapshot) => purged(old(self)@.delegations, snapshot.meta),
                    None => old(self)@.delegations,
                },
                ..old(self)@
            }),
    {
        proof {
            use_type_invariant(&*self);
        }
        let ghost before = self.delegations@;
        let mut delegations: Table<MetadataPath, TargetsMetadata> = Table::new();
        core::mem::swap(&mut self.delegations, &mut delegations);
        match &self.snapshot {
            None => {},
            Some(snapshot) => {
                let meta = snapshot.meta();
                let n = meta.len();
                let mut i: usize = 0;
                while i < n
                    invariant
                        i <= n,
                        n == meta.order().len(),
                        n == meta.values().len(),
                        meta.order().no_duplicates(),
                        meta@.dom() =~= meta.order().to_set(),
                        forall|j: int|
                            0 <= j < meta.order().len() ==> #[trigger] meta@[meta.order()[j]]
                                == meta.values()[j],
                        delegations@ == purged(
                            before,
                            meta@.restrict(meta.order().take(i as int).to_set()),
                        ),
                    decreases n - i,
                {
                    let role = meta.key_at(i);
                    let definition = meta.value_at(i);
                    let stale = match delegations.get(role) {
                        Some(delegation) => delegation.version() > definition.version(),
                        None => false,
                    };
                    let ghost seen = meta@.restrict(meta.order().take(i as int).to_set());
                    let ghost next = meta@.restrict(meta.order().take(i + 1).to_set());
                    proof {
                        let r = meta.order()[i as int];
                        assert(meta.order().take(i + 1) =~= meta.order().take(i as int).push(r));
                        assert(meta.order().to_set().contains(r));
                        assert(meta.order().take(i + 1).to_set().contains(r)) by {
                            assert(meta.order().take(i + 1)[i as int] == r);
                        }
                        assert(!meta.order().take(i as int).to_set().contains(r)) by {
                            if meta.order().take(i as int).contains(r) {
                                let j = meta.order().take(i as int).index_of(r);
                                assert(meta.order().take(i as int)[j] == r);
                                assert(meta.order()[j] == r);
                            }
                        }
                        assert forall|k: Seq<char>| next.contains_key(k) <==> (seen.contains_key(
                            k,
                        ) || k == r) by {
                            if next.contains_key(k) && k != r {
                                let j = meta.order().take(i + 1).index_of(k);
                                assert(meta.order().take(i + 1)[j] == k);
                                assert(meta.order().take(i as int)[j] == k);
                            }
                            if seen.contains_key(k) {
                                let j = meta.order().take(i as int).index_of(k);
                                assert(meta.order().take(i as int)[j] == k);
                                assert(meta.order().take(i + 1)[j] == k);
                            }
                        }
                        assert(next[r] == meta.values()[i as int]);
                    }
                    if stale {
                        delegations.remove(role);
                    }
                    proof {
                        assert(delegations@ =~= purged(before, next));
                    }
                    i += 1;
                }
                proof {
                    assert(meta.order().take(i as int) =~= meta.order());
                    assert(meta@.restrict(meta.order().to_set()) =~= meta@);
                }
            },
        }
        self.delegations = delegations;
    }

    /// Verify and update the targets metadata, reading the time from the
    /// system clock.
    pub fn update_targets(&mut self, signed_targets: SignedMetadata<TargetsMetadata>) -> (r: Result<
        bool,
        Error,
    >)
        ensures
            exists|at: Instant|
                final(self)@ == (#[trigger] update_targets_outcome(
                    old(self)@,
                    signed_targets@,
                    at,
                )).0 && agrees(r, update_targets_outcome(old(self)@, signed_targets@, at).1),
    {
        let at = now();
        self.update_targets_at(signed_targets, &at)
    }

    /// Verify and update the targets metadata, as of the time `now`.
    pub fn update_targets_at(
        &mut self,
        signed_targets: SignedMetadata<TargetsMetadata>,
        now: &Instant,
    ) -> (r: Result<bool, Error>)
        ensures
            final(self)@ == update_targets_outcome(old(self)@, signed_targets@, *now).0,
            agrees(r, update_targets_outcome(old(self)@, signed_targets@, *now).1),
    {
        proof {
            use_type_invariant(&*self);
        }
        let listed = {
            let root = match self.safe_root_ref(now) {
                Ok(root) => root,
                Err(e) => {
                    return Err(e);
                },
            };
            let snapshot = match self.safe_snapshot_ref(now) {
                Ok(snapshot) => snapshot,
                Err(e) => {
                    return Err(e);
                },
            };
            let targets_description = match snapshot.meta().get(
                &MetadataPath::from_role(&Role::Targets),
            ) {
                Some(description) => description,
                None => {
                    return Err(
                        Error::verification_failure(
                            "Snapshot metadata had no description of the targets metadata",
                        ),
                    );
                },
            };
            let current_version = self.current_targets_version();
            let listed = targets_description.version();
            if listed < current_version {
                return Err(rollback_error("targets", current_version, listed));
            } else if listed == current_version {
                return Ok(false);
            }
            let signed = signed_targets.verify_among(
                root.targets().threshold(),
                root.keys(),
                root.targets().key_ids(),
            );
            match signed {
                Ok(_) => {},
                Err(e) => {
                    return Err(e);
                },
            }
            listed
        };
        let targets = signed_targets.into_metadata();
        if targets.version() != listed {
            return Err(mismatch_error("snapshot", "targets", listed, targets.version()));
        }
        if targets.expires().le(now) {
            return Err(Error::ExpiredMetadata(Role::Targets));
        }
        self.targets = Some(targets);
        Ok(true)
    }

    /// Find the signing keys and metadata for the delegation given by `role`, as seen from the
    /// point of view of `parent_role`.
    fn find_delegation(&self, parent_role: &MetadataPath, role: &MetadataPath) -> (r: Option<
        (&Delegations, &Delegation),
    >)
        ensures
            match r {
                Some((delegations, delegation)) => find_delegation(self@, parent_role@, role@)
                    == Some((delegations@.keys, delegation@)),
                None => find_delegation(self@, parent_role@, role@) is None,
            },
    {
        // Find the parent TargetsMetadata that is expected to refer to `role`.
        let parent = if parent_role.same(&MetadataPath::from_role(&Role::Targets)) {
            match self.targets() {
                Some(targets) => targets,
                None => {
                    return None;
                },
            }
        } else {
            match self.delegations.get(parent_role) {
                Some(targets) => targets,
                None => {
                    return None;
                },
            }
        };
        // Only consider targets metadata that define delegations.
        let delegations = match parent.delegations() {
            Some(d) => d,
            None => {
                return None;
            },
        };
        let roles = delegations.roles();
        let ghost views = delegation_views(roles@);
        let mut i: usize = 0;
        proof {
            assert(views.skip(0) =~= views);
        }
        while i < roles.len()
            invariant
                i <= roles@.len(),
                views == delegation_views(roles@),
                find_delegation(self@, parent_role@, role@) == match first_delegation(
                    views,
                    role@,
                ) {
                    Some(d) => Some((delegations@.keys, d)),
                    None => None,
                },
                first_delegation(views, role@) == first_delegation(views.skip(i as int), role@),
            decreases roles@.len() - i,
        {
            let delegation = &roles[i];
            proof {
                assert(views.skip(i as int)[0] == delegation@);
                assert(views.skip(i as int).drop_first() =~= views.skip(i + 1));
            }
            if delegation.role().same(role) {
                return Some((delegations, delegation));
            }
            i += 1;
        }
        None
    }

    /// Verify and update a delegation metadata, reading the time from the
    /// system clock.
    pub fn update_delegation(
        &mut self,
        parent_role: &MetadataPath,
        role: &MetadataPath,
        signed_delegation: SignedMetadata<TargetsMetadata>,
    ) -> (r: Result<bool, Error>)
        ensures
            exists|at: Instant|
                final(self)@ == (#[trigger] update_delegation_outcome(
                    old(self)@,
                    parent_role@,
                    role@,
                    signed_delegation@,
                    at,
                )).0 && agrees(
                    r,
                    update_delegation_outcome(
                        old(self)@,
                        parent_role@,
                        role@,
                        signed_delegation@,
                        at,
                    ).1,
                ),
    {
        let at = now();
        self.update_delegation_at(parent_role, role, signed_delegation, &at)
    }

    /// Verify and update a delegation metadata, as of the time `now`.
    pub fn update_delegation_at(
        &mut self,
        parent_role: &MetadataPath,
        role: &MetadataPath,
        signed_delegation: SignedMetadata<TargetsMetadata>,
        now: &Instant,
    ) -> (r: Result<bool, Error>)
        ensures
            final(self)@ == update_delegation_outcome(
                old(self)@,
                parent_role@,
                role@,
                signed_delegation@,
                *now,
            ).0,
            agrees(
                r,
                update_delegation_outcome(
                    old(self)@,
                    parent_role@,
                    role@,
                    signed_delegation@,
                    *now,
                ).1,
            ),
    {
        proof {
            use_type_invariant(&*self);
        }
        let listed = {
            match self.safe_root_ref(now) {
                Ok(_) => {},
                Err(e) => {
                    return Err(e);
                },
            }
            let snapshot = match self.safe_snapshot_ref(now) {
                Ok(snapshot) => snapshot,
                Err(e) => {
                    return Err(e);
                },
            };
            let targets = match self.safe_targets_ref(now) {
                Ok(targets) => targets,
                Err(e) => {
                    return Err(e);
                },
            };
            if targets.delegations().is_none() {
                return Err(Error::verification_failure("Delegations not authorized"));
            }
            let delegation_description = match snapshot.meta().get(role) {
                Some(d) => d,
                None => {
                    return Err(unlisted_error(role));
                },
            };
            let current_version = self.current_delegation_version(role);
            let listed = delegation_description.version();
            if listed < current_version {
                return Err(stale_listing_error(role, listed, current_version));
            }
            let (delegations, delegation) = match self.find_delegation(parent_role, role) {
                Some(found) => found,
                None => {
                    return Err(unknown_role_error(role));
                },
            };
            let signed = signed_delegation.verify_among(
                delegation.threshold(),
                delegations.keys(),
                delegation.key_ids(),
            );
            match signed {
                Ok(_) => {},
                Err(e) => {
                    return Err(e);
                },
            }
            if current_version == listed {
                return Ok(false);
            }
            listed
        };
        let delegation = signed_delegation.into_metadata();
        if delegation.version() != listed {
            return Err(delegation_mismatch_error(role, listed, delegation.version()));
        }
        if delegation.expires().le(now) {
            return Err(Error::ExpiredMetadata(Role::Targets));
        }
        let mut delegations: Table<MetadataPath, TargetsMetadata> = Table::new();
        core::mem::swap(&mut self.delegations, &mut delegations);
        delegations.insert(role.clone(), delegation);
        self.delegations = delegations;
        Ok(true)
    }

    /// Get the description needed to verify the target defined by the given
    /// `VirtualTargetPath`, reading the time from the system clock. Returns an `Error` if the
    /// target is not defined in the trusted metadata. This may mean the target exists somewhere
    /// in the metadata, but the chain of trust to that target may be invalid or incomplete.
    pub fn target_description(&self, target_path: &VirtualTargetPath) -> (r: Result<
        TargetDescription,
        Error,
    >)
        ensures
            exists|at: Instant|
                description_agrees(
                    r,
                    #[trigger] target_description_outcome(self@, target_path@, at),
                ),
    {
        let at = now();
        self.target_description_at(target_path, &at)
    }

    /// Get the description needed to verify the target defined by the given
    /// `VirtualTargetPath`, as of the time `now`.
    pub fn target_description_at(&self, target_path: &VirtualTargetPath, now: &Instant) -> (r:
        Result<TargetDescription, Error>)
        ensures
            description_agrees(r, target_description_outcome(self@, target_path@, *now)),
    {
        match self.safe_root_ref(now) {
            Ok(_) => {},
            Err(e) => {
                return Err(e);
            },
        }
        match self.safe_snapshot_ref(now) {
            Ok(_) => {},
            Err(e) => {
                return Err(e);
            },
        }
        let targets = match self.safe_targets_ref(now) {
            Ok(targets) => targets,
            Err(e) => {
                return Err(e);
            },
        };
        match targets.targets().get(target_path) {
            Some(d) => {
                return Ok(d.clone());
            },
            None => {},
        }
        match targets.delegations() {
            Some(d) => {
                let mut visited: Group<MetadataPath> = Group::new();
                let parents: Vec<&Group<VirtualTargetPath>> = Vec::new();
                proof {
                    assert(chain_view(parents@) =~= Seq::<Set<Seq<char>>>::empty());
                }
                let found = self.lookup(now, target_path, d.roles(), false, &parents, &mut visited);
                match found.1 {
                    Some(description) => Ok(description),
                    None => Err(Error::TargetUnavailable),
                }
            },
            None => Err(Error::TargetUnavailable),
        }
    }

    /// Searches the delegations `roles` for `target_path`, and records the
    /// roles it comes by in `visited`.
    fn lookup<'a>(
        &'a self,
        now: &Instant,
        target_path: &VirtualTargetPath,
        roles: &'a Vec<Delegation>,
        default_terminate: bool,
        parents: &Vec<&'a Group<VirtualTargetPath>>,
        visited: &mut Group<MetadataPath>,
    ) -> (r: (bool, Option<TargetDescription>))
        ensures
            ({
                let found = lookup_outcome(
                    self@,
                    *now,
                    target_path@,
                    delegation_views(roles@),
                    0,
                    default_terminate,
                    chain_view(parents@),
                    old(visited)@,
                );
                &&& r.0 == found.terminate
                &&& match r.1 {
                    Some(d) => found.description == Some(d@),
                    None => found.description is None,
                }
                &&& final(visited)@ == found.visited
            }),
        decreases unvisited(self@, old(visited)@),
    {
        let _ = self.delegations.len();
        let ghost views = delegation_views(roles@);
        let ghost chain = chain_view(parents@);
        let ghost whole = lookup_outcome(
            self@,
            *now,
            target_path@,
            views,
            0,
            default_terminate,
            chain,
            visited@,
        );
        let mut idx: usize = 0;
        while idx < roles.len()
            invariant
                idx <= roles@.len(),
                views == delegation_views(roles@),
                chain == chain_view(parents@),
                self@.delegations.dom().finite(),
                whole == lookup_outcome(
                    self@,
                    *now,
                    target_path@,
                    views,
                    0,
                    default_terminate,
                    chain,
                    old(visited)@,
                ),
                whole == lookup_outcome(
                    self@,
                    *now,
                    target_path@,
                    views,
                    idx as nat,
                    default_terminate,
                    chain,
                    visited@,
                ),
                unvisited(self@, visited@) <= unvisited(self@, old(visited)@),
            decreases roles@.len() - idx,
        {
            let delegation = &roles[idx];
            assert(views[idx as int] == delegation@);
            if visited.contains(delegation.role()) {
                return (delegation.terminating(), None);
            }
            proof {
                visiting_counts(self@, visited@, delegation@.role);
            }
            visited.insert(delegation.role().clone());
            if parents.len() > 0 && !target_path.matches_chain(parents) {
                return (delegation.terminating(), None);
            }
            let targets = match self.delegations.get(delegation.role()) {
                Some(t) => t,
                None => {
                    return (delegation.terminating(), None);
                },
            };
            if targets.expires().le(now) {
                return (delegation.terminating(), None);
            }
            match targets.targets().get(target_path) {
                Some(d) => {
                    return (delegation.terminating(), Some(d.clone()));
                },
                None => {},
            }
            match targets.delegations() {
                Some(d) => {
                    let mut new_parents: Vec<&'a Group<VirtualTargetPath>> = Vec::new();
                    let mut i: usize = 0;
                    while i < parents.len()
                        invariant
                            i <= parents@.len(),
                            new_parents@ == parents@.take(i as int),
                        decreases parents@.len() - i,
                    {
                        new_parents.push(parents[i]);
                        proof {
                            assert(parents@.take(i + 1) =~= parents@.take(i as int).push(
                                parents@[i as int],
                            ));
                        }
                        i += 1;
                    }
                    new_parents.push(delegation.paths());
                    let ghost seen = visited@;
                    proof {
                        assert(parents@.take(i as int) =~= parents@);
                        assert(chain_view(new_parents@) =~= chain.push(delegation@.paths));
                        lookup_grows(
                            self@,
                            *now,
                            target_path@,
                            d@.roles,
                            0,
                            delegation@.terminating,
                            chain_view(new_parents@),
                            seen,
                        );
                    }
                    let (term, res) = self.lookup(
                        now,
                        target_path,
                        d.roles(),
                        delegation.terminating(),
                        &new_parents,
                        visited,
                    );
                    if term {
                        return (true, res);
                    } else if res.is_some() {
                        return (term, res);
                    }
                    proof {
                        assert(seen.union(visited@) =~= visited@);
                        more_visited_counts(self@, seen, visited@);
                    }
                },
                None => {},
            }
            idx += 1;
        }
        (default_terminate, None)
    }

    fn safe_root_ref(&self, now: &Instant) -> (r: Result<&RootMetadata, Error>)
        ensures
            match r {
                Ok(root) => !root_expired(self@, *now) && root@ == self@.root,
                Err(e) => root_expired(self@, *now) && e@ == ErrorView::ExpiredMetadata(
                    Role::Root,
                ),
            },
    {
        let root = &self.root;
        if root.expires().le(now) {
            return Err(Error::ExpiredMetadata(Role::Root));
        }
        Ok(root)
    }

    fn safe_snapshot_ref(&self, now: &Instant) -> (r: Result<&SnapshotMetadata, Error>)
        ensures
            match r {
                Ok(snapshot) => self@.snapshot == Some(snapshot@) && !snapshot@.expires.at_or_before(
                    *now,
                ),
                Err(e) => match self@.snapshot {
                    Some(snapshot) => snapshot.expires.at_or_before(*now) && e@
                        == ErrorView::ExpiredMetadata(Role::Snapshot),
                    None => e@ == ErrorView::MissingMetadata(Role::Snapshot),
                },
            },
    {
        match &self.snapshot {
            Some(snapshot) => {
                if snapshot.expires().le(now) {
                    return Err(Error::ExpiredMetadata(Role::Snapshot));
                }
                Ok(snapshot)
            },
            None => Err(Error::MissingMetadata(Role::Snapshot)),
        }
    }

    fn safe_targets_ref(&self, now: &Instant) -> (r: Result<&TargetsMetadata, Error>)
        ensures
            match r {
                Ok(targets) => self@.targets == Some(targets@) && !targets@.expires.at_or_before(
                    *now,
                ),
                Err(e) => match self@.targets {
                    Some(targets) => targets.expires.at_or_before(*now) && e@
                        == ErrorView::ExpiredMetadata(Role::Targets),
                    None => e@ == ErrorView::MissingMetadata(Role::Targets),
                },
            },
    {
        match &self.targets {
            Some(targets) => {
                if targets.expires().le(now) {
                    return Err(Error::ExpiredMetadata(Role::Targets));
                }
                Ok(targets)
            },
            None => Err(Error::MissingMetadata(Role::Targets)),
        }
    }

    fn safe_timestamp_ref(&self, now: &Instant) -> (r: Result<&TimestampMetadata, Error>)
        ensures
            match r {
                Ok(timestamp) => self@.timestamp == Some(timestamp@)
                    && !timestamp@.expires.at_or_before(*now),
                Err(e) => match self@.timestamp {
                    Some(timestamp) => timestamp.expires.at_or_before(*now) && e@
                        == ErrorView::ExpiredMetadata(Role::Timestamp),
                    None => e@ == ErrorView::MissingMetadata(Role::Timestamp),
                },
            },
    {
        match &self.timestamp {
            Some(timestamp) => {
                if timestamp.expires().le(now) {
                    return Err(Error::ExpiredMetadata(Role::Timestamp));
                }
                Ok(timestamp)
            },
            None => Err(Error::MissingMetadata(Role::Timestamp)),
        }
    }

    fn purge_metadata(&mut self)
        ensures
            final(self)@ == TufView::fresh(old(self)@.root),
    {
        self.snapshot = None;
        self.targets = None;
        self.timestamp = None;
        self.delegations = Table::new();
    }
}

} // verus!
