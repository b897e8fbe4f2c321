//! What holds of the trust engine whatever documents it is offered.
//!
//! Each statement is about the outcome functions of [`crate::tuf`], which
//! the engine's operations are proved to compute.

use crate::error::ErrorView;
use crate::error::Role;
use crate::metadata::valid_root;
use crate::metadata::RootView;
use crate::metadata::SignedView;
use crate::metadata::SnapshotView;
use crate::metadata::TargetsView;
use crate::metadata::TimestampView;
use crate::time::Instant;
use crate::tuf::coherent;
use crate::tuf::listed_targets_version;
use crate::tuf::root_expired;
use crate::tuf::signed_by_role;
use crate::tuf::trusted_root_outcome;
use crate::tuf::update_delegation_outcome;
use crate::tuf::update_root_outcome;
use crate::tuf::update_snapshot_outcome;
use crate::tuf::update_targets_outcome;
use crate::tuf::update_timestamp_outcome;
use crate::tuf::TufView;
use crate::verify::counts;
use crate::verify::good_key_ids;
use crate::verify::threshold_text;
use vstd::prelude::*;

verus! {

/// The error is a verification failure, whatever its text.
pub open spec fn is_verification_failure<T>(r: Result<T, ErrorView>) -> bool {
    r matches Err(ErrorView::VerificationFailure(_))
}

/// An operation that fails leaves the state as it was.
pub proof fn failure_changes_nothing(
    s: TufView,
    root: SignedView<RootView>,
    timestamp: SignedView<TimestampView>,
    snapshot: SignedView<SnapshotView>,
    targets: SignedView<TargetsView>,
    parent_role: Seq<char>,
    role: Seq<char>,
    now: Instant,
)
    ensures
        update_root_outcome(s, root).1 is Err ==> update_root_outcome(s, root).0 == s,
        update_timestamp_outcome(s, timestamp, now).1 is Err ==> update_timestamp_outcome(
            s,
            timestamp,
            now,
        ).0 == s,
        update_snapshot_outcome(s, snapshot, now).1 is Err ==> update_snapshot_outcome(
            s,
            snapshot,
            now,
        ).0 == s,
        update_targets_outcome(s, targets, now).1 is Err ==> update_targets_outcome(
            s,
            targets,
            now,
        ).0 == s,
        update_delegation_outcome(s, parent_role, role, targets, now).1 is Err
            ==> update_delegation_outcome(s, parent_role, role, targets, now).0 == s,
{
}

/// An operation that reports that nothing advanced leaves the state as it
/// was.
pub proof fn no_advance_changes_nothing(
    s: TufView,
    root: SignedView<RootView>,
    timestamp: SignedView<TimestampView>,
    snapshot: SignedView<SnapshotView>,
    targets: SignedView<TargetsView>,
    parent_role: Seq<char>,
    role: Seq<char>,
    now: Instant,
)
    ensures
        update_root_outcome(s, root).1 == Ok::<bool, ErrorView>(false) ==> update_root_outcome(
            s,
            root,
        ).0 == s,
        update_timestamp_outcome(s, timestamp, now).1 == Ok::<Option<TimestampView>, ErrorView>(
            None,
        ) ==> update_timestamp_outcome(s, timestamp, now).0 == s,
        update_snapshot_outcome(s, snapshot, now).1 == Ok::<bool, ErrorView>(false)
            ==> update_snapshot_outcome(s, snapshot, now).0 == s,
        update_targets_outcome(s, targets, now).1 == Ok::<bool, ErrorView>(false)
            ==> update_targets_outcome(s, targets, now).0 == s,
        update_delegation_outcome(s, parent_role, role, targets, now).1 == Ok::<bool, ErrorView>(
            false,
        ) ==> update_delegation_outcome(s, parent_role, role, targets, now).0 == s,
{
}

/// A root document of a lower version than the trusted one is refused with a
/// verification failure.
pub proof fn root_rollback_is_refused(s: TufView, doc: SignedView<RootView>)
    requires
        doc.metadata.version < s.root.version,
    ensures
        update_root_outcome(s, doc).0 == s,
        is_verification_failure(update_root_outcome(s, doc).1),
{
}

/// A timestamp of a lower version than the installed one is refused: with a
/// verification failure if it has not expired, and as expired otherwise
/// unless its signatures fail first.
pub proof fn timestamp_rollback_is_refused(
    s: TufView,
    doc: SignedView<TimestampView>,
    now: Instant,
)
    requires
        doc.metadata.version < s.timestamp_version(),
    ensures
        update_timestamp_outcome(s, doc, now).0 == s,
        update_timestamp_outcome(s, doc, now).1 is Err,
        !doc.metadata.expires.at_or_before(now) ==> is_verification_failure(
            update_timestamp_outcome(s, doc, now).1,
        ),
{
}

/// A snapshot of a lower version than the installed one is never installed.
/// Where the root and the timestamp are in order and the timestamp names
/// another version than the installed one, it is refused with a verification
/// failure.
pub proof fn snapshot_rollback_is_refused(s: TufView, doc: SignedView<SnapshotView>, now: Instant)
    requires
        doc.metadata.version < s.snapshot_version(),
    ensures
        update_snapshot_outcome(s, doc, now).0 == s,
        update_snapshot_outcome(s, doc, now).1 != Ok::<bool, ErrorView>(true),
        !root_expired(s, now) && s.timestamp is Some && !s.timestamp->0.expires.at_or_before(now)
            && s.timestamp->0.snapshot.version != s.snapshot_version()
            ==> is_verification_failure(update_snapshot_outcome(s, doc, now).1),
{
}

/// Targets metadata of a lower version than the installed one is never
/// installed. Where the root and the snapshot are in order and the snapshot
/// lists another version than the installed one, it is refused with a
/// verification failure.
pub proof fn targets_rollback_is_refused(s: TufView, doc: SignedView<TargetsView>, now: Instant)
    requires
        doc.metadata.version < s.targets_version(),
    ensures
        update_targets_outcome(s, doc, now).0 == s,
        update_targets_outcome(s, doc, now).1 != Ok::<bool, ErrorView>(true),
        !root_expired(s, now) && s.snapshot is Some && !s.snapshot->0.expires.at_or_before(now)
            && listed_targets_version(s.snapshot->0) != s.targets_version()
            ==> is_verification_failure(update_targets_outcome(s, doc, now).1),
{
}

/// Metadata of a delegated role of a lower version than the installed one is
/// never installed. Where the root, the snapshot and the targets metadata
/// are in order and the snapshot lists the role at another version than the
/// installed one, it is refused with a verification failure.
pub proof fn delegation_rollback_is_refused(
    s: TufView,
    parent_role: Seq<char>,
    role: Seq<char>,
    doc: SignedView<TargetsView>,
    now: Instant,
)
    requires
        doc.metadata.version < s.delegation_version(role),
    ensures
        update_delegation_outcome(s, parent_role, role, doc, now).0 == s,
        update_delegation_outcome(s, parent_role, role, doc, now).1 != Ok::<bool, ErrorView>(
            true,
        ),
        !root_expired(s, now) && s.snapshot is Some && !s.snapshot->0.expires.at_or_before(now)
            && s.targets is Some && !s.targets->0.expires.at_or_before(now)
            && s.snapshot->0.meta.contains_key(role) && s.snapshot->0.meta[role].version
            != s.delegation_version(role) ==> is_verification_failure(
            update_delegation_outcome(s, parent_role, role, doc, now).1,
        ),
{
}

/// A root document of the trusted version that the trusted root's root role
/// has signed is no news.
pub proof fn same_root_version_is_no_news(s: TufView, doc: SignedView<RootView>)
    requires
        doc.metadata.version == s.root.version,
        signed_by_role(doc, s.root.keys, s.root.root) is Ok,
    ensures
        update_root_outcome(s, doc) == (s, Ok::<bool, ErrorView>(false)),
{
}

/// The root document that a state was made of is no news to that state.
pub proof fn trusted_root_is_no_news(doc: SignedView<RootView>)
    requires
        trusted_root_outcome(doc) is Ok,
    ensures
        update_root_outcome(trusted_root_outcome(doc)->Ok_0, doc) == (
            trusted_root_outcome(doc)->Ok_0,
            Ok::<bool, ErrorView>(false),
        ),
{
}

/// The root document that an update installed is no news after it.
pub proof fn installed_root_is_no_news(s: TufView, doc: SignedView<RootView>)
    requires
        update_root_outcome(s, doc).1 == Ok::<bool, ErrorView>(true),
    ensures
        update_root_outcome(update_root_outcome(s, doc).0, doc) == (
            update_root_outcome(s, doc).0,
            Ok::<bool, ErrorView>(false),
        ),
{
}

/// A timestamp of the installed version that the timestamp role has signed
/// and that has not expired is no news.
pub proof fn same_timestamp_version_is_no_news(
    s: TufView,
    doc: SignedView<TimestampView>,
    now: Instant,
)
    requires
        doc.metadata.version == s.timestamp_version(),
        signed_by_role(doc, s.root.keys, s.root.timestamp) is Ok,
        !doc.metadata.expires.at_or_before(now),
    ensures
        update_timestamp_outcome(s, doc, now) == (
            s,
            Ok::<Option<TimestampView>, ErrorView>(None),
        ),
{
}

/// The timestamp that an update installed is no news after it, as long as it
/// has not expired.
pub proof fn installed_timestamp_is_no_news(
    s: TufView,
    doc: SignedView<TimestampView>,
    now: Instant,
    later: Instant,
)
    requires
        update_timestamp_outcome(s, doc, now).1 is Ok,
        update_timestamp_outcome(s, doc, now).1->Ok_0 is Some,
        !doc.metadata.expires.at_or_before(later),
    ensures
        update_timestamp_outcome(update_timestamp_outcome(s, doc, now).0, doc, later) == (
            update_timestamp_outcome(s, doc, now).0,
            Ok::<Option<TimestampView>, ErrorView>(None),
        ),
{
}

/// While the installed snapshot is the one that the timestamp names, any
/// snapshot offered is no news, the installed one among them.
pub proof fn same_snapshot_version_is_no_news(
    s: TufView,
    doc: SignedView<SnapshotView>,
    now: Instant,
)
    requires
        coherent(s),
        s.snapshot is Some,
        !root_expired(s, now),
        !s.timestamp->0.expires.at_or_before(now),
    ensures
        update_snapshot_outcome(s, doc, now) == (s, Ok::<bool, ErrorView>(false)),
{
}

/// While the installed targets metadata is the one that the snapshot lists,
/// any targets metadata offered is no news, the installed one among them.
pub proof fn same_targets_version_is_no_news(s: TufView, doc: SignedView<TargetsView>, now: Instant)
    requires
        coherent(s),
        s.snapshot is Some,
        s.targets is Some,
        s.snapshot->0.meta.contains_key("targets"@),
        !root_expired(s, now),
        !s.snapshot->0.expires.at_or_before(now),
    ensures
        update_targets_outcome(s, doc, now) == (s, Ok::<bool, ErrorView>(false)),
{
}

/// The snapshot that an update installed is no news after it, while the
/// root and the timestamp are in order.
pub proof fn installed_snapshot_is_no_news(
    s: TufView,
    doc: SignedView<SnapshotView>,
    now: Instant,
    later: Instant,
)
    requires
        update_snapshot_outcome(s, doc, now).1 == Ok::<bool, ErrorView>(true),
        !root_expired(s, later),
        !s.timestamp->0.expires.at_or_before(later),
    ensures
        update_snapshot_outcome(update_snapshot_outcome(s, doc, now).0, doc, later) == (
            update_snapshot_outcome(s, doc, now).0,
            Ok::<bool, ErrorView>(false),
        ),
{
}

/// The targets metadata that an update installed is no news after it, while
/// the root and the snapshot are in order.
pub proof fn installed_targets_are_no_news(
    s: TufView,
    doc: SignedView<TargetsView>,
    now: Instant,
    later: Instant,
)
    requires
        update_targets_outcome(s, doc, now).1 == Ok::<bool, ErrorView>(true),
        !root_expired(s, later),
        !s.snapshot->0.expires.at_or_before(later),
    ensures
        update_targets_outcome(update_targets_outcome(s, doc, now).0, doc, later) == (
            update_targets_outcome(s, doc, now).0,
            Ok::<bool, ErrorView>(false),
        ),
{
}

/// The metadata of a delegated role that an update installed is no news
/// after it, while the root, the snapshot and the targets metadata are in
/// order. The role must not have been its own parent.
pub proof fn installed_delegation_is_no_news(
    s: TufView,
    parent_role: Seq<char>,
    role: Seq<char>,
    doc: SignedView<TargetsView>,
    now: Instant,
    later: Instant,
)
    requires
        update_delegation_outcome(s, parent_role, role, doc, now).1 == Ok::<bool, ErrorView>(
            true,
        ),
        parent_role != role,
        !root_expired(s, later),
        !s.snapshot->0.expires.at_or_before(later),
        !s.targets->0.expires.at_or_before(later),
    ensures
        update_delegation_outcome(
            update_delegation_outcome(s, parent_role, role, doc, now).0,
            parent_role,
            role,
            doc,
            later,
        ) == (
            update_delegation_outcome(s, parent_role, role, doc, now).0,
            Ok::<bool, ErrorView>(false),
        ),
{
}

/// A fresh state is coherent, and every operation keeps a coherent state
/// coherent.
pub proof fn coherence_is_kept(
    s: TufView,
    root: SignedView<RootView>,
    timestamp: SignedView<TimestampView>,
    snapshot: SignedView<SnapshotView>,
    targets: SignedView<TargetsView>,
    parent_role: Seq<char>,
    role: Seq<char>,
    now: Instant,
)
    ensures
        coherent(TufView::fresh(root.metadata)),
        coherent(s) ==> coherent(update_root_outcome(s, root).0),
        coherent(s) ==> coherent(update_timestamp_outcome(s, timestamp, now).0),
        coherent(s) ==> coherent(update_snapshot_outcome(s, snapshot, now).0),
        coherent(s) ==> coherent(update_targets_outcome(s, targets, now).0),
        coherent(s) ==> coherent(update_delegation_outcome(s, parent_role, role, targets, now).0),
{
}

/// A root document in which no signature is one of a key of the trusted
/// root's root role is refused, whoever else has signed it: the threshold is
/// not met, with no good key.
pub proof fn root_without_cross_signature_is_refused(s: TufView, doc: SignedView<RootView>)
    requires
        valid_root(s.root),
        forall|i: int|
            0 <= i < doc.signatures.len() ==> !counts(
                #[trigger] doc.signatures[i],
                s.root.keys.restrict(s.root.root.key_ids),
                doc.canonical,
            ),
    ensures
        update_root_outcome(s, doc) == (
            s,
            Err::<bool, ErrorView>(
                ErrorView::VerificationFailure(threshold_text(0, s.root.root.threshold as nat)),
            ),
        ),
{
    let good = good_key_ids(
        doc.signatures,
        s.root.keys.restrict(s.root.root.key_ids),
        doc.canonical,
    );
    assert(good =~= Set::<Seq<u8>>::empty());
}

/// A new root leaves no snapshot, targets metadata, timestamp or delegated
/// metadata installed.
pub proof fn new_root_clears_the_rest(s: TufView, doc: SignedView<RootView>)
    requires
        update_root_outcome(s, doc).1 == Ok::<bool, ErrorView>(true),
    ensures
        update_root_outcome(s, doc).0 == TufView::fresh(doc.metadata),
        update_root_outcome(s, doc).0.snapshot is None,
        update_root_outcome(s, doc).0.targets is None,
        update_root_outcome(s, doc).0.timestamp is None,
        update_root_outcome(s, doc).0.delegations == Map::<Seq<char>, TargetsView>::empty(),
{
}

/// Without a timestamp no snapshot is taken, and without a snapshot no
/// targets metadata: while the root is in order, each is refused for want of
/// the other.
pub proof fn documents_come_in_order(
    s: TufView,
    snapshot: SignedView<SnapshotView>,
    targets: SignedView<TargetsView>,
    now: Instant,
)
    requires
        !root_expired(s, now),
    ensures
        s.timestamp is None ==> update_snapshot_outcome(s, snapshot, now) == (
            s,
            Err::<bool, ErrorView>(ErrorView::MissingMetadata(Role::Timestamp)),
        ),
        s.snapshot is None ==> update_targets_outcome(s, targets, now) == (
            s,
            Err::<bool, ErrorView>(ErrorView::MissingMetadata(Role::Snapshot)),
        ),
{
}

/// A timestamp, targets metadata or delegated metadata that has expired is
/// never installed.
pub proof fn expired_documents_are_not_installed(
    s: TufView,
    timestamp: SignedView<TimestampView>,
    targets: SignedView<TargetsView>,
    parent_role: Seq<char>,
    role: Seq<char>,
    now: Instant,
)
    ensures
        timestamp.metadata.expires.at_or_before(now) ==> update_timestamp_outcome(
            s,
            timestamp,
            now,
        ).0 == s && update_timestamp_outcome(s, timestamp, now).1 is Err,
        targets.metadata.expires.at_or_before(now) ==> update_targets_outcome(s, targets, now).0
            == s && update_targets_outcome(s, targets, now).1 != Ok::<bool, ErrorView>(true),
        targets.metadata.expires.at_or_before(now) ==> update_delegation_outcome(
            s,
            parent_role,
            role,
            targets,
            now,
        ).0 == s && update_delegation_outcome(s, parent_role, role, targets, now).1 != Ok::<
            bool,
            ErrorView,
        >(true),
{
}

/// Whether a snapshot is installed does not depend on when it expires.
pub proof fn snapshot_expiry_is_not_asked(
    s: TufView,
    doc: SignedView<SnapshotView>,
    expires: Instant,
    now: Instant,
)
    ensures
        ({
            let other = SignedView {
                metadata: SnapshotView { expires: expires, ..doc.metadata },
                ..doc
            };
            update_snapshot_outcome(s, other, now).1 == update_snapshot_outcome(s, doc, now).1
        }),
{
}

} // verus!
