//! The texts of the errors that the trust engine reports.

use crate::error::Error;
use crate::error::ErrorView;
use crate::path::MetadataPath;
use crate::text::debug_string;
use crate::text::debug_text;
use crate::text::decimal;
use crate::text::decimal_string;
use vstd::prelude::*;

verus! {

/// A document of the kind `name` at version `to` was offered where version
/// `from` is installed.
pub open spec fn rollback_text(name: Seq<char>, from: u32, to: u32) -> Seq<char> {
    "Attempted to roll back "@ + name + " metadata at version "@ + decimal(from as nat) + " to "@
        + decimal(to as nat) + "."@
}

/// The `reporter` metadata lists the `name` metadata at version `expected`,
/// and the document offered has version `found`.
pub open spec fn mismatch_text(reporter: Seq<char>, name: Seq<char>, expected: u32, found: u32)
    -> Seq<char> {
    "The "@ + reporter + " metadata reported that the "@ + name
        + " metadata should be at version "@ + decimal(expected as nat) + " but version "@
        + decimal(found as nat) + " was found instead."@
}

/// The snapshot lists no targets metadata.
pub open spec fn no_targets_text() -> Seq<char> {
    "Snapshot metadata had no description of the targets metadata"@
}

/// The targets metadata has no delegations.
pub open spec fn not_authorized_text() -> Seq<char> {
    "Delegations not authorized"@
}

/// The snapshot does not list the delegated role.
pub open spec fn unlisted_text(role: Seq<char>) -> Seq<char> {
    "The delegated role "@ + debug_text(role) + " was not present in the snapshot metadata."@
}

/// The snapshot lists the delegated role at version `listed`, below the
/// version `current` that is installed.
pub open spec fn stale_listing_text(role: Seq<char>, listed: u32, current: u32) -> Seq<char> {
    "Snapshot metadata listed delegation "@ + debug_text(role) + " version as "@ + decimal(
        listed as nat,
    ) + " but current version is "@ + decimal(current as nat)
}

/// No trusted metadata delegates to the role.
pub open spec fn unknown_role_text(role: Seq<char>) -> Seq<char> {
    "The delegated role "@ + debug_text(role)
        + " is not known to the base targets metadata or any known delegated targets metadata"@
}

/// The snapshot lists the delegated role at version `expected`, and the
/// document offered has version `found`.
pub open spec fn delegation_mismatch_text(role: Seq<char>, expected: u32, found: u32) -> Seq<
    char,
> {
    "The snapshot metadata reported that the delegation "@ + debug_text(role)
        + " should be at version "@ + decimal(expected as nat) + " but version "@ + decimal(
        found as nat,
    ) + " was found instead."@
}

/// The error for a document of a lower version than the installed one.
pub fn rollback_error(name: &str, from: u32, to: u32) -> (e: Error)
    ensures
        e@ == ErrorView::VerificationFailure(rollback_text(name@, from, to)),
{
    let mut text = String::from_str("Attempted to roll back ");
    text.append(name);
    text.append(" metadata at version ");
    text.append(decimal_string(from as usize).as_str());
    text.append(" to ");
    text.append(decimal_string(to as usize).as_str());
    text.append(".");
    Error::VerificationFailure(text)
}

/// The error for a document of another version than the one listed for it.
pub fn mismatch_error(reporter: &str, name: &str, expected: u32, found: u32) -> (e: Error)
    ensures
        e@ == ErrorView::VerificationFailure(mismatch_text(reporter@, name@, expected, found)),
{
    let mut text = String::from_str("The ");
    text.append(reporter);
    text.append(" metadata reported that the ");
    text.append(name);
    text.append(" metadata should be at version ");
    text.append(decimal_string(expected as usize).as_str());
    text.append(" but version ");
    text.append(decimal_string(found as usize).as_str());
    text.append(" was found instead.");
    Error::VerificationFailure(text)
}

/// The error for a delegated role that the snapshot does not list.
pub fn unlisted_error(role: &MetadataPath) -> (e: Error)
    ensures
        e@ == ErrorView::VerificationFailure(unlisted_text(role@)),
{
    let mut text = String::from_str("The delegated role ");
    text.append(debug_string(role.value()).as_str());
    text.append(" was not present in the snapshot metadata.");
    Error::VerificationFailure(text)
}

/// The error for a delegated role that the snapshot lists below the installed
/// version.
pub fn stale_listing_error(role: &MetadataPath, listed: u32, current: u32) -> (e: Error)
    ensures
        e@ == ErrorView::VerificationFailure(stale_listing_text(role@, listed, current)),
{
    let mut text = String::from_str("Snapshot metadata listed delegation ");
    text.append(debug_string(role.value()).as_str());
    text.append(" version as ");
    text.append(decimal_string(listed as usize).as_str());
    text.append(" but current version is ");
    text.append(decimal_string(current as usize).as_str());
    Error::VerificationFailure(text)
}

/// The error for a delegated role that no trusted metadata delegates to.
pub fn unknown_role_error(role: &MetadataPath) -> (e: Error)
    ensures
        e@ == ErrorView::VerificationFailure(unknown_role_text(role@)),
{
    let mut text = String::from_str("The delegated role ");
    text.append(debug_string(role.value()).as_str());
    text.append(
        " is not known to the base targets metadata or any known delegated targets metadata",
    );
    Error::VerificationFailure(text)
}

/// The error for delegated metadata of another version than the snapshot
/// lists.
pub fn delegation_mismatch_error(role: &MetadataPath, expected: u32, found: u32) -> (e: Error)
    ensures
        e@ == ErrorView::VerificationFailure(delegation_mismatch_text(role@, expected, found)),
{
    let mut text = String::from_str("The snapshot metadata reported that the delegation ");
    text.append(debug_string(role.value()).as_str());
    text.append(" should be at version ");
    text.append(decimal_string(expected as usize).as_str());
    text.append(" but version ");
    text.append(decimal_string(found as usize).as_str());
    text.append(" was found instead.");
    Error::VerificationFailure(text)
}

} // verus!
