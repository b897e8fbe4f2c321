//! The errors that the library reports.

use vstd::prelude::*;

verus! {

/// The four top-level roles.
#[derive(Clone, Copy, Debug, PartialEq, Eq, Hash, Structural)]
pub enum Role {
    Root,
    Snapshot,
    Targets,
    Timestamp,
}

#[derive(Debug, PartialEq, Eq)]
pub enum Error {
    /// A single signature did not verify.
    BadSignature,
    /// An input could not be decoded.
    Decode(String),
    /// The role's metadata has expired.
    ExpiredMetadata(Role),
    /// An argument was malformed.
    IllegalArgument(String),
    /// A role that the operation builds on is not present.
    MissingMetadata(Role),
    /// No trusted description of the target was found.
    TargetUnavailable,
    /// The key type is not one the library knows.
    UnsupportedKeyType(String),
    /// The signature scheme is not one the library knows.
    UnsupportedSignatureScheme(String),
    /// The metadata did not pass verification.
    VerificationFailure(String),
}

/// An [`Error`] as contracts see it: the variant, and the text it carries.
pub ghost enum ErrorView {
    BadSignature,
    Decode(Seq<char>),
    ExpiredMetadata(Role),
    IllegalArgument(Seq<char>),
    MissingMetadata(Role),
    TargetUnavailable,
    UnsupportedKeyType(Seq<char>),
    UnsupportedSignatureScheme(Seq<char>),
    VerificationFailure(Seq<char>),
}

impl View for Error {
    type V = ErrorView;

    open spec fn view(&self) -> ErrorView {
        match self {
            Error::BadSignature => ErrorView::BadSignature,
            Error::Decode(s) => ErrorView::Decode(s@),
            Error::ExpiredMetadata(r) => ErrorView::ExpiredMetadata(*r),
            Error::IllegalArgument(s) => ErrorView::IllegalArgument(s@),
            Error::MissingMetadata(r) => ErrorView::MissingMetadata(*r),
            Error::TargetUnavailable => ErrorView::TargetUnavailable,
            Error::UnsupportedKeyType(s) => ErrorView::UnsupportedKeyType(s@),
            Error::UnsupportedSignatureScheme(s) => ErrorView::UnsupportedSignatureScheme(s@),
            Error::VerificationFailure(s) => ErrorView::VerificationFailure(s@),
        }
    }
}

impl Clone for Error {
    fn clone(&self) -> (r: Self)
        ensures
            r@ == self@,
    {
        match self {
            Error::BadSignature => Error::BadSignature,
            Error::Decode(s) => Error::Decode(s.clone()),
            Error::ExpiredMetadata(r) => Error::ExpiredMetadata(*r),
            Error::IllegalArgument(s) => Error::IllegalArgument(s.clone()),
            Error::MissingMetadata(r) => Error::MissingMetadata(*r),
            Error::TargetUnavailable => Error::TargetUnavailable,
            Error::UnsupportedKeyType(s) => Error::UnsupportedKeyType(s.clone()),
            Error::UnsupportedSignatureScheme(s) => Error::UnsupportedSignatureScheme(s.clone()),
            Error::VerificationFailure(s) => Error::VerificationFailure(s.clone()),
        }
    }
}

/// Whether the result `r` is the outcome `expected`: the same value, or an
/// error with the same variant and text.
pub open spec fn agrees<T>(r: Result<T, Error>, expected: Result<T, ErrorView>) -> bool {
    match r {
        Ok(a) => expected == Ok::<T, ErrorView>(a),
        Err(e) => expected == Err::<T, ErrorView>(e@),
    }
}

impl Error {
    /// A decoding error with the given text.
    pub fn decode(text: &str) -> (e: Error)
        ensures
            e@ == ErrorView::Decode(text@),
    {
        Error::Decode(String::from_str(text))
    }

    /// An illegal-argument error with the given text.
    pub fn illegal_argument(text: &str) -> (e: Error)
        ensures
            e@ == ErrorView::IllegalArgument(text@),
    {
        Error::IllegalArgument(String::from_str(text))
    }

    /// A verification failure with the given text.
    pub fn verification_failure(text: &str) -> (e: Error)
        ensures
            e@ == ErrorView::VerificationFailure(text@),
    {
        Error::VerificationFailure(String::from_str(text))
    }
}

} // verus!
