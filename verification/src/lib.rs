//! Client-side trust engine for The Update Framework (TUF).
//!
//! The crate holds the trusted view of a repository's signed metadata, checks
//! new documents against it, and answers queries about target files.
//!
//! * [`tuf`] is the engine: the trusted state, the operations that offer it
//!   new documents, and the search for the description of a target.
//! * [`metadata`] holds the documents, [`path`] the names of roles and
//!   targets and the patterns of delegations, and [`table`] the keyed
//!   collections that the documents are made of.
//! * [`verify`] counts the keys that have signed a message, and [`crypto`]
//!   holds keys and signatures; [`rsa`] reads RSA keys, and [`hex`] and
//!   [`text`] say what hexadecimal and decimal text is.
//! * [`guarantees`] states what holds of the engine whatever it is offered.
//!
//! Every operation of the engine is specified by a function from the state
//! before it, as contracts see it, to the state after it and the answer.
//! Hashing, signature verification and the clock come from outside the
//! crate; the contracts say so where they rest on them.

pub mod crypto;
pub mod error;
pub mod guarantees;
pub mod hex;
pub mod messages;
pub mod metadata;
pub mod path;
pub mod rsa;
pub mod table;
pub mod text;
pub mod time;
pub mod tuf;
pub mod verify;
