//! The boundary between callers in other languages and a post-quantum
//! signature scheme with aggregation.
//!
//! A caller on the other side of the boundary passes pointers and lengths,
//! and gets back an integer code. This crate holds everything that is decided
//! on the way: which pointers and lengths are accepted, in which order faults
//! are reported, what is put to the scheme, what becomes of the scheme's
//! answer, and which code stands for each outcome.
//!
//! Raw memory is not touched here. A pointer to input is an `Option` of the
//! memory behind it, a pointer to output is its address, and what an
//! operation produces is returned as a value. The schemes themselves are
//! outside as well: each operation yields a request for the scheme, and
//! takes the scheme's answer to finish.
//!
//! - [`error`]: the outcome codes.
//! - [`buffer`]: the checks on input pointers and lengths.
//! - [`output`]: the check on output pointers, the hand-over of produced bytes,
//!   and their release.
//! - [`guard`]: from the end of an operation's body to its code.
//! - [`capability`]: the answers of the schemes.
//! - [`signature`]: key generation, signing, verification.
//! - [`aggregation`]: aggregation and its verification.

pub mod aggregation;
pub mod buffer;
pub mod capability;
pub mod error;
pub mod guard;
pub mod output;
pub mod signature;

pub use aggregation::{
    leanmultisig_aggregate, leanmultisig_aggregate_finish, leanmultisig_verify_aggregate,
    leanmultisig_verify_aggregate_finish,
};
pub use buffer::{LeanBuffer, MESSAGE_LENGTH};
pub use error::LeanCryptoError;
pub use output::lean_free;
pub use signature::{
    leansig_key_gen, leansig_key_gen_finish, leansig_sign, leansig_sign_finish, leansig_verify,
    leansig_verify_finish,
};
