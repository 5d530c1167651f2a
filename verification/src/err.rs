//! The single failure signal of the builder.
//!
//! Every error here marks a condition the design treats as fatal for the
//! caller: a broken key source, a broken signing path, or a host clock
//! outside the range the certificate format can carry.

use vstd::prelude::*;

verus! {

#[derive(Clone, Copy, Debug, PartialEq, Eq, Structural)]
pub enum CertError {
    /// The key source could not produce a fresh key pair.
    KeyGenFailed,
    /// The signing primitive rejected the key or failed to sign.
    SignFailed,
    /// The host clock reads before the Unix epoch.
    ClockBeforeEpoch,
    /// A validity timestamp falls outside the years UTCTime can express.
    TimeOutOfRange,
}

} // verus!
