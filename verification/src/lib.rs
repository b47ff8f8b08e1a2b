//! Wire contract between a bundle-submitting client and the validator-side
//! hook service: the signature codec, the execution-error taxonomy and its
//! binary form, and the submission and status records.

use vstd::prelude::*;

pub mod base58;
pub mod bundle;
pub mod clock;
pub mod error;
pub mod signature;
pub mod wire;

pub use bundle::{HookedBundle, JitoBundle, VHookBundleStatus, VHookSubmitBundleRequest};
pub use error::{ExecutionErrorView, RpcBundleExecutionError};
pub use signature::{DecodeError, SerializedSignature};

verus! {

/// The wall clock in milliseconds since the Unix epoch, or `None` where the
/// clock is set before the epoch.
///
/// The clock is read once, and the result is what [`clock::stamp_of_reading`]
/// makes of that reading. Which reading it was is not known here.
pub fn get_unix_epoch() -> (stamp: Option<u64>)
    ensures
        exists|reading: Option<u128>| stamp == #[trigger] clock::spec_stamp(reading),
        stamp matches Some(t) ==> exists|millis: u128|
            t == #[trigger] clock::spec_epoch_millis(millis),
{
    let reading = match clock::elapsed_since_epoch() {
        Ok(elapsed) => Some(clock::whole_millis(&elapsed)),
        Err(_) => None,
    };
    clock::stamp_of_reading(reading)
}

} // verus!
