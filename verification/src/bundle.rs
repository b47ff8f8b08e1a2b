//! The records exchanged with the hook service: the submission of a bundle
//! and the status reported for it later.
//!
//! A bundle is an ordered sequence of transactions, each an opaque blob of
//! bytes. The order is the intended execution order; nothing here reorders,
//! merges or drops a transaction.

use crate::error::{ExecutionErrorView, RpcBundleExecutionError};
use vstd::prelude::*;

verus! {

/// What a client sends to have a bundle executed.
#[derive(Debug, Clone)]
pub struct VHookSubmitBundleRequest {
    /// Token chosen by the client, one per logical submission.
    pub uuid: String,
    /// Credential, passed on as it is.
    pub auth_code: String,
    /// The transactions, in execution order.
    pub transactions: Vec<Vec<u8>>,
}

/// A bundle as the hook hands it on: the same fields as the submission.
#[derive(Debug, Clone)]
pub struct HookedBundle {
    pub uuid: String,
    pub auth_code: String,
    pub transactions: Vec<Vec<u8>>,
}

/// A bundle under the identifier that the service gave it.
#[derive(Debug, Clone)]
pub struct JitoBundle {
    pub bundle_id: String,
    /// The transactions, in execution order, each in its serialized form.
    pub transactions: Vec<Vec<u8>>,
}

/// What the service reports of a bundle submitted earlier.
#[derive(Debug, Clone)]
pub struct VHookBundleStatus {
    pub bundle_id: String,
    /// Milliseconds since the Unix epoch.
    pub executed_at: u64,
    /// The encoded execution error; absent when none was recorded.
    pub serialized_error: Option<Vec<u8>>,
}

impl VHookSubmitBundleRequest {
    /// True when the request carries at least one transaction.
    pub open spec fn is_well_formed(&self) -> bool {
        self.transactions@.len() > 0
    }

    /// Builds a request, or `None` where there is no transaction to submit.
    /// The transactions are kept as given, in their order.
    pub fn new(uuid: String, auth_code: String, transactions: Vec<Vec<u8>>) -> (request: Option<
        Self,
    >)
        ensures
            request is Some <==> transactions@.len() > 0,
            request matches Some(built) ==> {
                &&& built.uuid == uuid
                &&& built.auth_code == auth_code
                &&& built.transactions == transactions
                &&& built.is_well_formed()
            },
    {
        if transactions.len() == 0 {
            None
        } else {
            Some(VHookSubmitBundleRequest { uuid, auth_code, transactions })
        }
    }

    /// Tells whether the request carries at least one transaction.
    pub fn has_transactions(&self) -> (present: bool)
        ensures
            present == self.is_well_formed(),
    {
        self.transactions.len() > 0
    }
}

impl VHookBundleStatus {
    /// The error that the record carries: what its bytes decode to, and
    /// nothing where there are no bytes or they do not decode.
    pub open spec fn spec_error(&self) -> Option<ExecutionErrorView> {
        match self.serialized_error {
            Some(bytes) => ExecutionErrorView::deserialize(bytes@),
            None => None,
        }
    }

    /// Decodes the carried error on demand. An absent error and bytes that do
    /// not decode both give `None`.
    pub fn try_get_error(&self) -> (error: Option<RpcBundleExecutionError>)
        ensures
            match error {
                Some(e) => self.spec_error() == Some(e@),
                None => self.spec_error() is None,
            },
            self.serialized_error is None ==> error is None,
    {
        match &self.serialized_error {
            Some(bytes) => RpcBundleExecutionError::deserialize(bytes.as_slice()),
            None => None,
        }
    }

    /// A status that carries the binary form of an error reports that error.
    pub proof fn lemma_carried_error_is_reported(self, error: ExecutionErrorView)
        requires
            error.is_encodable(),
            self.serialized_error matches Some(bytes) && bytes@ == error.serialize(),
        ensures
            self.spec_error() == Some(error),
    {
        error.lemma_round_trip(Seq::empty());
        assert(error.serialize() + Seq::<u8>::empty() =~= error.serialize());
    }
}

} // verus!
