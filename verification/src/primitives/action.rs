use vstd::prelude::*;
use crate::primitives::hashing::{blake2_256, hash_bytes};
use crate::primitives::types::{ContentHash, RealCallId};

verus! {

/// An opaque unit of work that a DAO may run on its own behalf.
///
/// The engines never read the payload. They hash it, look up the policy of
/// its kind, and hand it back to be run.
#[derive(Clone, Debug, PartialEq, Eq)]
pub struct Action {
    /// The kind of the action, where the registry of kinds knows it.
    pub call_id: Option<RealCallId>,
    /// The encoded payload.
    pub data: Vec<u8>,
}

/// The mathematical content of an `Action`.
pub struct ActionView {
    pub call_id: Option<RealCallId>,
    pub data: Seq<u8>,
}

impl View for Action {
    type V = ActionView;

    open spec fn view(&self) -> ActionView {
        ActionView { call_id: self.call_id, data: self.data@ }
    }
}

impl ActionView {
    /// The content hash of the action: the digest of its payload.
    pub open spec fn hash(self) -> Seq<u8> {
        blake2_256(self.data)
    }
}

impl Action {
    /// The content hash of the action.
    pub fn hash(&self) -> (h: ContentHash)
        ensures
            h@ == self@.hash(),
    {
        hash_bytes(&self.data)
    }

    /// The kind of the action, or `None` where it has none.
    pub fn resolve_call_id(&self) -> (r: Option<RealCallId>)
        ensures
            r == self@.call_id,
    {
        self.call_id
    }
}

} // verus!
