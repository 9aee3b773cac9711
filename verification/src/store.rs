//! The operation store: durable, keyed storage of in-flight operations.
//!
//! Every operation lives under its own identifier — the store is a mapping,
//! never a single shared slot — so a mutation scoped to one identifier can
//! never read or write another operation's entry.  Its abstract state is a
//! `Map` from identifier to operation model, and every method's contract is
//! stated over that map.

use crate::types::CurrentSwapOperation;
use crate::types::OpModel;
use crate::types::SwapError;
use std::collections::HashMap;
use vstd::prelude::*;

verus! {

broadcast use vstd::std_specs::hash::group_hash_axioms;

/// Keyed storage of in-flight swap operations, one entry per identifier.
pub struct OperationStore {
    entries: HashMap<u64, CurrentSwapOperation>,
}

impl View for OperationStore {
    type V = Map<u64, OpModel>;

    closed spec fn view(&self) -> Map<u64, OpModel> {
        self.entries@.map_values(|op: CurrentSwapOperation| op@)
    }
}

impl OperationStore {
    /// An empty store.
    pub fn new() -> (s: OperationStore)
        ensures
            s@ == Map::<u64, OpModel>::empty(),
    {
        let s = OperationStore { entries: HashMap::new() };
        proof {
            assert(s@ =~= Map::<u64, OpModel>::empty());
        }
        s
    }

    /// Whether an entry exists under `operation_id`.
    pub fn contains(&self, operation_id: u64) -> (b: bool)
        ensures
            b == self@.contains_key(operation_id),
    {
        self.entries.contains_key(&operation_id)
    }

    /// Reads the operation stored under `operation_id`, if any.  Reading by
    /// one identifier reveals nothing about, and never touches, any other.
    pub fn get(&self, operation_id: u64) -> (r: Option<&CurrentSwapOperation>)
        ensures
            match r {
                Some(op) => self@.contains_key(operation_id) && op@ == self@[operation_id],
                None => !self@.contains_key(operation_id),
            },
    {
        self.entries.get(&operation_id)
    }

    /// Creates the entry for a fresh identifier; fails with `DuplicateId`
    /// if one already exists under it, leaving the store unchanged.
    pub fn create(&mut self, operation_id: u64, op: CurrentSwapOperation) -> (r: Result<
        (),
        SwapError,
    >)
        ensures
            old(self)@.contains_key(operation_id) ==> r == Err::<(), SwapError>(
                SwapError::DuplicateId,
            ) && final(self)@ == old(self)@,
            !old(self)@.contains_key(operation_id) ==> r == Ok::<(), SwapError>(())
                && final(self)@ == old(self)@.insert(operation_id, op@),
    {
        if self.entries.contains_key(&operation_id) {
            return Err(SwapError::DuplicateId);
        }
        self.insert_new(operation_id, op);
        Ok(())
    }

    /// Creates the entry for an identifier known to be fresh.
    pub fn insert_new(&mut self, operation_id: u64, op: CurrentSwapOperation)
        requires
            !old(self)@.contains_key(operation_id),
        ensures
            final(self)@ == old(self)@.insert(operation_id, op@),
    {
        let ghost op_model = op@;
        self.entries.insert(operation_id, op);
        proof {
            assert(self@ =~= old(self)@.insert(operation_id, op_model));
        }
    }

    /// Removes and returns the entry under `operation_id`.  No other entry
    /// is affected.
    pub fn remove(&mut self, operation_id: u64) -> (r: Option<CurrentSwapOperation>)
        ensures
            final(self)@ == old(self)@.remove(operation_id),
            match r {
                Some(op) => old(self)@.contains_key(operation_id) && op@ == old(
                    self,
                )@[operation_id],
                None => !old(self)@.contains_key(operation_id),
            },
    {
        let r = self.entries.remove(&operation_id);
        proof {
            assert(self@ =~= old(self)@.remove(operation_id));
        }
        r
    }
}

} // verus!
