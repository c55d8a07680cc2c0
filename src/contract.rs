//! Running commands against the store: each one loads the record of its user,
//! changes it, and writes it back whole, or fails and writes nothing.

use vstd::prelude::*;
use crate::operation::{apply_operation, op_auth_id, user_after, FlowsError, Operation};
use crate::state::SolverFlowsState;
use crate::types::UserView;

verus! {

/// The record stored for `auth_id`, if any.
pub open spec fn stored(m: Map<Seq<char>, UserView>, auth_id: Seq<char>) -> Option<UserView> {
    if m.contains_key(auth_id) {
        Some(m[auth_id])
    } else {
        None
    }
}

/// The store after `op`, or the error that `op` fails with.
pub open spec fn store_after(m: Map<Seq<char>, UserView>, op: Operation) -> Result<
    Map<Seq<char>, UserView>,
    FlowsError,
> {
    match user_after(stored(m, op_auth_id(op)), op) {
        Ok(u) => Ok(m.insert(op_auth_id(op), u)),
        Err(e) => Err(e),
    }
}

/// Executes commands against a store that it owns.
pub struct SolverFlowsContract {
    state: SolverFlowsState,
}

impl View for SolverFlowsContract {
    type V = Map<Seq<char>, UserView>;

    closed spec fn view(&self) -> Map<Seq<char>, UserView> {
        self.state@
    }
}

impl SolverFlowsContract {
    pub closed spec fn wf(&self) -> bool {
        self.state.wf()
    }

    /// Takes over `state`.
    pub fn load(state: SolverFlowsState) -> (r: Self)
        requires
            state.wf(),
        ensures
            r.wf(),
            r@ == state@,
    {
        SolverFlowsContract { state }
    }

    /// Applies `op` to the store. On an error the store is left as it was.
    pub fn execute_operation(&mut self, op: Operation) -> (r: Result<(), FlowsError>)
        requires
            old(self).wf(),
        ensures
            final(self).wf(),
            match store_after(old(self)@, op) {
                Ok(m) => r is Ok && final(self)@ == m,
                Err(e) => r == Err::<(), FlowsError>(e) && final(self)@ == old(self)@,
            },
    {
        let auth_id = op.auth_id().clone();
        let current = self.state.get(&auth_id);
        match apply_operation(current, op) {
            Ok(user) => {
                self.state.insert(auth_id, user);
                Ok(())
            },
            Err(e) => Err(e),
        }
    }

    /// Hands back the store.
    pub fn store(self) -> (r: SolverFlowsState)
        requires
            self.wf(),
        ensures
            r.wf(),
            r@ == self@,
    {
        self.state
    }
}

} // verus!
