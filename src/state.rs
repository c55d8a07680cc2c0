//! The store: one record per user id, read and overwritten whole.

use vstd::prelude::*;
use crate::types::{AuthUserType, UserView};

verus! {

struct FlowEntry {
    key: String,
    user: AuthUserType,
}

/// A mapping from user id to that user's record.
pub struct SolverFlowsState {
    flows: Vec<FlowEntry>,
    contents: Ghost<Map<Seq<char>, UserView>>,
}

impl View for SolverFlowsState {
    type V = Map<Seq<char>, UserView>;

    closed spec fn view(&self) -> Map<Seq<char>, UserView> {
        self.contents@
    }
}

impl SolverFlowsState {
    /// Each stored id appears once, and the entries are exactly the view.
    pub closed spec fn wf(&self) -> bool {
        &&& forall|i: int, j: int|
            0 <= i < j < self.flows@.len() ==> #[trigger] self.flows@[i].key@ != #[trigger] self.flows@[j].key@
        &&& forall|i: int|
            0 <= i < self.flows@.len() ==> {
                &&& self.contents@.contains_key(#[trigger] self.flows@[i].key@)
                &&& self.contents@[self.flows@[i].key@] == self.flows@[i].user@
            }
        &&& forall|k: Seq<char>|
            #[trigger] self.contents@.contains_key(k) ==> exists|i: int|
                0 <= i < self.flows@.len() && self.flows@[i].key@ == k
    }

    /// An empty store.
    pub fn new() -> (r: Self)
        ensures
            r.wf(),
            r@ == Map::<Seq<char>, UserView>::empty(),
    {
        SolverFlowsState { flows: Vec::new(), contents: Ghost(Map::empty()) }
    }

    /// Where `auth_id` is stored, if it is.
    fn position(&self, auth_id: &String) -> (r: Option<usize>)
        requires
            self.wf(),
        ensures
            match r {
                Some(i) => i < self.flows@.len() && self.flows@[i as int].key@ == auth_id@,
                None => !self@.contains_key(auth_id@),
            },
    {
        let n = self.flows.len();
        let mut i: usize = 0;
        while i < n
            invariant
                n == self.flows@.len(),
                i <= n,
                forall|j: int| 0 <= j < i ==> #[trigger] self.flows@[j].key@ != auth_id@,
            decreases n - i,
        {
            if self.flows[i].key == *auth_id {
                return Some(i);
            }
            i = i + 1;
        }
        None
    }

    /// A copy of the record stored for `auth_id`, if there is one.
    pub fn get(&self, auth_id: &String) -> (r: Option<AuthUserType>)
        requires
            self.wf(),
        ensures
            match r {
                Some(u) => self@.contains_key(auth_id@) && u@ == self@[auth_id@],
                None => !self@.contains_key(auth_id@),
            },
    {
        match self.position(auth_id) {
            Some(i) => Some(self.flows[i].user.clone()),
            None => None,
        }
    }

    /// Stores `user` under `auth_id`, replacing any record stored there.
    pub fn insert(&mut self, auth_id: String, user: AuthUserType)
        requires
            old(self).wf(),
        ensures
            final(self).wf(),
            final(self)@ == old(self)@.insert(auth_id@, user@),
    {
        let ghost k = auth_id@;
        let ghost v = user@;
        let pos = self.position(&auth_id);
        let ghost idx: int = match pos {
            Some(i) => i as int,
            None => old(self).flows@.len() as int,
        };
        match pos {
            Some(i) => {
                self.flows.set(i, FlowEntry { key: auth_id, user });
            },
            None => {
                self.flows.push(FlowEntry { key: auth_id, user });
            },
        }
        self.contents = Ghost(self.contents@.insert(k, v));
        assert(self.flows@[idx].key@ == k);
        assert forall|q: Seq<char>| #[trigger] self.contents@.contains_key(q) implies exists|i: int|
            0 <= i < self.flows@.len() && self.flows@[i].key@ == q by {
            if q != k {
                let i = choose|i: int| 0 <= i < old(self).flows@.len() && old(self).flows@[i].key@ == q;
                assert(self.flows@[i].key@ == q);
            }
        }
    }
}

} // verus!
