//! Read-only queries on the store.

use vstd::prelude::*;
use crate::contract::stored;
use crate::operation::{app_opt_view, FlowsError};
use crate::records::first_app;
use crate::state::SolverFlowsState;
use crate::types::{AppType, AppView, AuthUserType, UserView};

verus! {

/// The first app with id `app_id` of the user `auth_id`; `NotFound` where
/// the user has no record.
pub open spec fn app_of(m: Map<Seq<char>, UserView>, auth_id: Seq<char>, app_id: Seq<char>) -> Result<
    Option<AppView>,
    FlowsError,
> {
    match stored(m, auth_id) {
        Some(u) => Ok(first_app(u.apps, app_id)),
        None => Err(FlowsError::NotFound),
    }
}

/// Answers queries from a store that it owns.
pub struct SolverFlowsService {
    state: SolverFlowsState,
}

impl View for SolverFlowsService {
    type V = Map<Seq<char>, UserView>;

    closed spec fn view(&self) -> Map<Seq<char>, UserView> {
        self.state@
    }
}

impl SolverFlowsService {
    pub closed spec fn wf(&self) -> bool {
        self.state.wf()
    }

    /// Serves queries from `state`.
    pub fn new(state: SolverFlowsState) -> (r: Self)
        requires
            state.wf(),
        ensures
            r.wf(),
            r@ == state@,
    {
        SolverFlowsService { state }
    }

    /// The record of the user `auth_id`, or `NotFound`.
    pub fn get_auth_user(&self, auth_id: &String) -> (r: Result<AuthUserType, FlowsError>)
        requires
            self.wf(),
        ensures
            match r {
                Ok(u) => stored(self@, auth_id@) == Some(u@),
                Err(e) => e == FlowsError::NotFound && stored(self@, auth_id@) is None,
            },
    {
        match self.state.get(auth_id) {
            Some(u) => Ok(u),
            None => Err(FlowsError::NotFound),
        }
    }

    /// The first app with id `app_id` of the user `auth_id`, `None` where the
    /// user has no such app, or `NotFound` where the user has no record.
    pub fn get_app(&self, auth_id: &String, app_id: &String) -> (r: Result<Option<AppType>, FlowsError>)
        requires
            self.wf(),
        ensures
            match r {
                Ok(a) => app_of(self@, auth_id@, app_id@) == Ok::<Option<AppView>, FlowsError>(app_opt_view(a)),
                Err(e) => app_of(self@, auth_id@, app_id@) == Err::<Option<AppView>, FlowsError>(e),
            },
    {
        match self.state.get(auth_id) {
            Some(u) => Ok(u.find_app(app_id)),
            None => Err(FlowsError::NotFound),
        }
    }
}

} // verus!
