//! The commands that change a user's record, and what each one does to it.

use vstd::prelude::*;
use crate::records::{
    new_app_view, new_user_view, update_matching, with_deployed_api, with_is_public,
    with_nodes, with_react_flow, with_sandbox,
};
use crate::types::{
    nodes_view, AppDeployedApiDataType, AppNodesDataType, AppSandboxDataType, AppType, AppView,
    AuthUserType, UserView,
};

verus! {

/// Marker for the application's interface: its commands are `Operation`s.
pub struct SolverFlowsAbi;

/// Why a command or a query failed.
#[derive(Debug, Clone, Copy, PartialEq, Eq, Structural)]
pub enum FlowsError {
    /// No record is stored for the user id.
    NotFound,
}

/// A command on the record of the user `auth_id`.
#[derive(PartialEq, Debug)]
pub enum Operation {
    CreateUser { auth_id: String },
    UpdateReactFlow { auth_id: String, app_id: String, react_flow: String },
    CreateApp { auth_id: String, app_id: String, name: String, description: String },
    UpdateNodesData { auth_id: String, app_id: String, nodes_data: Vec<AppNodesDataType> },
    UpdateSandboxDetails { auth_id: String, app_id: String, sandbox_details: AppSandboxDataType },
    UpdateDeployedApiDetails {
        auth_id: String,
        app_id: String,
        deployed_api_details: AppDeployedApiDataType,
    },
    UpdateIsPublic { auth_id: String, app_id: String, is_public: bool },
}

/// The user id that a command is keyed by.
pub open spec fn op_auth_id(op: Operation) -> Seq<char> {
    match op {
        Operation::CreateUser { auth_id } => auth_id@,
        Operation::UpdateReactFlow { auth_id, .. } => auth_id@,
        Operation::CreateApp { auth_id, .. } => auth_id@,
        Operation::UpdateNodesData { auth_id, .. } => auth_id@,
        Operation::UpdateSandboxDetails { auth_id, .. } => auth_id@,
        Operation::UpdateDeployedApiDetails { auth_id, .. } => auth_id@,
        Operation::UpdateIsPublic { auth_id, .. } => auth_id@,
    }
}

/// The app id that a command names (empty for `CreateUser`).
pub open spec fn op_app_id(op: Operation) -> Seq<char> {
    match op {
        Operation::CreateUser { .. } => Seq::empty(),
        Operation::UpdateReactFlow { app_id, .. } => app_id@,
        Operation::CreateApp { app_id, .. } => app_id@,
        Operation::UpdateNodesData { app_id, .. } => app_id@,
        Operation::UpdateSandboxDetails { app_id, .. } => app_id@,
        Operation::UpdateDeployedApiDetails { app_id, .. } => app_id@,
        Operation::UpdateIsPublic { app_id, .. } => app_id@,
    }
}

/// Whether the command replaces one field of the apps it names.
pub open spec fn is_update(op: Operation) -> bool {
    !(op is CreateUser) && !(op is CreateApp)
}

/// The app `a` with the field that an update command replaces set to the
/// command's value.
pub open spec fn field_set(a: AppView, op: Operation) -> AppView {
    match op {
        Operation::UpdateReactFlow { react_flow, .. } => with_react_flow(a, react_flow@),
        Operation::UpdateNodesData { nodes_data, .. } => with_nodes(a, nodes_view(nodes_data@)),
        Operation::UpdateSandboxDetails { sandbox_details, .. } => with_sandbox(a, sandbox_details@),
        Operation::UpdateDeployedApiDetails { deployed_api_details, .. } => with_deployed_api(
            a,
            deployed_api_details@,
        ),
        Operation::UpdateIsPublic { is_public, .. } => with_is_public(a, is_public),
        _ => a,
    }
}

/// The record of the command's user after the command, given the record
/// before it (`None` where none is stored).
pub open spec fn user_after(current: Option<UserView>, op: Operation) -> Result<UserView, FlowsError> {
    match op {
        Operation::CreateUser { auth_id } => Ok(new_user_view(auth_id@)),
        _ => match current {
            None => Err(FlowsError::NotFound),
            Some(u) => match op {
                Operation::CreateApp { app_id, name, description, .. } => Ok(
                    UserView {
                        auth_id: u.auth_id,
                        apps: u.apps.push(new_app_view(app_id@, name@, description@)),
                    },
                ),
                _ => Ok(
                    UserView {
                        auth_id: u.auth_id,
                        apps: update_matching(u.apps, op_app_id(op), |a: AppView| field_set(a, op)),
                    },
                ),
            },
        },
    }
}

/// The view of a record that may be absent.
pub open spec fn user_opt_view(u: Option<AuthUserType>) -> Option<UserView> {
    match u {
        Some(u) => Some(u@),
        None => None,
    }
}

/// The view of an app that may be absent.
pub open spec fn app_opt_view(a: Option<AppType>) -> Option<AppView> {
    match a {
        Some(a) => Some(a@),
        None => None,
    }
}

/// The view of a command's outcome on one record.
pub open spec fn user_result_view(r: Result<AuthUserType, FlowsError>) -> Result<UserView, FlowsError> {
    match r {
        Ok(u) => Ok(u@),
        Err(e) => Err(e),
    }
}

impl Operation {
    /// The user id that the command is keyed by.
    pub fn auth_id(&self) -> (r: &String)
        ensures
            r@ == op_auth_id(*self),
    {
        match self {
            Operation::CreateUser { auth_id } => auth_id,
            Operation::UpdateReactFlow { auth_id, .. } => auth_id,
            Operation::CreateApp { auth_id, .. } => auth_id,
            Operation::UpdateNodesData { auth_id, .. } => auth_id,
            Operation::UpdateSandboxDetails { auth_id, .. } => auth_id,
            Operation::UpdateDeployedApiDetails { auth_id, .. } => auth_id,
            Operation::UpdateIsPublic { auth_id, .. } => auth_id,
        }
    }
}

/// Applies `op` to the record stored for its user (`current`, `None` where
/// none is), giving the record to store back. `CreateUser` always succeeds
/// with a fresh record; every other command fails with `NotFound` when there
/// is no record.
pub fn apply_operation(current: Option<AuthUserType>, op: Operation) -> (r: Result<AuthUserType, FlowsError>)
    ensures
        user_result_view(r) == user_after(user_opt_view(current), op),
{
    let ghost g = op;
    match op {
        Operation::CreateUser { auth_id } => {
            let u = AuthUserType::new(auth_id, Vec::new());
            assert(u@.apps =~= Seq::<AppView>::empty());
            Ok(u)
        },
        Operation::CreateApp { auth_id: _, app_id, name, description } => match current {
            None => Err(FlowsError::NotFound),
            Some(mut u) => {
                u.add_app(app_id, name, description);
                Ok(u)
            },
        },
        Operation::UpdateReactFlow { auth_id: _, app_id, react_flow } => match current {
            None => Err(FlowsError::NotFound),
            Some(mut u) => {
                let ghost before = u@;
                u.update_react_flow(&app_id, &react_flow);
                assert(u@.apps =~= update_matching(before.apps, app_id@, |a: AppView| field_set(a, g)));
                Ok(u)
            },
        },
        Operation::UpdateNodesData { auth_id: _, app_id, nodes_data } => match current {
            None => Err(FlowsError::NotFound),
            Some(mut u) => {
                let ghost before = u@;
                u.update_nodes_data(&app_id, &nodes_data);
                assert(u@.apps =~= update_matching(before.apps, app_id@, |a: AppView| field_set(a, g)));
                Ok(u)
            },
        },
        Operation::UpdateSandboxDetails { auth_id: _, app_id, sandbox_details } => match current {
            None => Err(FlowsError::NotFound),
            Some(mut u) => {
                let ghost before = u@;
                u.update_sandbox_details(&app_id, &sandbox_details);
                assert(u@.apps =~= update_matching(before.apps, app_id@, |a: AppView| field_set(a, g)));
                Ok(u)
            },
        },
        Operation::UpdateDeployedApiDetails { auth_id: _, app_id, deployed_api_details } => match current {
            None => Err(FlowsError::NotFound),
            Some(mut u) => {
                let ghost before = u@;
                u.update_deployed_api_details(&app_id, &deployed_api_details);
                assert(u@.apps =~= update_matching(before.apps, app_id@, |a: AppView| field_set(a, g)));
                Ok(u)
            },
        },
        Operation::UpdateIsPublic { auth_id: _, app_id, is_public } => match current {
            None => Err(FlowsError::NotFound),
            Some(mut u) => {
                let ghost before = u@;
                u.update_is_public(&app_id, is_public);
                assert(u@.apps =~= update_matching(before.apps, app_id@, |a: AppView| field_set(a, g)));
                Ok(u)
            },
        },
    }
}

} // verus!
