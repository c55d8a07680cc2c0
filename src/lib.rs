//! Per-user storage of flow applications: users own ordered lists of app
//! records, which are created and then updated one field at a time.

pub mod contract;
pub mod laws;
pub mod operation;
pub mod records;
pub mod service;
pub mod state;
pub mod types;

pub use contract::SolverFlowsContract;
pub use operation::{apply_operation, FlowsError, Operation, SolverFlowsAbi};
pub use service::SolverFlowsService;
pub use state::SolverFlowsState;
pub use types::{
    AppDeployedApiDataType, AppNodesDataType, AppSandboxDataType, AppType, AuthUserType, Details,
    NodeType, OutDataInterface, RequestType, SApiDataInterface, SApiInput, SApiRequest,
};
