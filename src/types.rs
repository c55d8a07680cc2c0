//! Records kept for each user, with their mathematical views.

use vstd::prelude::*;

verus! {

/// Kind of a node in a flow graph.
#[derive(Debug, Clone, Copy, PartialEq, Eq, Structural)]
pub enum NodeType {
    API,
    FUNCTION,
}

/// Type tag of what a deployed API function returns.
#[derive(Debug, Clone, Copy, PartialEq, Eq, Structural)]
pub enum OutDataInterface {
    String,
    Number,
    Boolean,
    Object,
}

/// HTTP method of a deployed API request.
#[derive(Debug, Clone, Copy, PartialEq, Eq, Structural)]
pub enum RequestType {
    GET,
    POST,
    PUT,
    DELETE,
    PATCH,
    String,
}

/// One named, typed parameter of an API request.
#[derive(PartialEq, Debug)]
pub struct SApiInput {
    pub _key: String,
    pub _type: String,
}

/// What an API input holds.
pub struct ApiInputView {
    pub key: Seq<char>,
    pub ty: Seq<char>,
}

impl View for SApiInput {
    type V = ApiInputView;

    open spec fn view(&self) -> ApiInputView {
        ApiInputView { key: self._key@, ty: self._type@ }
    }
}

impl Clone for SApiInput {
    fn clone(&self) -> (r: Self)
        ensures
            r == *self,
    {
        SApiInput { _key: self._key.clone(), _type: self._type.clone() }
    }
}

/// The views of a sequence of API inputs.
pub open spec fn inputs_view(s: Seq<SApiInput>) -> Seq<ApiInputView> {
    s.map_values(|i: SApiInput| i@)
}

/// The views of a sequence of strings.
pub open spec fn strings_view(s: Seq<String>) -> Seq<Seq<char>> {
    s.map_values(|x: String| x@)
}

/// Request part of a deployed API function.
#[derive(PartialEq, Debug)]
pub struct SApiRequest {
    pub url: String,
    pub request_type: RequestType,
    pub inputs: Vec<SApiInput>,
    pub imports: Vec<String>,
}

/// What an API request holds.
pub struct ApiRequestView {
    pub url: Seq<char>,
    pub request_type: RequestType,
    pub inputs: Seq<ApiInputView>,
    pub imports: Seq<Seq<char>>,
}

impl View for SApiRequest {
    type V = ApiRequestView;

    open spec fn view(&self) -> ApiRequestView {
        ApiRequestView {
            url: self.url@,
            request_type: self.request_type,
            inputs: inputs_view(self.inputs@),
            imports: strings_view(self.imports@),
        }
    }
}

impl Clone for SApiRequest {
    fn clone(&self) -> (r: Self)
        ensures
            r@ == self@,
    {
        let inputs = self.inputs.clone();
        let imports = self.imports.clone();
        assert(inputs_view(inputs@) =~= inputs_view(self.inputs@));
        assert(strings_view(imports@) =~= strings_view(self.imports@));
        SApiRequest {
            url: self.url.clone(),
            request_type: self.request_type,
            inputs,
            imports,
        }
    }
}

/// One function published by a deployed API.
#[derive(PartialEq, Debug)]
pub struct SApiDataInterface {
    pub api_name: String,
    pub data: SApiRequest,
    pub inputs: Vec<SApiInput>,
    pub outputs: OutDataInterface,
}

/// What a deployed API function holds.
pub struct ApiFunctionView {
    pub api_name: Seq<char>,
    pub data: ApiRequestView,
    pub inputs: Seq<ApiInputView>,
    pub outputs: OutDataInterface,
}

impl View for SApiDataInterface {
    type V = ApiFunctionView;

    open spec fn view(&self) -> ApiFunctionView {
        ApiFunctionView {
            api_name: self.api_name@,
            data: self.data@,
            inputs: inputs_view(self.inputs@),
            outputs: self.outputs,
        }
    }
}

impl Clone for SApiDataInterface {
    fn clone(&self) -> (r: Self)
        ensures
            r@ == self@,
    {
        let inputs = self.inputs.clone();
        assert(inputs_view(inputs@) =~= inputs_view(self.inputs@));
        SApiDataInterface {
            api_name: self.api_name.clone(),
            data: self.data.clone(),
            inputs,
            outputs: self.outputs,
        }
    }
}

/// The views of a sequence of API functions.
pub open spec fn functions_view(s: Seq<SApiDataInterface>) -> Seq<ApiFunctionView> {
    s.map_values(|f: SApiDataInterface| f@)
}

/// Descriptor of the API that an app has published.
#[derive(PartialEq, Debug)]
pub struct AppDeployedApiDataType {
    pub name: String,
    pub functions: Vec<SApiDataInterface>,
}

/// What a deployed API descriptor holds.
pub struct DeployedApiView {
    pub name: Seq<char>,
    pub functions: Seq<ApiFunctionView>,
}

impl View for AppDeployedApiDataType {
    type V = DeployedApiView;

    open spec fn view(&self) -> DeployedApiView {
        DeployedApiView { name: self.name@, functions: functions_view(self.functions@) }
    }
}

impl Clone for AppDeployedApiDataType {
    fn clone(&self) -> (r: Self)
        ensures
            r@ == self@,
    {
        let functions = self.functions.clone();
        assert(functions_view(functions@) =~= functions_view(self.functions@));
        AppDeployedApiDataType { name: self.name.clone(), functions }
    }
}

/// What a flow-graph node is and holds.
#[derive(PartialEq, Debug)]
pub struct Details {
    pub node_type: NodeType,
    pub module: String,
    pub value: String,
}

/// What node details hold.
pub struct DetailsView {
    pub node_type: NodeType,
    pub module: Seq<char>,
    pub value: Seq<char>,
}

impl View for Details {
    type V = DetailsView;

    open spec fn view(&self) -> DetailsView {
        DetailsView { node_type: self.node_type, module: self.module@, value: self.value@ }
    }
}

impl Clone for Details {
    fn clone(&self) -> (r: Self)
        ensures
            r == *self,
    {
        Details { node_type: self.node_type, module: self.module.clone(), value: self.value.clone() }
    }
}

/// One node of an app's flow graph.
#[derive(PartialEq, Debug)]
pub struct AppNodesDataType {
    pub id: String,
    pub details: Details,
}

/// What a flow-graph node holds.
pub struct NodeView {
    pub id: Seq<char>,
    pub details: DetailsView,
}

impl View for AppNodesDataType {
    type V = NodeView;

    open spec fn view(&self) -> NodeView {
        NodeView { id: self.id@, details: self.details@ }
    }
}

impl Clone for AppNodesDataType {
    fn clone(&self) -> (r: Self)
        ensures
            r == *self,
    {
        AppNodesDataType { id: self.id.clone(), details: self.details.clone() }
    }
}

/// The views of a sequence of nodes.
pub open spec fn nodes_view(s: Seq<AppNodesDataType>) -> Seq<NodeView> {
    s.map_values(|n: AppNodesDataType| n@)
}

/// Where an app's sandbox runs.
#[derive(PartialEq, Debug)]
pub struct AppSandboxDataType {
    pub _id: String,
    pub port_url: String,
    pub sandbox_url: String,
}

/// What sandbox details hold.
pub struct SandboxView {
    pub id: Seq<char>,
    pub port_url: Seq<char>,
    pub sandbox_url: Seq<char>,
}

impl View for AppSandboxDataType {
    type V = SandboxView;

    open spec fn view(&self) -> SandboxView {
        SandboxView { id: self._id@, port_url: self.port_url@, sandbox_url: self.sandbox_url@ }
    }
}

impl Clone for AppSandboxDataType {
    fn clone(&self) -> (r: Self)
        ensures
            r == *self,
    {
        AppSandboxDataType {
            _id: self._id.clone(),
            port_url: self.port_url.clone(),
            sandbox_url: self.sandbox_url.clone(),
        }
    }
}

/// One flow application owned by a user.
#[derive(PartialEq, Debug)]
pub struct AppType {
    pub app_id: String,
    pub name: String,
    pub description: String,
    pub is_public: bool,
    pub react_flow: String,
    pub nodes_data: Vec<AppNodesDataType>,
    pub sandbox_details: AppSandboxDataType,
    pub deployed_api_details: AppDeployedApiDataType,
}

/// What an app holds.
pub struct AppView {
    pub app_id: Seq<char>,
    pub name: Seq<char>,
    pub description: Seq<char>,
    pub is_public: bool,
    pub react_flow: Seq<char>,
    pub nodes_data: Seq<NodeView>,
    pub sandbox_details: SandboxView,
    pub deployed_api_details: DeployedApiView,
}

impl View for AppType {
    type V = AppView;

    open spec fn view(&self) -> AppView {
        AppView {
            app_id: self.app_id@,
            name: self.name@,
            description: self.description@,
            is_public: self.is_public,
            react_flow: self.react_flow@,
            nodes_data: nodes_view(self.nodes_data@),
            sandbox_details: self.sandbox_details@,
            deployed_api_details: self.deployed_api_details@,
        }
    }
}

impl Clone for AppType {
    fn clone(&self) -> (r: Self)
        ensures
            r@ == self@,
    {
        let nodes_data = self.nodes_data.clone();
        assert(nodes_view(nodes_data@) =~= nodes_view(self.nodes_data@));
        AppType {
            app_id: self.app_id.clone(),
            name: self.name.clone(),
            description: self.description.clone(),
            is_public: self.is_public,
            react_flow: self.react_flow.clone(),
            nodes_data,
            sandbox_details: self.sandbox_details.clone(),
            deployed_api_details: self.deployed_api_details.clone(),
        }
    }
}

/// The views of a sequence of apps.
pub open spec fn apps_view(s: Seq<AppType>) -> Seq<AppView> {
    s.map_values(|a: AppType| a@)
}

/// A user and the apps it owns, in the order they were created.
#[derive(PartialEq, Debug)]
pub struct AuthUserType {
    pub auth_id: String,
    pub apps: Vec<AppType>,
}

/// What a user record holds: its id and its apps in order.
pub struct UserView {
    pub auth_id: Seq<char>,
    pub apps: Seq<AppView>,
}

impl View for AuthUserType {
    type V = UserView;

    open spec fn view(&self) -> UserView {
        UserView { auth_id: self.auth_id@, apps: apps_view(self.apps@) }
    }
}

impl Clone for AuthUserType {
    fn clone(&self) -> (r: Self)
        ensures
            r@ == self@,
    {
        let apps = self.apps.clone();
        assert(apps_view(apps@) =~= apps_view(self.apps@));
        AuthUserType { auth_id: self.auth_id.clone(), apps }
    }
}

impl Default for AuthUserType {
    /// A user with an empty id and no apps.
    fn default() -> (r: Self)
        ensures
            r@.auth_id == Seq::<char>::empty(),
            r@.apps == Seq::<AppView>::empty(),
    {
        let r = AuthUserType { auth_id: String::new(), apps: Vec::new() };
        assert(r@.apps =~= Seq::<AppView>::empty());
        r
    }
}

impl AuthUserType {
    pub fn new(auth_id: String, apps: Vec<AppType>) -> (r: Self)
        ensures
            r.auth_id == auth_id,
            r.apps == apps,
    {
        AuthUserType { auth_id, apps }
    }
}

} // verus!
