use solver_flows::{
    apply_operation, AppDeployedApiDataType, AppNodesDataType, AppSandboxDataType, AppType,
    AuthUserType, Details, FlowsError, NodeType, Operation, OutDataInterface, RequestType,
    SApiDataInterface, SApiInput, SApiRequest, SolverFlowsContract, SolverFlowsService,
    SolverFlowsState,
};

fn s(x: &str) -> String {
    x.to_string()
}

fn run(ops: Vec<Operation>) -> (SolverFlowsService, Vec<Result<(), FlowsError>>) {
    let mut contract = SolverFlowsContract::load(SolverFlowsState::new());
    let mut results = Vec::new();
    for op in ops {
        results.push(contract.execute_operation(op));
    }
    (SolverFlowsService::new(contract.store()), results)
}

fn create_user(id: &str) -> Operation {
    Operation::CreateUser { auth_id: s(id) }
}

fn create_app(id: &str, app: &str, name: &str, desc: &str) -> Operation {
    Operation::CreateApp { auth_id: s(id), app_id: s(app), name: s(name), description: s(desc) }
}

fn sample_sandbox() -> AppSandboxDataType {
    AppSandboxDataType { _id: s("sb-1"), port_url: s("http://p:1"), sandbox_url: s("http://sb") }
}

fn sample_nodes() -> Vec<AppNodesDataType> {
    vec![
        AppNodesDataType {
            id: s("n1"),
            details: Details { node_type: NodeType::API, module: s("http"), value: s("get") },
        },
        AppNodesDataType {
            id: s("n2"),
            details: Details { node_type: NodeType::FUNCTION, module: s("math"), value: s("add") },
        },
    ]
}

fn sample_api() -> AppDeployedApiDataType {
    let input = SApiInput { _key: s("q"), _type: s("string") };
    AppDeployedApiDataType {
        name: s("search"),
        functions: vec![SApiDataInterface {
            api_name: s("find"),
            data: SApiRequest {
                url: s("/find"),
                request_type: RequestType::POST,
                inputs: vec![input.clone()],
                imports: vec![s("json")],
            },
            inputs: vec![input],
            outputs: OutDataInterface::Object,
        }],
    }
}

fn default_app(app: &str, name: &str, desc: &str) -> AppType {
    AppType {
        app_id: s(app),
        name: s(name),
        description: s(desc),
        is_public: false,
        react_flow: s(""),
        nodes_data: vec![],
        sandbox_details: AppSandboxDataType { _id: s(""), port_url: s(""), sandbox_url: s("") },
        deployed_api_details: AppDeployedApiDataType { name: s(""), functions: vec![] },
    }
}

#[test]
fn scenario_alice_public_app() {
    let (service, results) = run(vec![
        create_user("alice"),
        create_app("alice", "app1", "Flow A", "desc"),
        Operation::UpdateIsPublic { auth_id: s("alice"), app_id: s("app1"), is_public: true },
    ]);
    assert!(results.iter().all(|r| r.is_ok()));
    let app = service.get_app(&s("alice"), &s("app1")).unwrap().unwrap();
    let mut expected = default_app("app1", "Flow A", "desc");
    expected.is_public = true;
    assert_eq!(app, expected);
}

#[test]
fn scenario_bob_without_user_not_found() {
    let (service, results) = run(vec![create_app("bob", "app1", "Flow B", "desc")]);
    assert_eq!(results, vec![Err(FlowsError::NotFound)]);
    assert_eq!(service.get_auth_user(&s("bob")), Err(FlowsError::NotFound));
}

#[test]
fn create_user_then_get_owner_has_no_apps() {
    let (service, results) = run(vec![create_user("carol")]);
    assert_eq!(results, vec![Ok(())]);
    let user = service.get_auth_user(&s("carol")).unwrap();
    assert_eq!(user, AuthUserType::new(s("carol"), vec![]));
    assert!(user.apps.is_empty());
}

#[test]
fn create_user_with_empty_id() {
    let (service, _) = run(vec![create_user("")]);
    assert_eq!(service.get_auth_user(&s("")).unwrap().auth_id, s(""));
}

#[test]
fn create_user_again_discards_apps() {
    let (service, results) = run(vec![
        create_user("dave"),
        create_app("dave", "a1", "One", "first"),
        create_app("dave", "a2", "Two", "second"),
        create_user("dave"),
    ]);
    assert!(results.iter().all(|r| r.is_ok()));
    assert!(service.get_auth_user(&s("dave")).unwrap().apps.is_empty());
    assert_eq!(service.get_app(&s("dave"), &s("a1")), Ok(None));
}

#[test]
fn every_command_but_create_user_needs_a_record() {
    let ops = vec![
        create_app("x", "a", "n", "d"),
        Operation::UpdateReactFlow { auth_id: s("x"), app_id: s("a"), react_flow: s("{}") },
        Operation::UpdateNodesData { auth_id: s("x"), app_id: s("a"), nodes_data: sample_nodes() },
        Operation::UpdateSandboxDetails {
            auth_id: s("x"),
            app_id: s("a"),
            sandbox_details: sample_sandbox(),
        },
        Operation::UpdateDeployedApiDetails {
            auth_id: s("x"),
            app_id: s("a"),
            deployed_api_details: sample_api(),
        },
        Operation::UpdateIsPublic { auth_id: s("x"), app_id: s("a"), is_public: true },
    ];
    let (service, results) = run(ops);
    assert!(results.iter().all(|r| *r == Err(FlowsError::NotFound)));
    assert_eq!(service.get_auth_user(&s("x")), Err(FlowsError::NotFound));
}

#[test]
fn create_app_then_get_app_gives_defaults() {
    let (service, _) = run(vec![create_user("erin"), create_app("erin", "app7", "Seven", "a flow")]);
    assert_eq!(
        service.get_app(&s("erin"), &s("app7")),
        Ok(Some(default_app("app7", "Seven", "a flow")))
    );
    let user = service.get_auth_user(&s("erin")).unwrap();
    assert_eq!(user.apps.len(), 1);
}

#[test]
fn apps_keep_creation_order() {
    let (service, _) = run(vec![
        create_user("f"),
        create_app("f", "b", "B", ""),
        create_app("f", "a", "A", ""),
    ]);
    let user = service.get_auth_user(&s("f")).unwrap();
    let ids: Vec<String> = user.apps.iter().map(|a| a.app_id.clone()).collect();
    assert_eq!(ids, vec![s("b"), s("a")]);
}

#[test]
fn get_app_of_missing_owner_is_not_found() {
    let (service, _) = run(vec![]);
    assert_eq!(service.get_app(&s("nobody"), &s("a")), Err(FlowsError::NotFound));
}

#[test]
fn get_app_with_unknown_id_is_none() {
    let (service, _) = run(vec![create_user("g"), create_app("g", "a", "A", "")]);
    assert_eq!(service.get_app(&s("g"), &s("zzz")), Ok(None));
}

#[test]
fn update_without_matching_app_changes_nothing() {
    let setup = || {
        vec![create_user("h"), create_app("h", "a1", "A", "d")]
    };
    let (before, _) = run(setup());
    let before = before.get_auth_user(&s("h")).unwrap();
    let updates = vec![
        Operation::UpdateReactFlow { auth_id: s("h"), app_id: s("none"), react_flow: s("{}") },
        Operation::UpdateNodesData { auth_id: s("h"), app_id: s("none"), nodes_data: sample_nodes() },
        Operation::UpdateSandboxDetails {
            auth_id: s("h"),
            app_id: s("none"),
            sandbox_details: sample_sandbox(),
        },
        Operation::UpdateDeployedApiDetails {
            auth_id: s("h"),
            app_id: s("none"),
            deployed_api_details: sample_api(),
        },
        Operation::UpdateIsPublic { auth_id: s("h"), app_id: s("none"), is_public: true },
    ];
    for op in updates {
        let mut ops = setup();
        ops.push(op);
        let (service, results) = run(ops);
        assert!(results.iter().all(|r| r.is_ok()));
        assert_eq!(service.get_auth_user(&s("h")).unwrap(), before);
    }
}

#[test]
fn update_reaches_every_duplicate_app_id() {
    let (service, _) = run(vec![
        create_user("i"),
        create_app("i", "dup", "First", ""),
        create_app("i", "other", "Other", ""),
        create_app("i", "dup", "Second", ""),
        Operation::UpdateReactFlow { auth_id: s("i"), app_id: s("dup"), react_flow: s("graph") },
        Operation::UpdateIsPublic { auth_id: s("i"), app_id: s("dup"), is_public: true },
    ]);
    let user = service.get_auth_user(&s("i")).unwrap();
    assert_eq!(user.apps.len(), 3);
    assert_eq!(user.apps[0].react_flow, s("graph"));
    assert_eq!(user.apps[2].react_flow, s("graph"));
    assert!(user.apps[0].is_public && user.apps[2].is_public);
    assert_eq!(user.apps[1], default_app("other", "Other", ""));
    assert_eq!(user.apps[0].name, s("First"));
    assert_eq!(user.apps[2].name, s("Second"));
}

#[test]
fn get_app_returns_first_of_duplicates() {
    let (service, _) = run(vec![
        create_user("j"),
        create_app("j", "dup", "First", ""),
        create_app("j", "dup", "Second", ""),
    ]);
    let app = service.get_app(&s("j"), &s("dup")).unwrap().unwrap();
    assert_eq!(app.name, s("First"));
}

#[test]
fn update_commands_replace_their_field() {
    let (service, results) = run(vec![
        create_user("k"),
        create_app("k", "a", "A", "d"),
        Operation::UpdateReactFlow { auth_id: s("k"), app_id: s("a"), react_flow: s("{\"n\":1}") },
        Operation::UpdateNodesData { auth_id: s("k"), app_id: s("a"), nodes_data: sample_nodes() },
        Operation::UpdateSandboxDetails {
            auth_id: s("k"),
            app_id: s("a"),
            sandbox_details: sample_sandbox(),
        },
        Operation::UpdateDeployedApiDetails {
            auth_id: s("k"),
            app_id: s("a"),
            deployed_api_details: sample_api(),
        },
    ]);
    assert!(results.iter().all(|r| r.is_ok()));
    let app = service.get_app(&s("k"), &s("a")).unwrap().unwrap();
    assert_eq!(app.react_flow, s("{\"n\":1}"));
    assert_eq!(app.nodes_data, sample_nodes());
    assert_eq!(app.sandbox_details, sample_sandbox());
    assert_eq!(app.deployed_api_details, sample_api());
    assert!(!app.is_public);
    assert_eq!(app.name, s("A"));
}

#[test]
fn nodes_are_replaced_whole() {
    let (service, _) = run(vec![
        create_user("l"),
        create_app("l", "a", "A", ""),
        Operation::UpdateNodesData { auth_id: s("l"), app_id: s("a"), nodes_data: sample_nodes() },
        Operation::UpdateNodesData { auth_id: s("l"), app_id: s("a"), nodes_data: vec![] },
    ]);
    let app = service.get_app(&s("l"), &s("a")).unwrap().unwrap();
    assert!(app.nodes_data.is_empty());
}

#[test]
fn users_are_kept_apart() {
    let (service, _) = run(vec![
        create_user("m"),
        create_user("n"),
        create_app("m", "a", "A", ""),
        Operation::UpdateIsPublic { auth_id: s("n"), app_id: s("a"), is_public: true },
    ]);
    assert_eq!(service.get_auth_user(&s("m")).unwrap().apps.len(), 1);
    assert!(service.get_auth_user(&s("n")).unwrap().apps.is_empty());
    assert!(!service.get_app(&s("m"), &s("a")).unwrap().unwrap().is_public);
}

#[test]
fn apply_operation_on_a_single_record() {
    let fresh = apply_operation(None, create_user("o")).unwrap();
    assert_eq!(fresh, AuthUserType::new(s("o"), vec![]));
    assert_eq!(apply_operation(None, create_app("o", "a", "A", "")), Err(FlowsError::NotFound));
    let with_app = apply_operation(Some(fresh), create_app("o", "a", "A", "")).unwrap();
    assert_eq!(with_app.apps, vec![default_app("a", "A", "")]);
    let flowed = apply_operation(
        Some(with_app),
        Operation::UpdateReactFlow { auth_id: s("o"), app_id: s("a"), react_flow: s("rf") },
    )
    .unwrap();
    assert_eq!(flowed.apps[0].react_flow, s("rf"));
}

#[test]
fn record_methods_update_in_place() {
    let mut user = AuthUserType::default();
    assert_eq!(user.auth_id, s(""));
    user.add_app(s("a"), s("A"), s("d"));
    user.update_sandbox_details(&s("a"), &sample_sandbox());
    user.update_deployed_api_details(&s("a"), &sample_api());
    user.update_is_public(&s("a"), true);
    let app = user.find_app(&s("a")).unwrap();
    assert_eq!(app.sandbox_details, sample_sandbox());
    assert_eq!(app.deployed_api_details.functions.len(), 1);
    assert!(app.is_public);
    assert_eq!(user.find_app(&s("b")), None);
}

#[test]
fn store_insert_overwrites() {
    let mut state = SolverFlowsState::new();
    assert_eq!(state.get(&s("p")), None);
    state.insert(s("p"), AuthUserType::new(s("p"), vec![default_app("a", "A", "")]));
    state.insert(s("q"), AuthUserType::new(s("q"), vec![]));
    state.insert(s("p"), AuthUserType::new(s("p"), vec![]));
    assert_eq!(state.get(&s("p")), Some(AuthUserType::new(s("p"), vec![])));
    assert_eq!(state.get(&s("q")).unwrap().auth_id, s("q"));
}

#[test]
fn clones_are_equal() {
    let api = sample_api();
    assert_eq!(api.clone(), api);
    let app = default_app("a", "A", "d");
    assert_eq!(app.clone(), app);
    let user = AuthUserType::new(s("r"), vec![app]);
    assert_eq!(user.clone(), user);
}

#[test]
fn operation_names_its_user() {
    assert_eq!(create_app("who", "a", "A", "").auth_id(), &s("who"));
    assert_eq!(create_user("me").auth_id(), &s("me"));
}
