//! Operations on one user's record: appending an app, replacing one field of
//! every app with a given id, and finding the first app with an id.

use vstd::prelude::*;
use crate::types::{
    apps_view, nodes_view, AppDeployedApiDataType, AppNodesDataType, AppSandboxDataType,
    ApiFunctionView, AppType, AppView, AuthUserType, DeployedApiView, NodeView, SandboxView,
    UserView,
};

verus! {

/// A fresh user record: the given id and no apps.
pub open spec fn new_user_view(auth_id: Seq<char>) -> UserView {
    UserView { auth_id, apps: Seq::empty() }
}

/// A freshly created app: the given id, name and description, not public,
/// and every other field empty.
pub open spec fn new_app_view(app_id: Seq<char>, name: Seq<char>, description: Seq<char>) -> AppView {
    AppView {
        app_id,
        name,
        description,
        is_public: false,
        react_flow: Seq::empty(),
        nodes_data: Seq::empty(),
        sandbox_details: SandboxView {
            id: Seq::empty(),
            port_url: Seq::empty(),
            sandbox_url: Seq::empty(),
        },
        deployed_api_details: DeployedApiView { name: Seq::empty(), functions: Seq::empty() },
    }
}

/// `apps` with `f` applied to every app whose id is `app_id`, and the others
/// left as they are.
pub open spec fn update_matching(
    apps: Seq<AppView>,
    app_id: Seq<char>,
    f: spec_fn(AppView) -> AppView,
) -> Seq<AppView> {
    apps.map_values(|a: AppView| if a.app_id == app_id { f(a) } else { a })
}

/// The first app of `apps` whose id is `app_id`, if there is one.
pub open spec fn first_app(apps: Seq<AppView>, app_id: Seq<char>) -> Option<AppView>
    decreases apps.len(),
{
    if apps.len() == 0 {
        None
    } else if apps[0].app_id == app_id {
        Some(apps[0])
    } else {
        first_app(apps.drop_first(), app_id)
    }
}

/// `a` with its flow graph replaced.
pub open spec fn with_react_flow(a: AppView, react_flow: Seq<char>) -> AppView {
    AppView { react_flow, ..a }
}

/// `a` with its sandbox details replaced.
pub open spec fn with_sandbox(a: AppView, sandbox_details: SandboxView) -> AppView {
    AppView { sandbox_details, ..a }
}

/// `a` with its nodes replaced.
pub open spec fn with_nodes(a: AppView, nodes_data: Seq<NodeView>) -> AppView {
    AppView { nodes_data, ..a }
}

/// `a` with its deployed API replaced.
pub open spec fn with_deployed_api(a: AppView, deployed_api_details: DeployedApiView) -> AppView {
    AppView { deployed_api_details, ..a }
}

/// `a` with its visibility replaced.
pub open spec fn with_is_public(a: AppView, is_public: bool) -> AppView {
    AppView { is_public, ..a }
}

/// A new value for one field of an app.
enum FieldUpdate {
    ReactFlow(String),
    Sandbox(AppSandboxDataType),
    Nodes(Vec<AppNodesDataType>),
    DeployedApi(AppDeployedApiDataType),
    IsPublic(bool),
}

impl FieldUpdate {
    spec fn applied_to(&self, a: AppView) -> AppView {
        match self {
            FieldUpdate::ReactFlow(v) => with_react_flow(a, v@),
            FieldUpdate::Sandbox(v) => with_sandbox(a, v@),
            FieldUpdate::Nodes(v) => with_nodes(a, nodes_view(v@)),
            FieldUpdate::DeployedApi(v) => with_deployed_api(a, v@),
            FieldUpdate::IsPublic(v) => with_is_public(a, *v),
        }
    }

    fn write_into(&self, app: &mut AppType)
        ensures
            final(app)@ == self.applied_to(old(app)@),
    {
        match self {
            FieldUpdate::ReactFlow(v) => app.react_flow = v.clone(),
            FieldUpdate::Sandbox(v) => app.sandbox_details = v.clone(),
            FieldUpdate::Nodes(v) => {
                let nodes = v.clone();
                assert(nodes_view(nodes@) =~= nodes_view(v@));
                app.nodes_data = nodes;
            },
            FieldUpdate::DeployedApi(v) => app.deployed_api_details = v.clone(),
            FieldUpdate::IsPublic(v) => app.is_public = *v,
        }
    }
}

impl AppType {
    /// A new app with the given id, name and description and every other
    /// field at its default.
    pub fn new(app_id: String, name: String, description: String) -> (r: Self)
        ensures
            r@ == new_app_view(app_id@, name@, description@),
    {
        let r = AppType {
            app_id,
            name,
            description,
            is_public: false,
            react_flow: String::new(),
            nodes_data: Vec::new(),
            sandbox_details: AppSandboxDataType {
                _id: String::new(),
                port_url: String::new(),
                sandbox_url: String::new(),
            },
            deployed_api_details: AppDeployedApiDataType { name: String::new(), functions: Vec::new() },
        };
        assert(r@.nodes_data =~= Seq::<NodeView>::empty());
        assert(r@.deployed_api_details.functions =~= Seq::<ApiFunctionView>::empty());
        r
    }
}

impl AuthUserType {
    /// Replaces one field of every app whose id is `app_id`.
    fn update_matching_apps(&mut self, app_id: &String, update: &FieldUpdate)
        ensures
            final(self)@ == (UserView {
                auth_id: old(self)@.auth_id,
                apps: update_matching(old(self)@.apps, app_id@, |a: AppView| update.applied_to(a)),
            }),
    {
        let n = self.apps.len();
        let mut i: usize = 0;
        while i < n
            invariant
                n == old(self).apps.len(),
                self.apps.len() == n,
                i <= n,
                self.auth_id == old(self).auth_id,
                forall|j: int| 0 <= j < i ==> #[trigger] self.apps@[j]@ == (if old(self).apps@[j]@.app_id == app_id@ {
                    update.applied_to(old(self).apps@[j]@)
                } else {
                    old(self).apps@[j]@
                }),
                forall|j: int| i <= j < n ==> #[trigger] self.apps@[j] == old(self).apps@[j],
            decreases n - i,
        {
            if self.apps[i].app_id == *app_id {
                let mut app = self.apps[i].clone();
                update.write_into(&mut app);
                self.apps.set(i, app);
            }
            i = i + 1;
        }
        assert(apps_view(self.apps@) =~= update_matching(
            old(self)@.apps,
            app_id@,
            |a: AppView| update.applied_to(a),
        ));
    }

    /// Appends a new app with default fields.
    pub fn add_app(&mut self, app_id: String, name: String, description: String)
        ensures
            final(self)@ == (UserView {
                auth_id: old(self)@.auth_id,
                apps: old(self)@.apps.push(new_app_view(app_id@, name@, description@)),
            }),
    {
        let app = AppType::new(app_id, name, description);
        self.apps.push(app);
        assert(apps_view(self.apps@) =~= apps_view(old(self).apps@).push(app@));
    }

    /// Sets the flow graph of every app whose id is `app_id`.
    pub fn update_react_flow(&mut self, app_id: &String, react_flow: &String)
        ensures
            final(self)@ == (UserView {
                auth_id: old(self)@.auth_id,
                apps: update_matching(old(self)@.apps, app_id@, |a: AppView| with_react_flow(a, react_flow@)),
            }),
    {
        let update = FieldUpdate::ReactFlow(react_flow.clone());
        self.update_matching_apps(app_id, &update);
        assert(self@.apps =~= update_matching(
            old(self)@.apps,
            app_id@,
            |a: AppView| with_react_flow(a, react_flow@),
        ));
    }
    /// Sets the sandbox details of every app whose id is `app_id`.
    pub fn update_sandbox_details(&mut self, app_id: &String, sandbox_details: &AppSandboxDataType)
        ensures
            final(self)@ == (UserView {
                auth_id: old(self)@.auth_id,
                apps: update_matching(old(self)@.apps, app_id@, |a: AppView| with_sandbox(a, sandbox_details@)),
            }),
    {
        let update = FieldUpdate::Sandbox(sandbox_details.clone());
        self.update_matching_apps(app_id, &update);
        assert(self@.apps =~= update_matching(
            old(self)@.apps,
            app_id@,
            |a: AppView| with_sandbox(a, sandbox_details@),
        ));
    }

    /// Sets the flow-graph nodes of every app whose id is `app_id`.
    pub fn update_nodes_data(&mut self, app_id: &String, nodes_data: &Vec<AppNodesDataType>)
        ensures
            final(self)@ == (UserView {
                auth_id: old(self)@.auth_id,
                apps: update_matching(old(self)@.apps, app_id@, |a: AppView| with_nodes(a, nodes_view(nodes_data@))),
            }),
    {
        let update = FieldUpdate::Nodes(nodes_data.clone());
        self.update_matching_apps(app_id, &update);
        assert(self@.apps =~= update_matching(
            old(self)@.apps,
            app_id@,
            |a: AppView| with_nodes(a, nodes_view(nodes_data@)),
        ));
    }

    /// Sets the deployed API of every app whose id is `app_id`.
    pub fn update_deployed_api_details(&mut self, app_id: &String, deployed_api_details: &AppDeployedApiDataType)
        ensures
            final(self)@ == (UserView {
                auth_id: old(self)@.auth_id,
                apps: update_matching(old(self)@.apps, app_id@, |a: AppView| with_deployed_api(a, deployed_api_details@)),
            }),
    {
        let update = FieldUpdate::DeployedApi(deployed_api_details.clone());
        self.update_matching_apps(app_id, &update);
        assert(self@.apps =~= update_matching(
            old(self)@.apps,
            app_id@,
            |a: AppView| with_deployed_api(a, deployed_api_details@),
        ));
    }

    /// Sets the visibility of every app whose id is `app_id`.
    pub fn update_is_public(&mut self, app_id: &String, is_public: bool)
        ensures
            final(self)@ == (UserView {
                auth_id: old(self)@.auth_id,
                apps: update_matching(old(self)@.apps, app_id@, |a: AppView| with_is_public(a, is_public)),
            }),
    {
        let update = FieldUpdate::IsPublic(is_public);
        self.update_matching_apps(app_id, &update);
        assert(self@.apps =~= update_matching(
            old(self)@.apps,
            app_id@,
            |a: AppView| with_is_public(a, is_public),
        ));
    }

    /// The first app whose id is `app_id`, if any.
    pub fn find_app(&self, app_id: &String) -> (r: Option<AppType>)
        ensures
            match r {
                Some(a) => first_app(self@.apps, app_id@) == Some(a@),
                None => first_app(self@.apps, app_id@) is None,
            },
    {
        let n = self.apps.len();
        let mut i: usize = 0;
        assert(self@.apps.subrange(0, n as int) =~= self@.apps);
        while i < n
            invariant
                n == self.apps.len(),
                i <= n,
                first_app(self@.apps, app_id@) == first_app(self@.apps.subrange(i as int, n as int), app_id@),
            decreases n - i,
        {
            let ghost rest = self@.apps.subrange(i as int, n as int);
            assert(rest.drop_first() =~= self@.apps.subrange(i + 1, n as int));
            if self.apps[i].app_id == *app_id {
                return Some(self.apps[i].clone());
            }
            i = i + 1;
        }
        None
    }
}

} // verus!
