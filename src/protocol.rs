use vstd::prelude::*;

verus! {

/// One build of a namespace: when it completed.
#[derive(Debug, Clone)]
pub struct Build {
    pub completion_timestamp: String,
}

/// The builds of a namespace, in response order.
#[derive(Debug, Clone)]
pub struct BuildList {
    pub items: Vec<Build>,
}

/// One status condition of a deployment config.
#[derive(Debug, Clone)]
pub struct Condition {
    pub last_update_time: String,
}

/// One deployment config: its status conditions, in response order.
#[derive(Debug, Clone)]
pub struct DeploymentConfig {
    pub conditions: Vec<Condition>,
}

/// The deployment configs of a namespace, in response order.
#[derive(Debug, Clone)]
pub struct DeploymentConfigList {
    pub items: Vec<DeploymentConfig>,
}

/// One role binding: the role's name and the users bound to it, if listed.
#[derive(Debug, Clone)]
pub struct RoleBinding {
    pub name: String,
    pub user_names: Option<Vec<String>>,
}

/// The role bindings of a namespace, in response order.
#[derive(Debug, Clone)]
pub struct RoleBindingList {
    pub items: Vec<RoleBinding>,
}

} // verus!
