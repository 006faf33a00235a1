//! Wire-format request types: the immutable description of a target
//! environment as submitted by a client, read-only for the lifetime of an
//! assembly call.

use vstd::prelude::*;

verus! {

/// The action requested for the environment as a whole.
#[derive(Clone, Copy, PartialEq, Eq, Hash, Debug)]
pub enum Action {
    Create,
    Pause,
    Delete,
    Restart,
}

/// Advanced settings of a routable service (application or container).
///
/// These two fields are the only service data the cross-reference resolver
/// reads: a flag gating custom-domain validation, and a CIDR string bounding
/// which network sources may reach the service.
#[derive(Clone, PartialEq, Eq, Hash, Debug)]
pub struct AdvancedSettings {
    pub deployment_custom_domain_check_enabled: bool,
    pub network_ingress_whitelist_source_range: String,
}

/// An application entity in request form.
#[derive(Clone, PartialEq, Eq, Hash, Debug)]
pub struct Application {
    pub long_id: u128,
    pub name: String,
    pub advanced_settings: AdvancedSettings,
}

/// A container entity in request form.
#[derive(Clone, PartialEq, Eq, Hash, Debug)]
pub struct Container {
    pub long_id: u128,
    pub name: String,
    pub advanced_settings: AdvancedSettings,
}

/// One route of a router: it targets the service whose unique id equals
/// `service_long_id`, if any such application or container exists in the
/// same request.
#[derive(Clone, Copy, PartialEq, Eq, Hash, Debug)]
pub struct Route {
    pub service_long_id: u128,
}

/// A router entity in request form. A router declares no security posture
/// of its own; it is derived from the services its routes reference.
#[derive(Clone, PartialEq, Eq, Hash, Debug)]
pub struct Router {
    pub long_id: u128,
    pub name: String,
    pub routes: Vec<Route>,
}

/// A managed-database entity in request form.
#[derive(Clone, PartialEq, Eq, Hash, Debug)]
pub struct Database {
    pub long_id: u128,
    pub name: String,
}

/// A background-job entity in request form.
#[derive(Clone, PartialEq, Eq, Hash, Debug)]
pub struct Job {
    pub long_id: u128,
    pub name: String,
}

/// The wire-format description of a target environment: identity fields and
/// five ordered entity collections. Ordering within each collection is
/// declaration order and is semantically significant for the resolver.
#[derive(Clone, PartialEq, Eq, Hash, Debug)]
pub struct EnvironmentRequest {
    pub execution_id: String,
    pub long_id: u128,
    pub name: String,
    pub project_long_id: u128,
    pub organization_long_id: u128,
    pub action: Action,
    pub applications: Vec<Application>,
    pub containers: Vec<Container>,
    pub jobs: Vec<Job>,
    pub routers: Vec<Router>,
    pub databases: Vec<Database>,
}

} // verus!
