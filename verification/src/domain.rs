//! Validated domain types: the entities produced by the per-kind translation
//! contracts, the error taxonomy, and the all-or-nothing environment
//! aggregate.

use vstd::prelude::*;
use vstd::string::StringExecFns;

use crate::request::Action;

verus! {

/// The action applied to each service of the environment, resolved from the
/// requested [`Action`].
#[derive(Clone, Copy, PartialEq, Eq, Hash, Debug)]
pub enum ServiceAction {
    Create,
    Pause,
    Delete,
    Restart,
}

impl Action {
    /// The service action a requested action resolves to.
    pub open spec fn service_action(self) -> ServiceAction {
        match self {
            Action::Create => ServiceAction::Create,
            Action::Pause => ServiceAction::Pause,
            Action::Delete => ServiceAction::Delete,
            Action::Restart => ServiceAction::Restart,
        }
    }

    /// Resolves the requested action into the per-service action carried by
    /// the assembled aggregate.
    pub fn to_service_action(&self) -> (r: ServiceAction)
        ensures
            r == self.service_action(),
    {
        match self {
            Action::Create => ServiceAction::Create,
            Action::Pause => ServiceAction::Pause,
            Action::Delete => ServiceAction::Delete,
            Action::Restart => ServiceAction::Restart,
        }
    }
}

/// A validated application, as produced by the application translation
/// contract.
#[derive(Clone, PartialEq, Eq, Debug)]
pub struct ApplicationDomain {
    pub long_id: u128,
    pub name: String,
}

/// A validated container, as produced by the container translation contract.
#[derive(Clone, PartialEq, Eq, Debug)]
pub struct ContainerDomain {
    pub long_id: u128,
    pub name: String,
}

/// A validated router, as produced by the router translation contract. It
/// carries the security posture the resolver derived for it.
#[derive(Clone, PartialEq, Eq, Debug)]
pub struct RouterDomain {
    pub long_id: u128,
    pub name: String,
    pub custom_domain_check_enabled: bool,
    pub whitelist_source_range: String,
}

/// A validated database, as produced by the database translation contract.
#[derive(Clone, PartialEq, Eq, Debug)]
pub struct DatabaseDomain {
    pub long_id: u128,
    pub name: String,
}

/// A validated job, as produced by the job translation contract.
#[derive(Clone, PartialEq, Eq, Debug)]
pub struct JobDomain {
    pub long_id: u128,
    pub name: String,
}

/// Error reported by the application translation contract.
#[derive(Clone, PartialEq, Eq, Debug)]
pub struct ApplicationError {
    pub message: String,
}

/// Error reported by the container translation contract.
#[derive(Clone, PartialEq, Eq, Debug)]
pub struct ContainerError {
    pub message: String,
}

/// Error reported by the router translation contract.
#[derive(Clone, PartialEq, Eq, Debug)]
pub struct RouterError {
    pub message: String,
}

/// Error reported by the database translation contract.
#[derive(Clone, PartialEq, Eq, Debug)]
pub struct DatabaseError {
    pub message: String,
}

/// Error reported by the job translation contract.
#[derive(Clone, PartialEq, Eq, Debug)]
pub struct JobError {
    pub message: String,
}

/// The closed error taxonomy of an assembly call: one variant per entity
/// kind, each wrapping that kind's translation error. An assembly reports
/// only the single first-encountered failure, never a batch.
#[derive(Clone, PartialEq, Eq, Debug)]
pub enum DomainError {
    ApplicationError(ApplicationError),
    ContainerError(ContainerError),
    RouterError(RouterError),
    DatabaseError(DatabaseError),
    JobError(JobError),
}

impl DomainError {
    /// The single human-readable line a wrapped error renders as: a fixed
    /// per-kind prefix followed by the underlying contract's message.
    pub open spec fn message_spec(self) -> Seq<char> {
        match self {
            DomainError::ApplicationError(e) => "Invalid application: "@ + e.message@,
            DomainError::ContainerError(e) => "Invalid container: "@ + e.message@,
            DomainError::RouterError(e) => "Invalid router: "@ + e.message@,
            DomainError::DatabaseError(e) => "Invalid database: "@ + e.message@,
            DomainError::JobError(e) => "Invalid job: "@ + e.message@,
        }
    }

    /// Renders the error as its single human-readable line.
    pub fn message(&self) -> (s: String)
        ensures
            s@ == self.message_spec(),
    {
        match self {
            DomainError::ApplicationError(e) => {
                String::from_str("Invalid application: ").concat(e.message.as_str())
            },
            DomainError::ContainerError(e) => {
                String::from_str("Invalid container: ").concat(e.message.as_str())
            },
            DomainError::RouterError(e) => {
                String::from_str("Invalid router: ").concat(e.message.as_str())
            },
            DomainError::DatabaseError(e) => {
                String::from_str("Invalid database: ").concat(e.message.as_str())
            },
            DomainError::JobError(e) => {
                String::from_str("Invalid job: ").concat(e.message.as_str())
            },
        }
    }
}

/// The spec-level picture of a validated environment aggregate.
pub struct EnvironmentView {
    pub long_id: u128,
    pub name: Seq<char>,
    pub project_long_id: u128,
    pub organization_long_id: u128,
    pub action: ServiceAction,
    pub applications: Seq<ApplicationDomain>,
    pub containers: Seq<ContainerDomain>,
    pub routers: Seq<RouterDomain>,
    pub databases: Seq<DatabaseDomain>,
    pub jobs: Seq<JobDomain>,
}

/// The validated environment aggregate: identity fields copied from the
/// request, the resolved service action, and five validated entity
/// collections. It is only ever constructed when every entity in every
/// collection of the request has validated successfully.
#[derive(Clone, PartialEq, Eq, Debug)]
pub struct Environment {
    pub long_id: u128,
    pub name: String,
    pub project_long_id: u128,
    pub organization_long_id: u128,
    pub action: ServiceAction,
    pub applications: Vec<ApplicationDomain>,
    pub containers: Vec<ContainerDomain>,
    pub routers: Vec<RouterDomain>,
    pub databases: Vec<DatabaseDomain>,
    pub jobs: Vec<JobDomain>,
}

impl View for Environment {
    type V = EnvironmentView;

    open spec fn view(&self) -> EnvironmentView {
        EnvironmentView {
            long_id: self.long_id,
            name: self.name@,
            project_long_id: self.project_long_id,
            organization_long_id: self.organization_long_id,
            action: self.action,
            applications: self.applications@,
            containers: self.containers@,
            routers: self.routers@,
            databases: self.databases@,
            jobs: self.jobs@,
        }
    }
}

impl Environment {
    /// Constructs the aggregate from already-validated parts.
    #[allow(clippy::too_many_arguments)]
    pub fn new(
        long_id: u128,
        name: String,
        project_long_id: u128,
        organization_long_id: u128,
        action: ServiceAction,
        applications: Vec<ApplicationDomain>,
        containers: Vec<ContainerDomain>,
        routers: Vec<RouterDomain>,
        databases: Vec<DatabaseDomain>,
        jobs: Vec<JobDomain>,
    ) -> (r: Environment)
        ensures
            r@ == (EnvironmentView {
                long_id,
                name: name@,
                project_long_id,
                organization_long_id,
                action,
                applications: applications@,
                containers: containers@,
                routers: routers@,
                databases: databases@,
                jobs: jobs@,
            }),
    {
        Environment {
            long_id,
            name,
            project_long_id,
            organization_long_id,
            action,
            applications,
            containers,
            routers,
            databases,
            jobs,
        }
    }
}

} // verus!
