//! End-to-end tests of the domain assembler against a simple deterministic
//! deployment target.

use env_domain::assembler::{DeploymentTarget, RegistryInfo};
use env_domain::domain::{
    ApplicationDomain, ApplicationError, ContainerDomain, ContainerError, DatabaseDomain,
    DatabaseError, DomainError, JobDomain, JobError, RouterDomain, RouterError, ServiceAction,
};
use env_domain::request::{
    Action, AdvancedSettings, Application, Container, Database, EnvironmentRequest, Job, Route,
    Router,
};

/// A deterministic target: an entity is rejected exactly when its name
/// starts with "bad"; a validated router carries the posture it was handed.
struct TestTarget;

impl DeploymentTarget for TestTarget {
    fn registry_info(&self) -> RegistryInfo {
        RegistryInfo { endpoint: String::from("registry.local") }
    }

    fn translate_application(
        &self,
        app: &Application,
        build: &RegistryInfo,
    ) -> Result<ApplicationDomain, ApplicationError> {
        if app.name.starts_with("bad") {
            Err(ApplicationError { message: format!("unbuildable image for {}", app.name) })
        } else {
            Ok(ApplicationDomain {
                long_id: app.long_id,
                name: format!("{}@{}", app.name, build.endpoint),
            })
        }
    }

    fn translate_container(
        &self,
        container: &Container,
    ) -> Result<ContainerDomain, ContainerError> {
        if container.name.starts_with("bad") {
            Err(ContainerError { message: format!("unknown registry for {}", container.name) })
        } else {
            Ok(ContainerDomain { long_id: container.long_id, name: container.name.clone() })
        }
    }

    fn translate_router(
        &self,
        router: &Router,
        custom_domain_check_enabled: bool,
        whitelist_source_range: String,
    ) -> Result<RouterDomain, RouterError> {
        if router.name.starts_with("bad") {
            Err(RouterError { message: format!("malformed domain for {}", router.name) })
        } else {
            Ok(RouterDomain {
                long_id: router.long_id,
                name: router.name.clone(),
                custom_domain_check_enabled,
                whitelist_source_range,
            })
        }
    }

    fn translate_database(&self, database: &Database) -> Result<DatabaseDomain, DatabaseError> {
        if database.name.starts_with("bad") {
            Err(DatabaseError { message: format!("invalid engine for {}", database.name) })
        } else {
            Ok(DatabaseDomain { long_id: database.long_id, name: database.name.clone() })
        }
    }

    fn translate_job(&self, job: &Job) -> Result<JobDomain, JobError> {
        if job.name.starts_with("bad") {
            Err(JobError { message: format!("invalid schedule for {}", job.name) })
        } else {
            Ok(JobDomain { long_id: job.long_id, name: job.name.clone() })
        }
    }
}

fn empty_request() -> EnvironmentRequest {
    EnvironmentRequest {
        execution_id: String::from("exec-1"),
        long_id: 11,
        name: String::from("staging"),
        project_long_id: 21,
        organization_long_id: 31,
        action: Action::Create,
        applications: vec![],
        containers: vec![],
        jobs: vec![],
        routers: vec![],
        databases: vec![],
    }
}

fn application(long_id: u128, name: &str, check_enabled: bool, whitelist: &str) -> Application {
    Application {
        long_id,
        name: String::from(name),
        advanced_settings: AdvancedSettings {
            deployment_custom_domain_check_enabled: check_enabled,
            network_ingress_whitelist_source_range: String::from(whitelist),
        },
    }
}

fn container(long_id: u128, name: &str, check_enabled: bool, whitelist: &str) -> Container {
    Container {
        long_id,
        name: String::from(name),
        advanced_settings: AdvancedSettings {
            deployment_custom_domain_check_enabled: check_enabled,
            network_ingress_whitelist_source_range: String::from(whitelist),
        },
    }
}

fn router(long_id: u128, name: &str, targets: &[u128]) -> Router {
    Router {
        long_id,
        name: String::from(name),
        routes: targets.iter().map(|t| Route { service_long_id: *t }).collect(),
    }
}

#[test]
fn empty_request_yields_empty_aggregate() {
    let request = empty_request();
    let env = request.to_environment_domain(&TestTarget).unwrap();
    assert_eq!(env.long_id, 11);
    assert_eq!(env.name, "staging");
    assert_eq!(env.project_long_id, 21);
    assert_eq!(env.organization_long_id, 31);
    assert_eq!(env.action, ServiceAction::Create);
    assert!(env.applications.is_empty());
    assert!(env.containers.is_empty());
    assert!(env.routers.is_empty());
    assert!(env.databases.is_empty());
    assert!(env.jobs.is_empty());
}

#[test]
fn first_failing_category_decides_the_error_kind() {
    // failures in applications, routers and jobs: the application error wins
    let mut request = empty_request();
    request.applications = vec![
        application(1, "web", true, "10.0.0.0/8"),
        application(2, "bad-web", true, "10.0.0.0/8"),
    ];
    request.routers = vec![router(3, "bad-router", &[])];
    request.jobs = vec![Job { long_id: 4, name: String::from("bad-job") }];
    let err = request.to_environment_domain(&TestTarget).unwrap_err();
    assert!(matches!(err, DomainError::ApplicationError(_)));

    // failures in containers and databases: the container error wins
    let mut request = empty_request();
    request.containers = vec![container(5, "bad-ctr", true, "10.0.0.0/8")];
    request.databases = vec![Database { long_id: 6, name: String::from("bad-db") }];
    let err = request.to_environment_domain(&TestTarget).unwrap_err();
    assert!(matches!(err, DomainError::ContainerError(_)));

    // failures in routers and databases: the router error wins
    let mut request = empty_request();
    request.routers = vec![router(7, "bad-router", &[])];
    request.databases = vec![Database { long_id: 8, name: String::from("bad-db") }];
    let err = request.to_environment_domain(&TestTarget).unwrap_err();
    assert!(matches!(err, DomainError::RouterError(_)));

    // failures in databases and jobs: the database error wins
    let mut request = empty_request();
    request.databases = vec![Database { long_id: 9, name: String::from("bad-db") }];
    request.jobs = vec![Job { long_id: 10, name: String::from("bad-job") }];
    let err = request.to_environment_domain(&TestTarget).unwrap_err();
    assert!(matches!(err, DomainError::DatabaseError(_)));

    // a failure in jobs alone
    let mut request = empty_request();
    request.jobs = vec![Job { long_id: 12, name: String::from("bad-job") }];
    let err = request.to_environment_domain(&TestTarget).unwrap_err();
    assert!(matches!(err, DomainError::JobError(_)));
}

#[test]
fn first_failing_entity_within_a_category_decides_the_message() {
    let mut request = empty_request();
    request.applications = vec![
        application(1, "web", true, "10.0.0.0/8"),
        application(2, "bad-one", true, "10.0.0.0/8"),
        application(3, "bad-two", true, "10.0.0.0/8"),
    ];
    let err = request.to_environment_domain(&TestTarget).unwrap_err();
    match err {
        DomainError::ApplicationError(e) => {
            assert_eq!(e.message, "unbuildable image for bad-one");
        }
        other => panic!("unexpected error kind: {:?}", other),
    }
}

#[test]
fn router_with_no_routes_keeps_the_default_posture() {
    let mut request = empty_request();
    request.applications = vec![application(1, "web", false, "1.2.3.0/24")];
    request.routers = vec![router(2, "edge", &[])];
    let env = request.to_environment_domain(&TestTarget).unwrap();
    assert_eq!(env.routers.len(), 1);
    assert!(env.routers[0].custom_domain_check_enabled);
    assert_eq!(env.routers[0].whitelist_source_range, "0.0.0.0/0");
}

#[test]
fn router_with_unmatched_routes_keeps_the_default_posture() {
    let mut request = empty_request();
    request.applications = vec![application(1, "web", false, "1.2.3.0/24")];
    request.containers = vec![container(2, "api", false, "5.6.7.0/24")];
    request.routers = vec![router(3, "edge", &[99])];
    let env = request.to_environment_domain(&TestTarget).unwrap();
    assert!(env.routers[0].custom_domain_check_enabled);
    assert_eq!(env.routers[0].whitelist_source_range, "0.0.0.0/0");
}

#[test]
fn any_disabled_match_disables_the_check() {
    // the disabled service first
    let mut request = empty_request();
    request.applications = vec![
        application(1, "web", false, "1.2.3.0/24"),
        application(2, "api", true, "4.4.4.0/24"),
    ];
    request.routers = vec![router(3, "edge", &[1, 2])];
    let env = request.to_environment_domain(&TestTarget).unwrap();
    assert!(!env.routers[0].custom_domain_check_enabled);

    // the disabled service last: a later enabled match never re-enables
    let mut request = empty_request();
    request.applications = vec![
        application(1, "web", true, "1.2.3.0/24"),
        application(2, "api", false, "4.4.4.0/24"),
    ];
    request.routers = vec![router(3, "edge", &[1, 2])];
    let env = request.to_environment_domain(&TestTarget).unwrap();
    assert!(!env.routers[0].custom_domain_check_enabled);
}

#[test]
fn last_match_overwrites_the_whitelist() {
    // application A before container C: the container is scanned later and
    // its range overwrites the application's
    let mut request = empty_request();
    request.applications = vec![application(1, "a", true, "1.2.3.0/24")];
    request.containers = vec![container(2, "c", false, "5.6.7.0/24")];
    request.routers = vec![router(3, "edge", &[1, 2])];
    let env = request.to_environment_domain(&TestTarget).unwrap();
    assert!(!env.routers[0].custom_domain_check_enabled);
    assert_eq!(env.routers[0].whitelist_source_range, "5.6.7.0/24");
}

#[test]
fn assembly_is_idempotent() {
    let mut request = empty_request();
    request.applications = vec![
        application(1, "web", true, "10.0.0.0/8"),
        application(2, "api", false, "9.9.9.0/24"),
    ];
    request.containers = vec![container(3, "cache", true, "8.8.8.0/24")];
    request.routers = vec![router(4, "edge", &[1, 3])];
    request.databases = vec![Database { long_id: 5, name: String::from("pg") }];
    request.jobs = vec![Job { long_id: 6, name: String::from("cron") }];
    let first = request.to_environment_domain(&TestTarget);
    let second = request.to_environment_domain(&TestTarget);
    assert_eq!(first, second);

    let mut failing = request.clone();
    failing.databases = vec![Database { long_id: 7, name: String::from("bad-db") }];
    let first = failing.to_environment_domain(&TestTarget);
    let second = failing.to_environment_domain(&TestTarget);
    assert_eq!(first, second);
}

#[test]
fn one_application_one_router_success_scenario() {
    let mut request = empty_request();
    request.applications = vec![application(1, "web", true, "10.0.0.0/8")];
    request.routers = vec![router(2, "edge", &[1])];
    let env = request.to_environment_domain(&TestTarget).unwrap();
    assert_eq!(env.applications.len(), 1);
    assert_eq!(env.routers.len(), 1);
    assert!(env.containers.is_empty());
    assert!(env.databases.is_empty());
    assert!(env.jobs.is_empty());
    assert!(env.routers[0].custom_domain_check_enabled);
    assert_eq!(env.routers[0].whitelist_source_range, "10.0.0.0/8");
    // the application translation consumed the registry's connection info
    assert_eq!(env.applications[0].name, "web@registry.local");
}

#[test]
fn requested_action_resolves_to_the_service_action() {
    for (action, expected) in [
        (Action::Create, ServiceAction::Create),
        (Action::Pause, ServiceAction::Pause),
        (Action::Delete, ServiceAction::Delete),
        (Action::Restart, ServiceAction::Restart),
    ] {
        let mut request = empty_request();
        request.action = action;
        let env = request.to_environment_domain(&TestTarget).unwrap();
        assert_eq!(env.action, expected);
        assert_eq!(action.to_service_action(), expected);
    }
}

#[test]
fn error_messages_carry_the_per_kind_prefix() {
    let mut request = empty_request();
    request.applications = vec![application(1, "bad-app", true, "10.0.0.0/8")];
    let err = request.to_environment_domain(&TestTarget).unwrap_err();
    assert_eq!(err.message(), "Invalid application: unbuildable image for bad-app");

    let mut request = empty_request();
    request.containers = vec![container(2, "bad-ctr", true, "10.0.0.0/8")];
    let err = request.to_environment_domain(&TestTarget).unwrap_err();
    assert_eq!(err.message(), "Invalid container: unknown registry for bad-ctr");

    let mut request = empty_request();
    request.routers = vec![router(3, "bad-edge", &[])];
    let err = request.to_environment_domain(&TestTarget).unwrap_err();
    assert_eq!(err.message(), "Invalid router: malformed domain for bad-edge");

    let mut request = empty_request();
    request.databases = vec![Database { long_id: 4, name: String::from("bad-db") }];
    let err = request.to_environment_domain(&TestTarget).unwrap_err();
    assert_eq!(err.message(), "Invalid database: invalid engine for bad-db");

    let mut request = empty_request();
    request.jobs = vec![Job { long_id: 5, name: String::from("bad-job") }];
    let err = request.to_environment_domain(&TestTarget).unwrap_err();
    assert_eq!(err.message(), "Invalid job: invalid schedule for bad-job");
}

#[test]
fn no_partial_work_survives_a_failure() {
    // a failing job aborts the whole assembly although every earlier
    // category translated cleanly
    let mut request = empty_request();
    request.applications = vec![application(1, "web", true, "10.0.0.0/8")];
    request.containers = vec![container(2, "api", true, "10.0.0.0/8")];
    request.routers = vec![router(3, "edge", &[1])];
    request.databases = vec![Database { long_id: 4, name: String::from("pg") }];
    request.jobs = vec![Job { long_id: 5, name: String::from("bad-job") }];
    let outcome = request.to_environment_domain(&TestTarget);
    assert!(matches!(outcome, Err(DomainError::JobError(_))));
}
