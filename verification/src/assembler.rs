//! Domain assembler: orchestrates the translation of every entity collection
//! of a request in a fixed category order — applications, containers,
//! routers, databases, jobs — aborts on the first translation failure, and
//! constructs the validated environment aggregate only when every entity in
//! every collection has succeeded.

use vstd::prelude::*;

use crate::domain::{
    ApplicationDomain, ApplicationError, ContainerDomain, ContainerError, DatabaseDomain,
    DatabaseError, DomainError, Environment, EnvironmentView, JobDomain, JobError, RouterDomain,
    RouterError,
};
use crate::request::{Application, Container, Database, EnvironmentRequest, Job, Router};
use crate::resolver::{
    combined_service_facts, resolve_router_posture, resolved_custom_domain_check,
    resolved_whitelist,
};

verus! {

/// Connection information returned by the container-registry capability,
/// consumed by the application translation contract as its build descriptor.
#[derive(Clone, PartialEq, Eq, Debug)]
pub struct RegistryInfo {
    pub endpoint: String,
}

/// The capabilities one assembly call consumes: the execution context, the
/// cloud-provider capability, the container-registry capability, and the
/// five per-kind entity translation contracts. The assembler treats every
/// contract as opaque and total; an implementation decides what validates
/// and what each validated entity or error is.
///
/// Each exec method returns exactly what the ghost outcome function of the
/// same shape names, so a target's responses are deterministic in this
/// model: the outcome of an assembly is a function of the request and the
/// target alone. The ghost functions default to an unspecified — opaque but
/// fixed — outcome per contract, so a target outside the verified world
/// implements the five translation methods and the registry query alone.
pub trait DeploymentTarget {
    /// What the registry capability's connection-info query returns.
    open spec fn registry_info_spec(&self) -> RegistryInfo {
        vstd::pervasive::arbitrary()
    }

    /// The outcome of the application translation contract.
    open spec fn application_outcome(&self, app: Application, build: RegistryInfo) -> Result<
        ApplicationDomain,
        ApplicationError,
    > {
        vstd::pervasive::arbitrary()
    }

    /// The outcome of the container translation contract.
    open spec fn container_outcome(&self, container: Container) -> Result<
        ContainerDomain,
        ContainerError,
    > {
        vstd::pervasive::arbitrary()
    }

    /// The outcome of the router translation contract, given the security
    /// posture the resolver derived for the router.
    open spec fn router_outcome(
        &self,
        router: Router,
        custom_domain_check_enabled: bool,
        whitelist_source_range: Seq<char>,
    ) -> Result<RouterDomain, RouterError> {
        vstd::pervasive::arbitrary()
    }

    /// The outcome of the database translation contract.
    open spec fn database_outcome(&self, database: Database) -> Result<DatabaseDomain, DatabaseError> {
        vstd::pervasive::arbitrary()
    }

    /// The outcome of the job translation contract.
    open spec fn job_outcome(&self, job: Job) -> Result<JobDomain, JobError> {
        vstd::pervasive::arbitrary()
    }

    /// Queries the container registry for its connection information.
    fn registry_info(&self) -> (r: RegistryInfo)
        ensures
            r == self.registry_info_spec(),
    ;

    /// Translates one application, consuming the build descriptor obtained
    /// from the registry capability.
    fn translate_application(&self, app: &Application, build: &RegistryInfo) -> (r: Result<
        ApplicationDomain,
        ApplicationError,
    >)
        ensures
            r == self.application_outcome(*app, *build),
    ;

    /// Translates one container.
    fn translate_container(&self, container: &Container) -> (r: Result<
        ContainerDomain,
        ContainerError,
    >)
        ensures
            r == self.container_outcome(*container),
    ;

    /// Translates one router, consuming the security posture the resolver
    /// derived for it.
    fn translate_router(
        &self,
        router: &Router,
        custom_domain_check_enabled: bool,
        whitelist_source_range: String,
    ) -> (r: Result<RouterDomain, RouterError>)
        ensures
            r == self.router_outcome(
                *router,
                custom_domain_check_enabled,
                whitelist_source_range@,
            ),
    ;

    /// Translates one database.
    fn translate_database(&self, database: &Database) -> (r: Result<DatabaseDomain, DatabaseError>)
        ensures
            r == self.database_outcome(*database),
    ;

    /// Translates one job.
    fn translate_job(&self, job: &Job) -> (r: Result<JobDomain, JobError>)
        ensures
            r == self.job_outcome(*job),
    ;
}

/// Translates a collection in declaration order under one fallible
/// per-entity contract: the validated entities in order if every entity
/// succeeds, else the error of the first failing entity.
pub open spec fn translate_sequence<A, D, E>(
    items: Seq<A>,
    contract: spec_fn(A) -> Result<D, E>,
) -> Result<Seq<D>, E>
    decreases items.len(),
{
    if items.len() == 0 {
        Ok(Seq::empty())
    } else {
        match translate_sequence(items.drop_last(), contract) {
            Ok(done) => match contract(items.last()) {
                Ok(d) => Ok(done.push(d)),
                Err(e) => Err(e),
            },
            Err(e) => Err(e),
        }
    }
}

/// The application contract of a target, with the registry's connection
/// information already consulted.
pub open spec fn application_contract<T: DeploymentTarget>(target: T) -> spec_fn(Application) -> Result<
    ApplicationDomain,
    ApplicationError,
> {
    |a: Application| target.application_outcome(a, target.registry_info_spec())
}

/// The container contract of a target.
pub open spec fn container_contract<T: DeploymentTarget>(target: T) -> spec_fn(Container) -> Result<
    ContainerDomain,
    ContainerError,
> {
    |c: Container| target.container_outcome(c)
}

/// The router contract of a target, fed the security posture the resolver
/// derives from the given applications and containers.
pub open spec fn router_contract<T: DeploymentTarget>(
    target: T,
    applications: Seq<Application>,
    containers: Seq<Container>,
) -> spec_fn(Router) -> Result<RouterDomain, RouterError> {
    |r: Router|
        target.router_outcome(
            r,
            resolved_custom_domain_check(
                combined_service_facts(applications, containers),
                r.routes@,
            ),
            resolved_whitelist(combined_service_facts(applications, containers), r.routes@),
        )
}

/// The database contract of a target.
pub open spec fn database_contract<T: DeploymentTarget>(target: T) -> spec_fn(Database) -> Result<
    DatabaseDomain,
    DatabaseError,
> {
    |d: Database| target.database_outcome(d)
}

/// The job contract of a target.
pub open spec fn job_contract<T: DeploymentTarget>(target: T) -> spec_fn(Job) -> Result<
    JobDomain,
    JobError,
> {
    |j: Job| target.job_outcome(j)
}

/// The outcome of assembling a request against a target: the validated
/// aggregate when every entity of every collection translates successfully,
/// else the first failure — in category order applications, containers,
/// routers, databases, jobs, and in declaration order within a category —
/// wrapped in its taxonomy variant.
pub open spec fn assembly_outcome<T: DeploymentTarget>(
    target: T,
    request: EnvironmentRequest,
) -> Result<EnvironmentView, DomainError> {
    match translate_sequence(request.applications@, application_contract(target)) {
        Err(e) => Err(DomainError::ApplicationError(e)),
        Ok(applications) => match translate_sequence(
            request.containers@,
            container_contract(target),
        ) {
            Err(e) => Err(DomainError::ContainerError(e)),
            Ok(containers) => match translate_sequence(
                request.routers@,
                router_contract(target, request.applications@, request.containers@),
            ) {
                Err(e) => Err(DomainError::RouterError(e)),
                Ok(routers) => match translate_sequence(
                    request.databases@,
                    database_contract(target),
                ) {
                    Err(e) => Err(DomainError::DatabaseError(e)),
                    Ok(databases) => match translate_sequence(request.jobs@, job_contract(target)) {
                        Err(e) => Err(DomainError::JobError(e)),
                        Ok(jobs) => Ok(
                            EnvironmentView {
                                long_id: request.long_id,
                                name: request.name@,
                                project_long_id: request.project_long_id,
                                organization_long_id: request.organization_long_id,
                                action: request.action.service_action(),
                                applications,
                                containers,
                                routers,
                                databases,
                                jobs,
                            },
                        ),
                    },
                },
            },
        },
    }
}

/// The spec-level picture of an assembly result.
pub open spec fn result_view(r: Result<Environment, DomainError>) -> Result<
    EnvironmentView,
    DomainError,
> {
    match r {
        Ok(env) => Ok(env@),
        Err(e) => Err(e),
    }
}

/// Extending an error-free translated prefix by one more successful entity.
proof fn lemma_translate_sequence_extend<A, D, E>(
    items: Seq<A>,
    contract: spec_fn(A) -> Result<D, E>,
    i: int,
    done: Seq<D>,
    d: D,
)
    requires
        0 <= i < items.len(),
        translate_sequence(items.take(i), contract) == Ok::<Seq<D>, E>(done),
        contract(items[i]) == Ok::<D, E>(d),
    ensures
        translate_sequence(items.take(i + 1), contract) == Ok::<Seq<D>, E>(done.push(d)),
{
    assert(items.take(i + 1).drop_last() =~= items.take(i));
    assert(items.take(i + 1).last() == items[i]);
}

/// First error wins: when the prefix before position `i` translates cleanly
/// and the entity at `i` fails, the whole collection fails with that error,
/// whatever follows.
proof fn lemma_translate_sequence_first_error<A, D, E>(
    items: Seq<A>,
    contract: spec_fn(A) -> Result<D, E>,
    i: int,
)
    requires
        0 <= i < items.len(),
        translate_sequence(items.take(i), contract) is Ok,
        contract(items[i]) is Err,
    ensures
        translate_sequence(items, contract) == Err::<Seq<D>, E>(contract(items[i])->Err_0),
    decreases items.len(),
{
    if items.len() == i + 1 {
        assert(items.drop_last() =~= items.take(i));
        assert(items.last() == items[i]);
    } else {
        assert(items.drop_last().take(i) =~= items.take(i));
        assert(items.drop_last()[i] == items[i]);
        lemma_translate_sequence_first_error(items.drop_last(), contract, i);
    }
}

/// A collection fails to translate exactly when it contains a failing
/// entity.
pub proof fn lemma_translate_sequence_fails_iff<A, D, E>(
    items: Seq<A>,
    contract: spec_fn(A) -> Result<D, E>,
)
    ensures
        translate_sequence(items, contract) is Err <==> exists|i: int|
            0 <= i < items.len() && contract(#[trigger] items[i]) is Err,
    decreases items.len(),
{
    if items.len() > 0 {
        let prefix = items.drop_last();
        lemma_translate_sequence_fails_iff(prefix, contract);
        assert(forall|i: int| 0 <= i < prefix.len() ==> (#[trigger] prefix[i]) == items[i]);
        assert(items.last() == items[items.len() - 1]);
        if translate_sequence(items, contract) is Err {
            if translate_sequence(prefix, contract) is Err {
                let k = choose|i: int| 0 <= i < prefix.len() && contract(#[trigger] prefix[i]) is Err;
                assert(contract(items[k]) is Err);
            } else {
                assert(contract(items[items.len() - 1]) is Err);
            }
        }
        if exists|i: int| 0 <= i < items.len() && contract(#[trigger] items[i]) is Err {
            let k = choose|i: int| 0 <= i < items.len() && contract(#[trigger] items[i]) is Err;
            if k < items.len() - 1 {
                assert(contract(prefix[k]) is Err);
            }
        }
    }
}

/// A collection translates successfully only entity-wise: every entity
/// validates, and the validated collection carries each entity's validated
/// form, in declaration order.
pub proof fn lemma_translate_sequence_ok_maps<A, D, E>(
    items: Seq<A>,
    contract: spec_fn(A) -> Result<D, E>,
)
    requires
        translate_sequence(items, contract) is Ok,
    ensures
        translate_sequence(items, contract)->Ok_0.len() == items.len(),
        forall|i: int|
            0 <= i < items.len() ==> contract(#[trigger] items[i]) is Ok && translate_sequence(
                items,
                contract,
            )->Ok_0[i] == contract(items[i])->Ok_0,
    decreases items.len(),
{
    if items.len() > 0 {
        let prefix = items.drop_last();
        lemma_translate_sequence_ok_maps(prefix, contract);
        assert(items.last() == items[items.len() - 1]);
        let done = translate_sequence(prefix, contract)->Ok_0;
        let all = translate_sequence(items, contract)->Ok_0;
        assert(all == done.push(contract(items.last())->Ok_0));
        assert forall|i: int|
            0 <= i < items.len() implies contract(#[trigger] items[i]) is Ok && translate_sequence(
            items,
            contract,
        )->Ok_0[i] == contract(items[i])->Ok_0 by {
            if i < items.len() - 1 {
                assert(prefix[i] == items[i]);
                assert(contract(prefix[i]) is Ok);
                assert(all[i] == done[i]);
            } else {
                assert(all[i] == contract(items.last())->Ok_0);
            }
        }
    }
}

/// The all-or-nothing invariant of the aggregate: a successful assembly has
/// validated every entity of every collection, and each collection of the
/// aggregate is the entity-wise validated form of the request's, in
/// declaration order — routers under the security posture the resolver
/// derived for them.
pub proof fn lemma_aggregate_all_validated<T: DeploymentTarget>(
    target: T,
    request: EnvironmentRequest,
)
    requires
        assembly_outcome(target, request) is Ok,
    ensures
        ({
            let env = assembly_outcome(target, request)->Ok_0;
            &&& env.applications.len() == request.applications@.len()
            &&& forall|i: int|
                0 <= i < request.applications@.len() ==> application_contract(target)(
                    #[trigger] request.applications@[i],
                ) == Ok::<ApplicationDomain, ApplicationError>(env.applications[i])
            &&& env.containers.len() == request.containers@.len()
            &&& forall|i: int|
                0 <= i < request.containers@.len() ==> container_contract(target)(
                    #[trigger] request.containers@[i],
                ) == Ok::<ContainerDomain, ContainerError>(env.containers[i])
            &&& env.routers.len() == request.routers@.len()
            &&& forall|i: int|
                0 <= i < request.routers@.len() ==> router_contract(
                    target,
                    request.applications@,
                    request.containers@,
                )(#[trigger] request.routers@[i]) == Ok::<RouterDomain, RouterError>(env.routers[i])
            &&& env.databases.len() == request.databases@.len()
            &&& forall|i: int|
                0 <= i < request.databases@.len() ==> database_contract(target)(
                    #[trigger] request.databases@[i],
                ) == Ok::<DatabaseDomain, DatabaseError>(env.databases[i])
            &&& env.jobs.len() == request.jobs@.len()
            &&& forall|i: int|
                0 <= i < request.jobs@.len() ==> job_contract(target)(
                    #[trigger] request.jobs@[i],
                ) == Ok::<JobDomain, JobError>(env.jobs[i])
        }),
{
    lemma_translate_sequence_ok_maps(request.applications@, application_contract(target));
    lemma_translate_sequence_ok_maps(request.containers@, container_contract(target));
    lemma_translate_sequence_ok_maps(
        request.routers@,
        router_contract(target, request.applications@, request.containers@),
    );
    lemma_translate_sequence_ok_maps(request.databases@, database_contract(target));
    lemma_translate_sequence_ok_maps(request.jobs@, job_contract(target));
}

/// Whether the application collection of a request contains an entity its
/// translation contract rejects.
pub open spec fn some_application_fails<T: DeploymentTarget>(
    target: T,
    request: EnvironmentRequest,
) -> bool {
    exists|i: int|
        0 <= i < request.applications@.len() && application_contract(target)(
            #[trigger] request.applications@[i],
        ) is Err
}

/// Whether the container collection of a request contains an entity its
/// translation contract rejects.
pub open spec fn some_container_fails<T: DeploymentTarget>(
    target: T,
    request: EnvironmentRequest,
) -> bool {
    exists|i: int|
        0 <= i < request.containers@.len() && container_contract(target)(
            #[trigger] request.containers@[i],
        ) is Err
}

/// Whether the router collection of a request contains an entity its
/// translation contract rejects, given the posture the resolver derives.
pub open spec fn some_router_fails<T: DeploymentTarget>(
    target: T,
    request: EnvironmentRequest,
) -> bool {
    exists|i: int|
        0 <= i < request.routers@.len() && router_contract(
            target,
            request.applications@,
            request.containers@,
        )(#[trigger] request.routers@[i]) is Err
}

/// Whether the database collection of a request contains an entity its
/// translation contract rejects.
pub open spec fn some_database_fails<T: DeploymentTarget>(
    target: T,
    request: EnvironmentRequest,
) -> bool {
    exists|i: int|
        0 <= i < request.databases@.len() && database_contract(target)(
            #[trigger] request.databases@[i],
        ) is Err
}

/// Whether the job collection of a request contains an entity its
/// translation contract rejects.
pub open spec fn some_job_fails<T: DeploymentTarget>(
    target: T,
    request: EnvironmentRequest,
) -> bool {
    exists|i: int|
        0 <= i < request.jobs@.len() && job_contract(target)(#[trigger] request.jobs@[i]) is Err
}

/// Empty-request success: a request whose five collections are all empty
/// always assembles successfully, into an aggregate whose five collections
/// are all empty.
pub proof fn lemma_empty_request_succeeds<T: DeploymentTarget>(
    target: T,
    request: EnvironmentRequest,
)
    requires
        request.applications@.len() == 0,
        request.containers@.len() == 0,
        request.jobs@.len() == 0,
        request.routers@.len() == 0,
        request.databases@.len() == 0,
    ensures
        assembly_outcome(target, request) == Ok::<EnvironmentView, DomainError>(
            EnvironmentView {
                long_id: request.long_id,
                name: request.name@,
                project_long_id: request.project_long_id,
                organization_long_id: request.organization_long_id,
                action: request.action.service_action(),
                applications: Seq::empty(),
                containers: Seq::empty(),
                routers: Seq::empty(),
                databases: Seq::empty(),
                jobs: Seq::empty(),
            },
        ),
{
}

/// Category-order invariant: an assembly fails exactly when some category
/// contains a failing entity, and the error's kind is the first such
/// category in the fixed order applications, containers, routers, databases,
/// jobs — however many later categories also contain failures.
pub proof fn lemma_first_failing_category<T: DeploymentTarget>(
    target: T,
    request: EnvironmentRequest,
)
    ensures
        assembly_outcome(target, request) is Ok <==> (!some_application_fails(target, request)
            && !some_container_fails(target, request) && !some_router_fails(target, request)
            && !some_database_fails(target, request) && !some_job_fails(target, request)),
        (assembly_outcome(target, request) matches Err(DomainError::ApplicationError(_)))
            <==> some_application_fails(target, request),
        (assembly_outcome(target, request) matches Err(DomainError::ContainerError(_))) <==> (
        !some_application_fails(target, request) && some_container_fails(target, request)),
        (assembly_outcome(target, request) matches Err(DomainError::RouterError(_))) <==> (
        !some_application_fails(target, request) && !some_container_fails(target, request)
            && some_router_fails(target, request)),
        (assembly_outcome(target, request) matches Err(DomainError::DatabaseError(_))) <==> (
        !some_application_fails(target, request) && !some_container_fails(target, request)
            && !some_router_fails(target, request) && some_database_fails(target, request)),
        (assembly_outcome(target, request) matches Err(DomainError::JobError(_))) <==> (
        !some_application_fails(target, request) && !some_container_fails(target, request)
            && !some_router_fails(target, request) && !some_database_fails(target, request)
            && some_job_fails(target, request)),
{
    lemma_translate_sequence_fails_iff(request.applications@, application_contract(target));
    lemma_translate_sequence_fails_iff(request.containers@, container_contract(target));
    lemma_translate_sequence_fails_iff(
        request.routers@,
        router_contract(target, request.applications@, request.containers@),
    );
    lemma_translate_sequence_fails_iff(request.databases@, database_contract(target));
    lemma_translate_sequence_fails_iff(request.jobs@, job_contract(target));
}

/// Idempotence: the outcome of an assembly is a function of the request and
/// the target alone, so two calls of
/// [`EnvironmentRequest::to_environment_domain`] with an identical request
/// and an identical target produce structurally equal outcomes.
pub proof fn lemma_assembly_deterministic<T: DeploymentTarget>(
    target: T,
    request: EnvironmentRequest,
    r1: Result<Environment, DomainError>,
    r2: Result<Environment, DomainError>,
)
    requires
        result_view(r1) == assembly_outcome(target, request),
        result_view(r2) == assembly_outcome(target, request),
    ensures
        result_view(r1) == result_view(r2),
{
}

impl EnvironmentRequest {
    /// Assembles this request against a deployment target: translates every
    /// entity collection in the fixed category order — applications,
    /// containers, routers, databases, jobs — and in declaration order
    /// within each category; feeds each router's translation the security
    /// posture the resolver derived for it; returns the validated aggregate
    /// only when every entity succeeded, else the first failure wrapped in
    /// its taxonomy variant.
    pub fn to_environment_domain<T: DeploymentTarget>(&self, target: &T) -> (r: Result<
        Environment,
        DomainError,
    >)
        ensures
            result_view(r) == assembly_outcome(*target, *self),
    {
        let mut applications: Vec<ApplicationDomain> = Vec::new();
        let mut i: usize = 0;
        while i < self.applications.len()
            invariant
                0 <= i <= self.applications@.len(),
                translate_sequence(self.applications@.take(i as int), application_contract(*target))
                    == Ok::<Seq<ApplicationDomain>, ApplicationError>(applications@),
            decreases self.applications@.len() - i,
        {
            let ghost done = applications@;
            let build = target.registry_info();
            match target.translate_application(&self.applications[i], &build) {
                Ok(app) => {
                    applications.push(app);
                    proof {
                        lemma_translate_sequence_extend(
                            self.applications@,
                            application_contract(*target),
                            i as int,
                            done,
                            app,
                        );
                    }
                },
                Err(e) => {
                    proof {
                        lemma_translate_sequence_first_error(
                            self.applications@,
                            application_contract(*target),
                            i as int,
                        );
                    }
                    return Err(DomainError::ApplicationError(e));
                },
            }
            i += 1;
        }
        proof {
            assert(self.applications@.take(self.applications@.len() as int)
                =~= self.applications@);
        }

        let mut containers: Vec<ContainerDomain> = Vec::new();
        let mut i: usize = 0;
        while i < self.containers.len()
            invariant
                0 <= i <= self.containers@.len(),
                translate_sequence(self.applications@, application_contract(*target)) is Ok,
                translate_sequence(self.containers@.take(i as int), container_contract(*target))
                    == Ok::<Seq<ContainerDomain>, ContainerError>(containers@),
            decreases self.containers@.len() - i,
        {
            let ghost done = containers@;
            match target.translate_container(&self.containers[i]) {
                Ok(container) => {
                    containers.push(container);
                    proof {
                        lemma_translate_sequence_extend(
                            self.containers@,
                            container_contract(*target),
                            i as int,
                            done,
                            container,
                        );
                    }
                },
                Err(e) => {
                    proof {
                        lemma_translate_sequence_first_error(
                            self.containers@,
                            container_contract(*target),
                            i as int,
                        );
                    }
                    return Err(DomainError::ContainerError(e));
                },
            }
            i += 1;
        }
        proof {
            assert(self.containers@.take(self.containers@.len() as int) =~= self.containers@);
        }

        let mut routers: Vec<RouterDomain> = Vec::new();
        let mut i: usize = 0;
        while i < self.routers.len()
            invariant
                0 <= i <= self.routers@.len(),
                translate_sequence(self.applications@, application_contract(*target)) is Ok,
                translate_sequence(self.containers@, container_contract(*target)) is Ok,
                translate_sequence(
                    self.routers@.take(i as int),
                    router_contract(*target, self.applications@, self.containers@),
                ) == Ok::<Seq<RouterDomain>, RouterError>(routers@),
            decreases self.routers@.len() - i,
        {
            let ghost done = routers@;
            let router = &self.routers[i];
            let (custom_domain_check_enabled, whitelist_source_range) = resolve_router_posture(
                &self.applications,
                &self.containers,
                router,
            );
            match target.translate_router(
                router,
                custom_domain_check_enabled,
                whitelist_source_range,
            ) {
                Ok(router) => {
                    routers.push(router);
                    proof {
                        lemma_translate_sequence_extend(
                            self.routers@,
                            router_contract(*target, self.applications@, self.containers@),
                            i as int,
                            done,
                            router,
                        );
                    }
                },
                Err(e) => {
                    proof {
                        lemma_translate_sequence_first_error(
                            self.routers@,
                            router_contract(*target, self.applications@, self.containers@),
                            i as int,
                        );
                    }
                    return Err(DomainError::RouterError(e));
                },
            }
            i += 1;
        }
        proof {
            assert(self.routers@.take(self.routers@.len() as int) =~= self.routers@);
        }

        let mut databases: Vec<DatabaseDomain> = Vec::new();
        let mut i: usize = 0;
        while i < self.databases.len()
            invariant
                0 <= i <= self.databases@.len(),
                translate_sequence(self.applications@, application_contract(*target)) is Ok,
                translate_sequence(self.containers@, container_contract(*target)) is Ok,
                translate_sequence(
                    self.routers@,
                    router_contract(*target, self.applications@, self.containers@),
                ) is Ok,
                translate_sequence(self.databases@.take(i as int), database_contract(*target))
                    == Ok::<Seq<DatabaseDomain>, DatabaseError>(databases@),
            decreases self.databases@.len() - i,
        {
            let ghost done = databases@;
            match target.translate_database(&self.databases[i]) {
                Ok(database) => {
                    databases.push(database);
                    proof {
                        lemma_translate_sequence_extend(
                            self.databases@,
                            database_contract(*target),
                            i as int,
                            done,
                            database,
                        );
                    }
                },
                Err(e) => {
                    proof {
                        lemma_translate_sequence_first_error(
                            self.databases@,
                            database_contract(*target),
                            i as int,
                        );
                    }
                    return Err(DomainError::DatabaseError(e));
                },
            }
            i += 1;
        }
        proof {
            assert(self.databases@.take(self.databases@.len() as int) =~= self.databases@);
        }

        let mut jobs: Vec<JobDomain> = Vec::new();
        let mut i: usize = 0;
        while i < self.jobs.len()
            invariant
                0 <= i <= self.jobs@.len(),
                translate_sequence(self.applications@, application_contract(*target)) is Ok,
                translate_sequence(self.containers@, container_contract(*target)) is Ok,
                translate_sequence(
                    self.routers@,
                    router_contract(*target, self.applications@, self.containers@),
                ) is Ok,
                translate_sequence(self.databases@, database_contract(*target)) is Ok,
                translate_sequence(self.jobs@.take(i as int), job_contract(*target))
                    == Ok::<Seq<JobDomain>, JobError>(jobs@),
            decreases self.jobs@.len() - i,
        {
            let ghost done = jobs@;
            match target.translate_job(&self.jobs[i]) {
                Ok(job) => {
                    jobs.push(job);
                    proof {
                        lemma_translate_sequence_extend(
                            self.jobs@,
                            job_contract(*target),
                            i as int,
                            done,
                            job,
                        );
                    }
                },
                Err(e) => {
                    proof {
                        lemma_translate_sequence_first_error(
                            self.jobs@,
                            job_contract(*target),
                            i as int,
                        );
                    }
                    return Err(DomainError::JobError(e));
                },
            }
            i += 1;
        }
        proof {
            assert(self.jobs@.take(self.jobs@.len() as int) =~= self.jobs@);
        }

        Ok(
            Environment::new(
                self.long_id,
                self.name.clone(),
                self.project_long_id,
                self.organization_long_id,
                self.action.to_service_action(),
                applications,
                containers,
                routers,
                databases,
                jobs,
            ),
        )
    }
}

} // verus!
