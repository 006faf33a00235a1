//! Cross-reference resolver: derives a router's security posture — its
//! effective custom-domain-check flag and its effective whitelist source
//! range — from the raw application and container requests its routes
//! reference.

use vstd::prelude::*;
use vstd::string::StringExecFns;

use crate::request::{Application, Container, Route, Router};

verus! {

/// The facts the resolver reads of one routable service: its unique id and
/// its two advanced settings.
pub struct ServiceFacts {
    pub long_id: u128,
    pub custom_domain_check_enabled: bool,
    pub whitelist_source_range: Seq<char>,
}

impl Application {
    /// The resolver-relevant facts of this application.
    pub open spec fn service_facts(self) -> ServiceFacts {
        ServiceFacts {
            long_id: self.long_id,
            custom_domain_check_enabled: self
                .advanced_settings
                .deployment_custom_domain_check_enabled,
            whitelist_source_range: self
                .advanced_settings
                .network_ingress_whitelist_source_range@,
        }
    }
}

impl Container {
    /// The resolver-relevant facts of this container.
    pub open spec fn service_facts(self) -> ServiceFacts {
        ServiceFacts {
            long_id: self.long_id,
            custom_domain_check_enabled: self
                .advanced_settings
                .deployment_custom_domain_check_enabled,
            whitelist_source_range: self
                .advanced_settings
                .network_ingress_whitelist_source_range@,
        }
    }
}

/// Whether some route targets the service with the given id.
pub open spec fn routes_target(routes: Seq<Route>, id: u128) -> bool {
    exists|i: int| 0 <= i < routes.len() && routes[i].service_long_id == id
}

/// The combined scan order of the resolver: all applications, in declaration
/// order, followed by all containers, in declaration order.
pub open spec fn combined_service_facts(
    applications: Seq<Application>,
    containers: Seq<Container>,
) -> Seq<ServiceFacts> {
    applications.map(|i: int, a: Application| a.service_facts()) + containers.map(
        |i: int, c: Container| c.service_facts(),
    )
}

/// The allow-all whitelist a router keeps when no route matches a service.
pub open spec fn default_whitelist() -> Seq<char> {
    "0.0.0.0/0"@
}

/// The resolved custom-domain-check flag: enabled unless some matched
/// service has it disabled. The flag is monotonic-off over the scan — a
/// disabled match can never be re-enabled by a later one — so the result
/// does not depend on scan order.
pub open spec fn resolved_custom_domain_check(
    services: Seq<ServiceFacts>,
    routes: Seq<Route>,
) -> bool {
    forall|i: int|
        0 <= i < services.len() && routes_target(routes, (#[trigger] services[i]).long_id)
            ==> services[i].custom_domain_check_enabled
}

/// The resolved whitelist source range: each matched service overwrites it
/// unconditionally, so the last matched service in scan order wins; with no
/// match the allow-all default stays.
pub open spec fn resolved_whitelist(services: Seq<ServiceFacts>, routes: Seq<Route>) -> Seq<char>
    decreases services.len(),
{
    if services.len() == 0 {
        default_whitelist()
    } else if routes_target(routes, services.last().long_id) {
        services.last().whitelist_source_range
    } else {
        resolved_whitelist(services.drop_last(), routes)
    }
}

/// How one more scanned service changes the resolved check flag.
pub proof fn lemma_resolved_check_push(
    services: Seq<ServiceFacts>,
    service: ServiceFacts,
    routes: Seq<Route>,
)
    ensures
        resolved_custom_domain_check(services.push(service), routes) == (
        resolved_custom_domain_check(services, routes) && (routes_target(routes, service.long_id)
            ==> service.custom_domain_check_enabled)),
{
    let all = services.push(service);
    assert(all[services.len() as int] == service);
    if resolved_custom_domain_check(services, routes) && (routes_target(routes, service.long_id)
        ==> service.custom_domain_check_enabled) {
        assert forall|k: int|
            0 <= k < all.len() && routes_target(
                routes,
                (#[trigger] all[k]).long_id,
            ) implies all[k].custom_domain_check_enabled by {
            if k < services.len() {
                assert(all[k] == services[k]);
            }
        }
    } else if !resolved_custom_domain_check(services, routes) {
        let k = choose|k: int|
            0 <= k < services.len() && routes_target(routes, (#[trigger] services[k]).long_id)
                && !services[k].custom_domain_check_enabled;
        assert(all[k] == services[k]);
        assert(!resolved_custom_domain_check(all, routes));
    } else {
        assert(routes_target(routes, all[services.len() as int].long_id)
            && !all[services.len() as int].custom_domain_check_enabled);
        assert(!resolved_custom_domain_check(all, routes));
    }
}

/// How one more scanned service changes the resolved whitelist.
pub proof fn lemma_resolved_whitelist_push(
    services: Seq<ServiceFacts>,
    service: ServiceFacts,
    routes: Seq<Route>,
)
    ensures
        resolved_whitelist(services.push(service), routes) == if routes_target(
            routes,
            service.long_id,
        ) {
            service.whitelist_source_range
        } else {
            resolved_whitelist(services, routes)
        },
{
    assert(services.push(service).last() == service);
    assert(services.push(service).drop_last() =~= services);
}

/// Default router posture: a router none of whose routes matches a scanned
/// service — in particular one with no routes at all — resolves to the
/// check enabled and the allow-all whitelist.
pub proof fn lemma_default_posture(services: Seq<ServiceFacts>, routes: Seq<Route>)
    requires
        forall|i: int|
            0 <= i < services.len() ==> !routes_target(routes, (#[trigger] services[i]).long_id),
    ensures
        resolved_custom_domain_check(services, routes),
        resolved_whitelist(services, routes) == default_whitelist(),
    decreases services.len(),
{
    if services.len() > 0 {
        assert(services.last() == services[services.len() - 1]);
        assert(forall|i: int|
            0 <= i < services.drop_last().len() ==> (#[trigger] services.drop_last()[i])
                == services[i]);
        lemma_default_posture(services.drop_last(), routes);
    }
}

/// Monotonic disable: if any service matched by some route has its check
/// flag disabled, the resolved check is disabled, wherever in the scan the
/// match stands.
pub proof fn lemma_monotonic_disable(services: Seq<ServiceFacts>, routes: Seq<Route>, i: int)
    requires
        0 <= i < services.len(),
        routes_target(routes, services[i].long_id),
        !services[i].custom_domain_check_enabled,
    ensures
        !resolved_custom_domain_check(services, routes),
{
}

/// Last-match overwrite: when a service of the later part of the scan is
/// matched, the resolved whitelist is decided by the later part alone —
/// whatever earlier services matched is overwritten.
pub proof fn lemma_later_match_overwrites(
    earlier: Seq<ServiceFacts>,
    later: Seq<ServiceFacts>,
    routes: Seq<Route>,
)
    requires
        exists|i: int| 0 <= i < later.len() && routes_target(routes, (#[trigger] later[i]).long_id),
    ensures
        resolved_whitelist(earlier + later, routes) == resolved_whitelist(later, routes),
    decreases later.len(),
{
    let all = earlier + later;
    assert(later.last() == later[later.len() - 1]);
    assert(all.last() == later.last());
    if routes_target(routes, later.last().long_id) {
    } else {
        let j = choose|i: int|
            0 <= i < later.len() && routes_target(routes, (#[trigger] later[i]).long_id);
        assert(j < later.len() - 1);
        assert(later.drop_last()[j] == later[j]);
        assert(routes_target(routes, (later.drop_last()[j]).long_id));
        assert(all.drop_last() =~= earlier + later.drop_last());
        lemma_later_match_overwrites(earlier, later.drop_last(), routes);
    }
}

/// Whether some route of `routes` targets the service with id `id`.
pub fn routes_target_service(routes: &Vec<Route>, id: u128) -> (r: bool)
    ensures
        r == routes_target(routes@, id),
{
    let mut j: usize = 0;
    while j < routes.len()
        invariant
            0 <= j <= routes@.len(),
            forall|k: int| 0 <= k < j ==> (#[trigger] routes@[k]).service_long_id != id,
        decreases routes@.len() - j,
    {
        if routes[j].service_long_id == id {
            proof {
                assert(routes@[j as int].service_long_id == id);
            }
            return true;
        }
        j += 1;
    }
    false
}

/// Resolves the security posture of one router from the raw application and
/// container requests: the effective custom-domain-check flag and the
/// effective whitelist source range, over the combined scan of all
/// applications then all containers.
pub fn resolve_router_posture(
    applications: &Vec<Application>,
    containers: &Vec<Container>,
    router: &Router,
) -> (r: (bool, String))
    ensures
        r.0 == resolved_custom_domain_check(
            combined_service_facts(applications@, containers@),
            router.routes@,
        ),
        r.1@ == resolved_whitelist(
            combined_service_facts(applications@, containers@),
            router.routes@,
        ),
{
    let ghost app_facts = applications@.map(|k: int, a: Application| a.service_facts());
    let ghost ctr_facts = containers@.map(|k: int, c: Container| c.service_facts());

    let mut custom_domain_check_enabled = true;
    let mut whitelist_source_range = String::from_str("0.0.0.0/0");

    let mut i: usize = 0;
    while i < applications.len()
        invariant
            0 <= i <= applications@.len(),
            app_facts == applications@.map(|k: int, a: Application| a.service_facts()),
            custom_domain_check_enabled == resolved_custom_domain_check(
                app_facts.take(i as int),
                router.routes@,
            ),
            whitelist_source_range@ == resolved_whitelist(app_facts.take(i as int), router.routes@),
        decreases applications@.len() - i,
    {
        let app = &applications[i];
        let ghost scanned = app_facts.take(i as int);
        let ghost facts = applications@[i as int].service_facts();
        if routes_target_service(&router.routes, app.long_id) {
            if !app.advanced_settings.deployment_custom_domain_check_enabled {
                custom_domain_check_enabled = false;
            }
            whitelist_source_range =
            app.advanced_settings.network_ingress_whitelist_source_range.clone();
        }
        proof {
            assert(app_facts[i as int] == facts);
            assert(app_facts.take(i as int + 1) =~= scanned.push(facts));
            lemma_resolved_check_push(scanned, facts, router.routes@);
            lemma_resolved_whitelist_push(scanned, facts, router.routes@);
        }
        i += 1;
    }
    proof {
        assert(app_facts.take(applications@.len() as int) =~= app_facts);
    }

    let mut j: usize = 0;
    while j < containers.len()
        invariant
            0 <= j <= containers@.len(),
            app_facts == applications@.map(|k: int, a: Application| a.service_facts()),
            ctr_facts == containers@.map(|k: int, c: Container| c.service_facts()),
            custom_domain_check_enabled == resolved_custom_domain_check(
                app_facts + ctr_facts.take(j as int),
                router.routes@,
            ),
            whitelist_source_range@ == resolved_whitelist(
                app_facts + ctr_facts.take(j as int),
                router.routes@,
            ),
        decreases containers@.len() - j,
    {
        let container = &containers[j];
        let ghost scanned = app_facts + ctr_facts.take(j as int);
        let ghost facts = containers@[j as int].service_facts();
        if routes_target_service(&router.routes, container.long_id) {
            if !container.advanced_settings.deployment_custom_domain_check_enabled {
                custom_domain_check_enabled = false;
            }
            whitelist_source_range =
            container.advanced_settings.network_ingress_whitelist_source_range.clone();
        }
        proof {
            assert(ctr_facts[j as int] == facts);
            assert(app_facts + ctr_facts.take(j as int + 1) =~= scanned.push(facts));
            lemma_resolved_check_push(scanned, facts, router.routes@);
            lemma_resolved_whitelist_push(scanned, facts, router.routes@);
        }
        j += 1;
    }
    proof {
        assert(app_facts + ctr_facts.take(containers@.len() as int) =~= combined_service_facts(
            applications@,
            containers@,
        ));
    }

    (custom_domain_check_enabled, whitelist_source_range)
}

} // verus!
