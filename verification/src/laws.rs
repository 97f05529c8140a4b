//! Laws that relate registration and resolution, stated over the registry's
//! map and proved once for every registry.

use crate::bootstrap::{application_routes, routing_outcome, ECHO_SERVICE, HEALTH_SERVICE};
use crate::container::{resolution, resolution_as, yields, Entry, NotRegistered, TypeKey};
use crate::router::endpoints;
use std::sync::Arc;
use vstd::prelude::*;

verus! {

/// The registry that a run of registrations leaves behind, starting from an
/// empty one and applying `steps` in order.
pub open spec fn after_registrations<V, F: Fn() -> V>(steps: Seq<(TypeKey, Entry<V, F>)>) -> Map<
    TypeKey,
    Entry<V, F>,
>
    decreases steps.len(),
{
    if steps.len() == 0 {
        Map::empty()
    } else {
        after_registrations(steps.drop_last()).insert(steps.last().0, steps.last().1)
    }
}

/// Once a value is registered for a type, every resolution of that type
/// succeeds and hands out that very value, whatever the registry held before.
pub proof fn instance_resolves_to_registered_value<V, F: Fn() -> V>(
    registry: Map<TypeKey, Entry<V, F>>,
    key: TypeKey,
    value: V,
    outcome: Result<Arc<V>, NotRegistered>,
)
    requires
        resolution(registry.insert(key, Entry::Instance(Arc::new(value))), key, outcome),
    ensures
        outcome == Ok::<Arc<V>, NotRegistered>(Arc::new(value)),
{
}

/// Once a factory is registered for a type, every resolution of that type
/// succeeds, and what it hands out is a value that the factory returns.
pub proof fn factory_resolves_to_constructed_value<V, F: Fn() -> V>(
    registry: Map<TypeKey, Entry<V, F>>,
    key: TypeKey,
    factory: F,
    outcome: Result<Arc<V>, NotRegistered>,
)
    requires
        resolution(registry.insert(key, Entry::Factory(factory)), key, outcome),
    ensures
        outcome is Ok,
        call_ensures(factory, (), *outcome->Ok_0),
{
}

/// A type that no registration named cannot be resolved: the resolution
/// fails and names the type that was asked for.
pub proof fn unregistered_type_is_refused<V, F: Fn() -> V>(
    steps: Seq<(TypeKey, Entry<V, F>)>,
    key: TypeKey,
    outcome: Result<Arc<V>, NotRegistered>,
)
    requires
        forall|i: int| 0 <= i < steps.len() ==> (#[trigger] steps[i]).0 != key,
        resolution(after_registrations(steps), key, outcome),
    ensures
        outcome == Err::<Arc<V>, NotRegistered>(NotRegistered { requested_type: key }),
{
    never_registered_has_no_entry(steps, key);
}

/// A type that no registration named has no entry.
pub proof fn never_registered_has_no_entry<V, F: Fn() -> V>(
    steps: Seq<(TypeKey, Entry<V, F>)>,
    key: TypeKey,
)
    requires
        forall|i: int| 0 <= i < steps.len() ==> (#[trigger] steps[i]).0 != key,
    ensures
        !after_registrations(steps).contains_key(key),
    decreases steps.len(),
{
    if steps.len() > 0 {
        never_registered_has_no_entry(steps.drop_last(), key);
    }
}

/// A second registration for a type replaces the first: the registry is as
/// if the first had never been made, and a resolution hands out the second
/// value.
pub proof fn later_registration_wins<V, F: Fn() -> V>(
    registry: Map<TypeKey, Entry<V, F>>,
    key: TypeKey,
    first: Entry<V, F>,
    second: V,
    outcome: Result<Arc<V>, NotRegistered>,
)
    requires
        resolution(
            registry.insert(key, first).insert(key, Entry::Instance(Arc::new(second))),
            key,
            outcome,
        ),
    ensures
        registry.insert(key, first).insert(key, Entry::Instance(Arc::new(second)))
            == registry.insert(key, Entry::Instance(Arc::new(second))),
        outcome == Ok::<Arc<V>, NotRegistered>(Arc::new(second)),
{
    assert(registry.insert(key, first).insert(key, Entry::Instance(Arc::new(second)))
        =~= registry.insert(key, Entry::Instance(Arc::new(second))));
}

/// Whether two registries hold the same for `key`: both have no entry, or
/// both have the same one.
pub open spec fn same_entry<V, F: Fn() -> V>(
    first: Map<TypeKey, Entry<V, F>>,
    second: Map<TypeKey, Entry<V, F>>,
    key: TypeKey,
) -> bool {
    &&& first.contains_key(key) == second.contains_key(key)
    &&& first.contains_key(key) ==> first[key] == second[key]
}

/// Building the router reads the entries of the health service and of the
/// echo service and nothing else: whatever it can return for one registry it
/// can return for every registry that holds the same for these two types.
pub proof fn routing_reads_two_entries<V, F: Fn() -> V, H, E>(
    first: Map<TypeKey, Entry<V, F>>,
    second: Map<TypeKey, Entry<V, F>>,
    root: axum::routing::MethodRouter<()>,
    health_check: H,
    echo: E,
    outcome: Result<axum::Router<()>, NotRegistered>,
) where
    H: Fn(Arc<V>) -> Option<axum::routing::MethodRouter<()>>,
    E: Fn(Arc<V>) -> Option<axum::routing::MethodRouter<()>>,

    requires
        same_entry(first, second, HEALTH_SERVICE),
        same_entry(first, second, ECHO_SERVICE),
        routing_outcome(first, root, health_check, echo, outcome),
    ensures
        routing_outcome(second, root, health_check, echo, outcome),
{
    assert forall|route: Result<axum::routing::MethodRouter<()>, NotRegistered>|
        resolution_as(first, HEALTH_SERVICE, health_check, route) implies resolution_as(
        second,
        HEALTH_SERVICE,
        health_check,
        route,
    ) by {}
    assert forall|route: Result<axum::routing::MethodRouter<()>, NotRegistered>|
        resolution_as(first, ECHO_SERVICE, echo, route) implies resolution_as(
        second,
        ECHO_SERVICE,
        echo,
        route,
    ) by {}
}

/// The router is bound to the services that the registry yields: where the
/// build succeeds, the endpoint under each path is the one of the
/// application for handlers that `health_check` and `echo` made, the first
/// of a handle that the entry of the health service yields and the second
/// of one that the entry of the echo service yields.
pub proof fn routing_binds_what_the_entries_yield<V, F: Fn() -> V, H, E>(
    registry: Map<TypeKey, Entry<V, F>>,
    root: axum::routing::MethodRouter<()>,
    health_check: H,
    echo: E,
    router: axum::Router<()>,
) where
    H: Fn(Arc<V>) -> Option<axum::routing::MethodRouter<()>>,
    E: Fn(Arc<V>) -> Option<axum::routing::MethodRouter<()>>,

    requires
        routing_outcome(
            registry,
            root,
            health_check,
            echo,
            Ok::<axum::Router<()>, NotRegistered>(router),
        ),
    ensures
        registry.contains_key(HEALTH_SERVICE),
        registry.contains_key(ECHO_SERVICE),
        exists|
            health: Arc<V>,
            health_handler: axum::routing::MethodRouter<()>,
            echoing: Arc<V>,
            echo_handler: axum::routing::MethodRouter<()>,
        |
            #![trigger
                yields(registry[HEALTH_SERVICE], health),
                yields(registry[ECHO_SERVICE], echoing),
                application_routes(root, health_handler, echo_handler),
            ]
            {
                &&& yields(registry[HEALTH_SERVICE], health)
                &&& call_ensures(health_check, (health,), Some(health_handler))
                &&& yields(registry[ECHO_SERVICE], echoing)
                &&& call_ensures(echo, (echoing,), Some(echo_handler))
                &&& endpoints(router) == application_routes(root, health_handler, echo_handler)
            },
{
}

/// With a value registered for each of the two services, a router that was
/// built is bound to these very values: its endpoints are those of the
/// application for what `health_check` made of the one and `echo` of the
/// other.
pub proof fn routing_binds_registered_values<V, F: Fn() -> V, H, E>(
    registry: Map<TypeKey, Entry<V, F>>,
    health: V,
    echoing: V,
    root: axum::routing::MethodRouter<()>,
    health_check: H,
    echo: E,
    router: axum::Router<()>,
) where
    H: Fn(Arc<V>) -> Option<axum::routing::MethodRouter<()>>,
    E: Fn(Arc<V>) -> Option<axum::routing::MethodRouter<()>>,

    requires
        routing_outcome(
            registry.insert(HEALTH_SERVICE, Entry::Instance(Arc::new(health))).insert(
                ECHO_SERVICE,
                Entry::Instance(Arc::new(echoing)),
            ),
            root,
            health_check,
            echo,
            Ok::<axum::Router<()>, NotRegistered>(router),
        ),
    ensures
        exists|
            health_handler: axum::routing::MethodRouter<()>,
            echo_handler: axum::routing::MethodRouter<()>,
        |
            #![trigger application_routes(root, health_handler, echo_handler)]
            {
                &&& call_ensures(health_check, (Arc::new(health),), Some(health_handler))
                &&& call_ensures(echo, (Arc::new(echoing),), Some(echo_handler))
                &&& endpoints(router) == application_routes(root, health_handler, echo_handler)
            },
{
}

} // verus!
