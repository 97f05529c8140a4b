//! Start-up of the application: which services it registers and which routes
//! it serves.

use crate::container::{resolution_as, Container, Entry, NotRegistered, TypeKey};
use crate::router::{
    build, cors_endpoint, endpoints, for_method, method_endpoint, no_endpoints, routed_paths,
    traced_endpoint, with_permissive_cors, with_route, with_trace_layer, Method, RouterExt,
};
use std::sync::Arc;
use vstd::prelude::*;

verus! {

/// Type identifier of the health service.
pub const HEALTH_SERVICE: TypeKey = 1;

/// Type identifier of the echo service.
pub const ECHO_SERVICE: TypeKey = 2;

/// Method of the welcome route.
pub const ROOT_METHOD: Method = Method::Get;

/// Path of the welcome route.
pub const ROOT_PATH: &'static str = "/";

/// Method of the health route.
pub const HEALTH_METHOD: Method = Method::Get;

/// Path of the health route.
pub const HEALTH_PATH: &'static str = "/health";

/// Method of the echo route.
pub const ECHO_METHOD: Method = Method::Post;

/// Path of the echo route.
pub const ECHO_PATH: &'static str = "/echo";

/// The paths that the application serves.
pub open spec fn application_paths() -> Set<Seq<char>> {
    set![ROOT_PATH@, HEALTH_PATH@, ECHO_PATH@]
}

/// The endpoint that the application serves for a route declared with
/// `method` and `handler`: the handler answers that method alone, behind
/// request tracing and, outermost, permissive cross-origin handling.
pub open spec fn served(
    method: Method,
    handler: axum::routing::MethodRouter<()>,
) -> axum::routing::MethodRouter<()> {
    cors_endpoint(traced_endpoint(method_endpoint(method, handler)))
}

/// The routes of the application, given its three handlers: each path with
/// the endpoint served under it.
pub open spec fn application_routes(
    root: axum::routing::MethodRouter<()>,
    health_check: axum::routing::MethodRouter<()>,
    echo: axum::routing::MethodRouter<()>,
) -> Map<Seq<char>, axum::routing::MethodRouter<()>> {
    no_endpoints().insert(ROOT_PATH@, served(ROOT_METHOD, root)).insert(
        HEALTH_PATH@,
        served(HEALTH_METHOD, health_check),
    ).insert(ECHO_PATH@, served(ECHO_METHOD, echo))
}

/// Builds the registry of the application: the health service and the echo
/// service, each behind its factory and neither constructed yet.
pub fn setup_container<V, F: Fn() -> V>(health: F, echo: F) -> (container: Container<V, F>)
    requires
        call_requires(health, ()),
        call_requires(echo, ()),
    ensures
        container@ == Map::<TypeKey, Entry<V, F>>::empty().insert(
            HEALTH_SERVICE,
            Entry::Factory(health),
        ).insert(ECHO_SERVICE, Entry::Factory(echo)),
{
    let mut container = Container::new();
    container.register_factory(HEALTH_SERVICE, health);
    container.register_factory(ECHO_SERVICE, echo);
    container
}

/// Declares the three routes of the application, each handler under its
/// method and path, and lays tracing and then permissive cross-origin
/// handling over all of them. The router has these three routes and no
/// other.
pub fn assemble(
    root: axum::routing::MethodRouter<()>,
    health_check: axum::routing::MethodRouter<()>,
    echo: axum::routing::MethodRouter<()>,
) -> (router: axum::Router<()>)
    ensures
        routed_paths(router) == application_paths(),
        endpoints(router) == application_routes(root, health_check, echo),
{
    proof {
        reveal_strlit("/");
        reveal_strlit("/health");
        reveal_strlit("/echo");
    }
    let router = build();
    let router = with_route(router, ROOT_PATH, for_method(ROOT_METHOD, root));
    assert(routed_paths(router) =~= set![ROOT_PATH@]);
    let router = with_route(router, HEALTH_PATH, for_method(HEALTH_METHOD, health_check));
    assert(routed_paths(router) =~= set![ROOT_PATH@, HEALTH_PATH@]);
    assert(routed_paths(router).len() <= 2);
    let router = with_route(router, ECHO_PATH, for_method(ECHO_METHOD, echo));
    let router = with_permissive_cors(with_trace_layer(router)).finish();
    assert(endpoints(router) =~= application_routes(root, health_check, echo));
    router
}

/// Whether `outcome` is a possible result of building the application's
/// router from `registry`: the failure of the first service that could not
/// be resolved for its handler, the health service before the echo service,
/// or, where both could, the router whose routes are those of the
/// application, with `root` and with what `health_check` and `echo` made of
/// the service resolved for each.
pub open spec fn routing_outcome<V, F: Fn() -> V, H, E>(
    registry: Map<TypeKey, Entry<V, F>>,
    root: axum::routing::MethodRouter<()>,
    health_check: H,
    echo: E,
    outcome: Result<axum::Router<()>, NotRegistered>,
) -> bool where
    H: Fn(Arc<V>) -> Option<axum::routing::MethodRouter<()>>,
    E: Fn(Arc<V>) -> Option<axum::routing::MethodRouter<()>>,
{
    exists|health_route: Result<axum::routing::MethodRouter<()>, NotRegistered>|
        #![trigger resolution_as(registry, HEALTH_SERVICE, health_check, health_route)]
        resolution_as(registry, HEALTH_SERVICE, health_check, health_route) && match health_route {
            Err(e) => outcome == Err::<axum::Router<()>, NotRegistered>(e),
            Ok(health_handler) => exists|
                echo_route: Result<axum::routing::MethodRouter<()>, NotRegistered>,
            |
                #![trigger resolution_as(registry, ECHO_SERVICE, echo, echo_route)]
                resolution_as(registry, ECHO_SERVICE, echo, echo_route) && match echo_route {
                    Err(e) => outcome == Err::<axum::Router<()>, NotRegistered>(e),
                    Ok(echo_handler) => {
                        &&& outcome is Ok
                        &&& routed_paths(outcome->Ok_0) == application_paths()
                        &&& endpoints(outcome->Ok_0) == application_routes(
                            root,
                            health_handler,
                            echo_handler,
                        )
                    },
                },
        }
}

/// Resolves the services of the application, each exactly once and the
/// health service first, binds each to its handler and builds the router
/// that serves them. No other entry of the container is looked at.
///
/// `root`, and what `health_check` and `echo` return, are handlers: they
/// answer a request whatever its method, and the router puts each behind
/// the method of its route. `health_check` and `echo` bind a resolved
/// service to the handler that works with it, and refuse a service of
/// another type. A service that is not registered, or that its handler
/// refuses, fails the call; a service after it is then not resolved.
pub fn build_router<V, F: Fn() -> V, H, E>(
    container: &Container<V, F>,
    root: axum::routing::MethodRouter<()>,
    health_check: H,
    echo: E,
) -> (r: Result<axum::Router<()>, NotRegistered>) where
    H: Fn(Arc<V>) -> Option<axum::routing::MethodRouter<()>>,
    E: Fn(Arc<V>) -> Option<axum::routing::MethodRouter<()>>,

    requires
        forall|service: Arc<V>| call_requires(health_check, (service,)),
        forall|service: Arc<V>| call_requires(echo, (service,)),
    ensures
        routing_outcome(container@, root, health_check, echo, r),
{
    let health_handler = container.resolve_as(HEALTH_SERVICE, health_check)?;
    let echo_handler = container.resolve_as(ECHO_SERVICE, echo)?;
    Ok(assemble(root, health_handler, echo_handler))
}

} // verus!
