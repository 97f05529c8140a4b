//! The HTTP framework's router, as far as start-up needs it: creating one,
//! declaring routes under fixed paths, each for one method, and laying
//! middleware over them.

use vstd::prelude::*;

verus! {

/// `axum::Router`, carried through as it is: nothing of its inside is known
/// here.
#[verifier::external_type_specification]
#[verifier::external_body]
#[verifier::reject_recursive_types(S)]
pub struct ExRouter<S>(axum::Router<S>);

/// `axum::routing::MethodRouter`, carried through as it is: nothing of its
/// inside is known here.
#[verifier::external_type_specification]
#[verifier::external_body]
#[verifier::reject_recursive_types(S)]
#[verifier::reject_recursive_types(E)]
pub struct ExMethodRouter<S, E>(axum::routing::MethodRouter<S, E>);

/// The request methods that a route can be declared for.
#[derive(Clone, Copy, PartialEq, Eq, Structural, Debug)]
pub enum Method {
    Get,
    Post,
    Put,
    Delete,
    Patch,
}

/// The paths under which `router` keeps a route: those that its table of
/// paths holds. The fallback that answers every other path is none of them.
pub uninterp spec fn routed_paths(router: axum::Router<()>) -> Set<Seq<char>>;

/// The endpoints of `router` that tell requests apart by method, each under
/// the path of its route. A path that is routed to anything else has no
/// entry.
pub uninterp spec fn endpoints(router: axum::Router<()>) -> Map<
    Seq<char>,
    axum::routing::MethodRouter<()>,
>;

/// The endpoint that hands the requests of `method` to `handler` and
/// refuses those of every other method. As the framework has it, an
/// endpoint for GET takes HEAD requests as well.
pub uninterp spec fn method_endpoint(
    method: Method,
    handler: axum::routing::MethodRouter<()>,
) -> axum::routing::MethodRouter<()>;

/// `endpoint` with request tracing laid over each of its handlers.
pub uninterp spec fn traced_endpoint(
    endpoint: axum::routing::MethodRouter<()>,
) -> axum::routing::MethodRouter<()>;

/// `endpoint` with permissive cross-origin handling laid over each of its
/// handlers.
pub uninterp spec fn cors_endpoint(
    endpoint: axum::routing::MethodRouter<()>,
) -> axum::routing::MethodRouter<()>;

/// The endpoints of a router without routes.
pub open spec fn no_endpoints() -> Map<Seq<char>, axum::routing::MethodRouter<()>> {
    Map::empty()
}

/// Whether `path` is a fixed path: it starts with a slash and holds none of
/// the characters that open a capture or a wildcard.
pub open spec fn fixed_path(path: Seq<char>) -> bool {
    &&& path.len() > 0
    &&& path[0] == '/'
    &&& forall|i: int|
        0 <= i < path.len() ==> path[i] != '{' && path[i] != '}' && path[i] != ':' && path[i]
            != '*'
}

/// Whether a route under `path` can be added to a router whose routes lie
/// under `paths`: all of them are fixed paths, `path` is not yet among them,
/// and the router has room for one more.
pub open spec fn accepts_route(paths: Set<Seq<char>>, path: Seq<char>) -> bool {
    &&& fixed_path(path)
    &&& !paths.contains(path)
    &&& paths.finite()
    &&& paths.len() < u32::MAX
    &&& forall|other: Seq<char>| paths.contains(other) ==> fixed_path(other)
}

/// `axum::Router::new`: the new router has no route.
#[verifier::external_body]
fn empty_router() -> (router: axum::Router<()>)
    ensures
        routed_paths(router) == Set::<Seq<char>>::empty(),
        endpoints(router) == no_endpoints(),
{
    axum::Router::new()
}

/// `axum::routing::on_service`, with the filter of `method` and with
/// `handler` as the service: the result is the endpoint that answers
/// `method` with `handler`.
#[verifier::external_body]
pub(crate) fn for_method(
    method: Method,
    handler: axum::routing::MethodRouter<()>,
) -> (endpoint: axum::routing::MethodRouter<()>)
    ensures
        endpoint == method_endpoint(method, handler),
{
    let filter = match method {
        Method::Get => axum::routing::MethodFilter::GET,
        Method::Post => axum::routing::MethodFilter::POST,
        Method::Put => axum::routing::MethodFilter::PUT,
        Method::Delete => axum::routing::MethodFilter::DELETE,
        Method::Patch => axum::routing::MethodFilter::PATCH,
    };
    axum::routing::on_service(filter, handler)
}

/// `axum::Router::route`: the router gains a route under `path`, with
/// `endpoint` as it was given, and keeps those it had. The call panics on a
/// path that is not valid, on one in conflict with a route already there,
/// and once the router has handed out all its route numbers; between fixed
/// paths only equal ones are in conflict.
#[verifier::external_body]
pub(crate) fn with_route(
    router: axum::Router<()>,
    path: &str,
    endpoint: axum::routing::MethodRouter<()>,
) -> (routed: axum::Router<()>)
    requires
        accepts_route(routed_paths(router), path@),
    ensures
        routed_paths(routed) == routed_paths(router).insert(path@),
        endpoints(routed) == endpoints(router).insert(path@, endpoint),
{
    router.route(path, endpoint)
}

/// `axum::Router::layer` with `tower_http::trace::TraceLayer::new_for_http`:
/// the routes stay under the paths they had, and each endpoint that tells
/// requests apart by method is the one it was with tracing laid over it.
#[verifier::external_body]
pub(crate) fn with_trace_layer(router: axum::Router<()>) -> (layered: axum::Router<()>)
    ensures
        routed_paths(layered) == routed_paths(router),
        endpoints(layered).dom() == endpoints(router).dom(),
        forall|path: Seq<char>|
            endpoints(router).contains_key(path) ==> #[trigger] endpoints(layered)[path]
                == traced_endpoint(endpoints(router)[path]),
{
    router.layer(tower_http::trace::TraceLayer::new_for_http())
}

/// `axum::Router::layer` with `tower_http::cors::CorsLayer::permissive`: the
/// routes stay under the paths they had, and each endpoint that tells
/// requests apart by method is the one it was with permissive cross-origin
/// handling laid over it.
#[verifier::external_body]
pub(crate) fn with_permissive_cors(router: axum::Router<()>) -> (layered: axum::Router<()>)
    ensures
        routed_paths(layered) == routed_paths(router),
        endpoints(layered).dom() == endpoints(router).dom(),
        forall|path: Seq<char>|
            endpoints(router).contains_key(path) ==> #[trigger] endpoints(layered)[path]
                == cors_endpoint(endpoints(router)[path]),
{
    router.layer(tower_http::cors::CorsLayer::permissive())
}

/// Creates a router without routes.
pub fn build() -> (router: axum::Router<()>)
    ensures
        routed_paths(router) == Set::<Seq<char>>::empty(),
        endpoints(router) == no_endpoints(),
{
    empty_router()
}

/// Marks the end of a router's construction.
pub trait RouterExt<S>: Sized {
    /// The router that `self` is.
    spec fn built(self) -> axum::Router<S>;

    /// Ends the construction and returns the router as it is.
    fn finish(self) -> (router: axum::Router<S>)
        ensures
            router == self.built(),
    ;
}

impl<S> RouterExt<S> for axum::Router<S> {
    open spec fn built(self) -> axum::Router<S> {
        self
    }

    fn finish(self) -> (router: axum::Router<S>) {
        self
    }
}

} // verus!
