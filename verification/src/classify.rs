//! Routing: which of the proxy's three paths a request takes.

use crate::text::{same_text, starts_with};
use crate::uri::{
    destination, host_addr, parse_target, parts_view, uri_parts, Destination, Target, TargetView,
};
use vstd::prelude::*;

verus! {

/// The path that a request takes through the proxy.
#[derive(Clone, Debug, PartialEq, Eq)]
pub enum Route {
    /// Open a tunnel to the destination that the target names.
    Tunnel(Destination),
    /// Forward the request, with this path, to the upstream.
    ForwardImage(String),
    /// Serve neither.
    Reject,
}

/// The mathematical value of a [`Route`].
pub enum RouteView {
    Tunnel(Seq<char>),
    ForwardImage(Seq<char>),
    Reject,
}

impl View for Route {
    type V = RouteView;

    open spec fn view(&self) -> RouteView {
        match self {
            Route::Tunnel(destination) => RouteView::Tunnel(destination@),
            Route::ForwardImage(path) => RouteView::ForwardImage(path@),
            Route::Reject => RouteView::Reject,
        }
    }
}

/// Whether `method` is the CONNECT method. Method names are case-sensitive.
pub open spec fn is_connect(method: Seq<char>) -> bool {
    method == "CONNECT"@
}

/// The path under which a target that parsed to `parts` is forwarded: its
/// path, where that starts with `prefix`, character for character.
pub open spec fn forwarded_path(parts: Option<TargetView>, prefix: Seq<char>) -> Option<
    Seq<char>,
> {
    match parts {
        Some(t) if prefix.is_prefix_of(t.path) => Some(t.path),
        _ => None,
    }
}

/// The route of a request with this method whose target parsed to `parts`,
/// where `prefix` marks the paths that are forwarded.
///
/// A CONNECT request is a tunnel where its target names a `host:port`, and is
/// rejected otherwise, whatever its path. Any other request is forwarded where
/// its path starts with `prefix`, and is rejected otherwise.
pub open spec fn route_of(
    method: Seq<char>,
    parts: Option<TargetView>,
    prefix: Seq<char>,
) -> RouteView {
    if is_connect(method) {
        match destination(parts) {
            Some(authority) => RouteView::Tunnel(authority),
            None => RouteView::Reject,
        }
    } else {
        match forwarded_path(parts, prefix) {
            Some(path) => RouteView::ForwardImage(path),
            None => RouteView::Reject,
        }
    }
}

/// Decides whether `method` is CONNECT.
pub fn method_is_connect(method: &str) -> (r: bool)
    ensures
        r == is_connect(method@),
{
    same_text(method, "CONNECT")
}

/// Routes a request whose target has been parsed already.
pub fn route(method: &str, parts: Option<Target>, prefix: &str) -> (r: Route)
    ensures
        r@ == route_of(method@, parts_view(parts), prefix@),
{
    if method_is_connect(method) {
        match parts {
            Some(t) => match host_addr(&t) {
                Some(destination) => Route::Tunnel(destination),
                None => Route::Reject,
            },
            None => Route::Reject,
        }
    } else {
        match parts {
            Some(t) => {
                if starts_with(t.path.as_str(), prefix) {
                    Route::ForwardImage(t.path)
                } else {
                    Route::Reject
                }
            },
            None => Route::Reject,
        }
    }
}

/// Routes a request from its method and its target as written on the request
/// line. Depends on nothing else and changes nothing.
pub fn classify(method: &str, target: &str, prefix: &str) -> (r: Route)
    ensures
        r@ == route_of(method@, uri_parts(target@), prefix@),
{
    route(method, parse_target(target), prefix)
}

/// Every request takes exactly one route, and which one is decided by the
/// method first: only CONNECT requests become tunnels, and only other
/// requests are forwarded.
pub proof fn lemma_routes_partition(method: Seq<char>, parts: Option<TargetView>, prefix: Seq<char>)
    ensures
        route_of(method, parts, prefix) is Tunnel <==> is_connect(method) && destination(
            parts,
        ) is Some,
        route_of(method, parts, prefix) is ForwardImage <==> !is_connect(method) && forwarded_path(
            parts,
            prefix,
        ) is Some,
        route_of(method, parts, prefix) is Reject <==> !(route_of(method, parts, prefix) is Tunnel)
            && !(route_of(method, parts, prefix) is ForwardImage),
        route_of(method, parts, prefix) matches RouteView::Tunnel(authority) ==> destination(parts)
            == Some(authority),
        route_of(method, parts, prefix) matches RouteView::ForwardImage(path) ==> parts matches Some(
            t,
        ) && t.path == path && prefix.is_prefix_of(path),
{
}

} // verus!
