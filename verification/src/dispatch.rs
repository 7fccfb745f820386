//! The entry point for one request: route it, and say what the answer is or
//! where the request goes.

use crate::classify::{forwarded_path, is_connect, method_is_connect, route, Route};
use crate::config::{Upstream, UpstreamView};
use crate::forward::{outbound, rewritten, Pending};
use crate::message::{
    bad_connect_target, established, not_found, Inbound, Outbound, Reply, ReplyView,
};
use crate::tunnel::{Tunnel, TunnelState};
use crate::uri::{destination, parse_target, parts_view, uri_parts, Target};
use vstd::prelude::*;

verus! {

/// What is done with a request. Exactly one of the three is chosen.
#[derive(Debug, PartialEq, Eq)]
pub enum Dispatch<P> {
    /// Answer with `reply`, then open `tunnel` on the connection that the
    /// payload belongs to.
    Tunnel { reply: Reply, tunnel: Tunnel, payload: P },
    /// Send `request` to the upstream, and let `pending` take its answer.
    Forward { request: Outbound<P>, pending: Pending },
    /// Answer with this reply; nothing else happens.
    Respond(Reply),
}

/// Why a request that should be forwarded cannot be.
#[derive(Clone, Copy, PartialEq, Eq, Structural, Debug)]
pub enum DispatchError {
    /// The address of the request at the upstream is no URI: the upstream's
    /// host is misconfigured, or the address is too long.
    InvalidUri,
}

/// Whether `dispatch` opens a tunnel to `authority` for `request`: the reply
/// is a 200 without body, the tunnel is new, and the payload is the
/// request's.
pub open spec fn opens_tunnel<P>(
    dispatch: Dispatch<P>,
    request: Inbound<P>,
    authority: Seq<char>,
) -> bool {
    &&& dispatch matches Dispatch::Tunnel { reply, tunnel, payload }
    &&& reply@ == established()
    &&& tunnel.destination() == authority
    &&& tunnel.position() == TunnelState::Received
    &&& payload == request.payload
}

/// Whether `dispatch` forwards `request` for `path` at `upstream`: method and
/// payload are the request's, and the address is that of the path at the
/// upstream.
pub open spec fn forwards_to<P>(
    dispatch: Dispatch<P>,
    request: Inbound<P>,
    upstream: UpstreamView,
    path: Seq<char>,
) -> bool {
    &&& dispatch matches Dispatch::Forward { request: out, pending }
    &&& out.method@ == request.method@
    &&& out.uri@ == rewritten(upstream, path)
    &&& out.payload == request.payload
    &&& pending@ == path
}

/// Whether `dispatch` answers with a reply of value `reply`.
pub open spec fn responds_with<P>(dispatch: Dispatch<P>, reply: ReplyView) -> bool {
    dispatch matches Dispatch::Respond(r) && r@ == reply
}

/// Decides what is done with a request whose target has been parsed already.
///
/// - CONNECT to a `host:port`: 200 with an empty body, and a tunnel.
/// - CONNECT to anything else: 400.
/// - Another method, with a path under the upstream's prefix: the request is
///   sent on to that path at the upstream.
/// - Anything else: 404.
pub fn plan<P>(request: Inbound<P>, parts: Option<Target>, upstream: &Upstream) -> (d: Dispatch<P>)
    ensures
        is_connect(request.method@) ==> match destination(parts_view(parts)) {
            Some(authority) => opens_tunnel(d, request, authority),
            None => responds_with(d, bad_connect_target()),
        },
        !is_connect(request.method@) ==> match forwarded_path(
            parts_view(parts),
            upstream.prefix@,
        ) {
            Some(path) => forwards_to(d, request, upstream@, path),
            None => responds_with(d, not_found()),
        },
{
    let connect = method_is_connect(request.method.as_str());
    match route(request.method.as_str(), parts, upstream.prefix.as_str()) {
        Route::Tunnel(destination) => Dispatch::Tunnel {
            reply: Reply::established(),
            tunnel: Tunnel::new(destination),
            payload: request.payload,
        },
        Route::ForwardImage(path) => {
            let request = outbound(request, path.as_str(), upstream);
            Dispatch::Forward { request, pending: Pending::new(path) }
        },
        Route::Reject => if connect {
            Dispatch::Respond(Reply::bad_connect_target())
        } else {
            Dispatch::Respond(Reply::not_found())
        },
    }
}

/// Decides what is done with a request, from its method and its target as
/// written on the request line.
///
/// The decision is that of [`plan`] on the parsed target. A request is
/// forwarded only where its address at the upstream is a URI; where it is
/// not, nothing is done with the request and the error says so. Tunnels and
/// replies never fail.
pub fn dispatch<P>(request: Inbound<P>, upstream: &Upstream) -> (r: Result<
    Dispatch<P>,
    DispatchError,
>)
    ensures
        is_connect(request.method@) ==> match destination(uri_parts(request.target@)) {
            Some(authority) => r matches Ok(d) && opens_tunnel(d, request, authority),
            None => r matches Ok(d) && responds_with(d, bad_connect_target()),
        },
        !is_connect(request.method@) ==> match forwarded_path(
            uri_parts(request.target@),
            upstream.prefix@,
        ) {
            Some(path) => if uri_parts(rewritten(upstream@, path)) is Some {
                r matches Ok(d) && forwards_to(d, request, upstream@, path)
            } else {
                r == Err::<Dispatch<P>, DispatchError>(DispatchError::InvalidUri)
            },
            None => r matches Ok(d) && responds_with(d, not_found()),
        },
{
    let parts = parse_target(request.target.as_str());
    match plan(request, parts, upstream) {
        Dispatch::Forward { request, pending } => {
            if parse_target(request.uri.as_str()).is_some() {
                Ok(Dispatch::Forward { request, pending })
            } else {
                Err(DispatchError::InvalidUri)
            }
        },
        other => Ok(other),
    }
}

} // verus!
