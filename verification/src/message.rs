//! Replies that the proxy writes itself, and the requests that pass through it.

use vstd::prelude::*;
use vstd::string::*;

verus! {

/// Status of the reply that opens a tunnel.
pub const STATUS_OK: u16 = 200;

/// Status of the reply to a CONNECT request that names no destination.
pub const STATUS_BAD_REQUEST: u16 = 400;

/// Status of the reply to a request that nothing serves.
pub const STATUS_NOT_FOUND: u16 = 404;

/// Status of an upstream reply that carries no new content.
pub const STATUS_NOT_MODIFIED: u16 = 304;

/// A reply that the proxy writes itself: a status code and a body of text.
#[derive(Clone, Debug, PartialEq, Eq)]
pub struct Reply {
    pub status: u16,
    pub body: String,
}

/// The mathematical value of a [`Reply`].
pub struct ReplyView {
    pub status: int,
    pub body: Seq<char>,
}

impl View for Reply {
    type V = ReplyView;

    open spec fn view(&self) -> ReplyView {
        ReplyView { status: self.status as int, body: self.body@ }
    }
}

/// The reply that tells a client its tunnel is being opened: 200, no body.
pub open spec fn established() -> ReplyView {
    ReplyView { status: 200, body: Seq::empty() }
}

/// The reply to a CONNECT request whose target names no destination.
pub open spec fn bad_connect_target() -> ReplyView {
    ReplyView { status: 400, body: "CONNECT target must be a valid socket address"@ }
}

/// The reply to a request that is neither a tunnel nor a forward.
pub open spec fn not_found() -> ReplyView {
    ReplyView { status: 404, body: "Not Found"@ }
}

/// The reply that stands in for an upstream 404.
pub open spec fn image_not_found() -> ReplyView {
    ReplyView { status: 404, body: "Image Not Found"@ }
}

/// A body without content.
pub fn empty() -> (body: String)
    ensures
        body@ == Seq::<char>::empty(),
{
    String::new()
}

/// A body that holds `chunk` and nothing else.
pub fn full(chunk: &str) -> (body: String)
    ensures
        body@ == chunk@,
{
    String::from_str(chunk)
}

impl Reply {
    /// The reply that tells a client its tunnel is being opened.
    pub fn established() -> (r: Reply)
        ensures
            r@ == established(),
    {
        Reply { status: STATUS_OK, body: empty() }
    }

    /// The reply to a CONNECT request whose target names no destination.
    pub fn bad_connect_target() -> (r: Reply)
        ensures
            r@ == bad_connect_target(),
    {
        Reply {
            status: STATUS_BAD_REQUEST,
            body: full("CONNECT target must be a valid socket address"),
        }
    }

    /// The reply to a request that is neither a tunnel nor a forward.
    pub fn not_found() -> (r: Reply)
        ensures
            r@ == not_found(),
    {
        Reply { status: STATUS_NOT_FOUND, body: full("Not Found") }
    }

    /// The reply that stands in for an upstream 404.
    pub fn image_not_found() -> (r: Reply)
        ensures
            r@ == image_not_found(),
    {
        Reply { status: STATUS_NOT_FOUND, body: full("Image Not Found") }
    }
}

/// A request as it arrives: its method, its target as written on the request
/// line, and what belongs to it besides (headers, version, body), which the
/// proxy hands on without looking at it.
#[derive(Clone, Debug, PartialEq, Eq)]
pub struct Inbound<P> {
    pub method: String,
    pub target: String,
    pub payload: P,
}

/// A request as it leaves for the upstream: the method and payload of the
/// request it came from, and the absolute URI to send it to.
#[derive(Clone, Debug, PartialEq, Eq)]
pub struct Outbound<P> {
    pub method: String,
    pub uri: String,
    pub payload: P,
}

} // verus!
