//! Forwarding: where a forwarded request is sent, what becomes of the
//! upstream's reply, and the count of the images that were served.

use crate::config::{Upstream, UpstreamView};
use crate::message::{
    image_not_found, Inbound, Outbound, Reply, STATUS_NOT_FOUND, STATUS_NOT_MODIFIED,
};
use crate::text::{decimal, decimal_text};
use vstd::prelude::*;
use vstd::string::*;

verus! {

/// The absolute URI of `path` at the upstream: `http://host:port` and the
/// path, as it was requested, behind it.
pub open spec fn rewritten(upstream: UpstreamView, path: Seq<char>) -> Seq<char> {
    "http://"@ + upstream.host + ":"@ + decimal(upstream.port) + path
}

/// Writes the absolute URI of `path` at the upstream.
pub fn rewritten_uri(upstream: &Upstream, path: &str) -> (uri: String)
    ensures
        uri@ == rewritten(upstream@, path@),
{
    let mut uri = String::from_str("http://");
    uri.append(upstream.host.as_str());
    uri.append(":");
    let port = decimal_text(upstream.port);
    uri.append(port.as_str());
    uri.append(path);
    uri
}

/// Turns a request into the one that is sent upstream for `path`: the same
/// method and the same payload, addressed to the upstream.
pub fn outbound<P>(request: Inbound<P>, path: &str, upstream: &Upstream) -> (out: Outbound<P>)
    ensures
        out.method@ == request.method@,
        out.uri@ == rewritten(upstream@, path@),
        out.payload == request.payload,
{
    let uri = rewritten_uri(upstream, path);
    Outbound { method: request.method, uri, payload: request.payload }
}

/// Whether an upstream reply with this status delivered an image: the status
/// is in the 200s.
pub open spec fn is_success(status: u16) -> bool {
    200 <= status < 300
}

/// Whether an upstream reply with this status is counted as a download: it
/// delivered the image, or said that the client has it already.
pub open spec fn is_counted(status: u16) -> bool {
    is_success(status) || status == 304
}

/// What a status says of an upstream reply.
#[derive(Clone, Copy, PartialEq, Eq, Structural, Debug)]
pub enum StatusClass {
    /// 2xx or 304: the reply goes back as it is and is counted.
    Served,
    /// 404: the reply is replaced.
    Missing,
    /// Anything else: the reply goes back as it is.
    Other,
}

/// The class of `status`.
pub open spec fn class_of(status: u16) -> StatusClass {
    if is_counted(status) {
        StatusClass::Served
    } else if status == 404 {
        StatusClass::Missing
    } else {
        StatusClass::Other
    }
}

/// Classifies the status of an upstream reply.
pub fn classify_status(status: u16) -> (class: StatusClass)
    ensures
        class == class_of(status),
{
    if (200 <= status && status < 300) || status == STATUS_NOT_MODIFIED {
        StatusClass::Served
    } else if status == STATUS_NOT_FOUND {
        StatusClass::Missing
    } else {
        StatusClass::Other
    }
}

/// The count that follows `count`. The counter has the width of a machine
/// word and starts over after the largest value.
pub open spec fn next_count(count: nat) -> nat {
    if count >= usize::MAX {
        0
    } else {
        count + 1
    }
}

/// The count after an upstream reply with status `status`, where it was
/// `count` before: one further where the reply is counted as a download, the
/// same where it is not.
pub open spec fn count_step(count: nat, status: u16) -> nat {
    if is_counted(status) {
        next_count(count)
    } else {
        count
    }
}

/// The count after upstream replies with the statuses `statuses`, in this
/// order, where it was `count` before the first.
pub open spec fn count_after(count: nat, statuses: Seq<u16>) -> nat
    decreases statuses.len(),
{
    if statuses.len() == 0 {
        count
    } else {
        count_step(count_after(count, statuses.drop_last()), statuses.last())
    }
}

/// How many of `statuses` are counted as downloads.
pub open spec fn counted_among(statuses: Seq<u16>) -> nat
    decreases statuses.len(),
{
    if statuses.len() == 0 {
        0
    } else {
        counted_among(statuses.drop_last()) + if is_counted(statuses.last()) {
            1nat
        } else {
            0nat
        }
    }
}

/// The number of image downloads served so far. Starts at zero, goes up by
/// one per counted reply, and is never reset.
#[derive(Debug)]
pub struct DownloadCounter {
    count: usize,
}

impl View for DownloadCounter {
    type V = nat;

    closed spec fn view(&self) -> nat {
        self.count as nat
    }
}

impl DownloadCounter {
    /// A counter at zero.
    pub fn new() -> (counter: DownloadCounter)
        ensures
            counter@ == 0,
    {
        DownloadCounter { count: 0 }
    }

    /// The number of downloads counted so far.
    pub fn total(&self) -> (total: usize)
        ensures
            total == self@,
    {
        self.count
    }

    /// Counts one download and returns the new total.
    pub fn record(&mut self) -> (total: usize)
        ensures
            final(self)@ == next_count(old(self)@),
            total == final(self)@,
    {
        self.count = self.count.wrapping_add(1);
        self.count
    }
}

/// What goes back to the client once the upstream has replied.
#[derive(Clone, Debug, PartialEq, Eq)]
pub enum ForwardOutcome<R> {
    /// The upstream's reply, untouched. `counted` holds the new total where
    /// the reply was counted as a download.
    PassThrough { response: R, counted: Option<usize> },
    /// A reply of the proxy's own in place of the upstream's.
    Replaced(Reply),
}

/// A request that was handed on to the upstream and awaits its reply. Only
/// routing makes one, for a request that it forwards, and taking the reply
/// uses it up: what was not forwarded is never counted, and no reply is
/// counted twice.
#[derive(Debug, PartialEq, Eq)]
pub struct Pending {
    path: String,
}

impl View for Pending {
    type V = Seq<char>;

    /// The path that was requested.
    closed spec fn view(&self) -> Seq<char> {
        self.path@
    }
}

impl Pending {
    pub(crate) fn new(path: String) -> (pending: Pending)
        ensures
            pending@ == path@,
    {
        Pending { path }
    }

    /// The path that was requested.
    pub fn path(&self) -> (path: &str)
        ensures
            path@ == self@,
    {
        self.path.as_str()
    }

    /// Decides what goes back to the client for the upstream's reply
    /// `response` with status `status`, and counts it where it delivered an
    /// image.
    ///
    /// A reply with a status in the 200s or with 304 goes back untouched and
    /// raises the counter by one. A 404 is replaced by the proxy's own 404;
    /// any other reply goes back untouched. Neither of these changes the
    /// counter.
    pub fn on_response<R>(self, counter: &mut DownloadCounter, status: u16, response: R) -> (out:
        ForwardOutcome<R>)
        ensures
            final(counter)@ == count_step(old(counter)@, status),
            match class_of(status) {
                StatusClass::Served => out == (ForwardOutcome::PassThrough {
                    response,
                    counted: Some(final(counter)@ as usize),
                }),
                StatusClass::Missing => out matches ForwardOutcome::Replaced(reply) && reply@
                    == image_not_found(),
                StatusClass::Other => out == (ForwardOutcome::PassThrough {
                    response,
                    counted: None,
                }),
            },
    {
        match classify_status(status) {
            StatusClass::Served => {
                let total = counter.record();
                ForwardOutcome::PassThrough { response, counted: Some(total) }
            },
            StatusClass::Missing => ForwardOutcome::Replaced(Reply::image_not_found()),
            StatusClass::Other => ForwardOutcome::PassThrough { response, counted: None },
        }
    }
}

/// A forwarded request goes to the upstream's host and port and to a path
/// under its prefix: of what the client asked for, only what follows the
/// prefix is carried over.
pub proof fn lemma_forward_stays_under_prefix(upstream: UpstreamView, path: Seq<char>)
    requires
        upstream.prefix.is_prefix_of(path),
    ensures
        rewritten(upstream, upstream.prefix).is_prefix_of(rewritten(upstream, path)),
        rewritten(upstream, path) == rewritten(upstream, upstream.prefix) + path.subrange(
            upstream.prefix.len() as int,
            path.len() as int,
        ),
{
    let base = "http://"@ + upstream.host + ":"@ + decimal(upstream.port);
    let rest = path.subrange(upstream.prefix.len() as int, path.len() as int);
    assert(path =~= upstream.prefix + rest);
    assert(base + path =~= (base + upstream.prefix) + rest);
    assert((base + upstream.prefix) =~= (base + path).subrange(
        0,
        (base + upstream.prefix).len() as int,
    ));
}

/// No reply is counted twice and none is missed: as long as the counter does
/// not start over, a run of upstream replies raises it by the number of
/// replies among them that are counted as downloads.
pub proof fn lemma_count_is_exact(count: nat, statuses: Seq<u16>)
    requires
        count + counted_among(statuses) <= usize::MAX,
    ensures
        count_after(count, statuses) == count + counted_among(statuses),
    decreases statuses.len(),
{
    if statuses.len() > 0 {
        lemma_count_is_exact(count, statuses.drop_last());
    }
}

/// Only replies that are counted as downloads move the counter: a run of
/// replies of which none is counted leaves it where it was.
pub proof fn lemma_uncounted_replies_leave_count(count: nat, statuses: Seq<u16>)
    requires
        forall|i: int| 0 <= i < statuses.len() ==> !is_counted(#[trigger] statuses[i]),
    ensures
        count_after(count, statuses) == count,
    decreases statuses.len(),
{
    if statuses.len() > 0 {
        lemma_uncounted_replies_leave_count(count, statuses.drop_last());
    }
}

/// The same request answered `n` times with the same counted status raises
/// the counter by exactly `n`, as long as the counter does not start over.
pub proof fn lemma_repeated_success(count: nat, status: u16, n: nat)
    requires
        is_counted(status),
        count + n <= usize::MAX,
    ensures
        count_after(count, Seq::new(n, |i: int| status)) == count + n,
    decreases n,
{
    let all = Seq::new(n, |i: int| status);
    if n > 0 {
        let fewer = Seq::new((n - 1) as nat, |i: int| status);
        assert(all.drop_last() =~= fewer);
        lemma_repeated_success(count, status, (n - 1) as nat);
    }
}

} // verus!
