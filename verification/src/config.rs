//! The one upstream origin that image requests are forwarded to.

use vstd::prelude::*;
use vstd::string::*;

verus! {

/// Host of the upstream that is used where nothing else is configured.
pub const DEFAULT_HOST: &'static str = "xxx.com";

/// Port of the upstream that is used where nothing else is configured.
pub const DEFAULT_PORT: u16 = 45004;

/// Path prefix of the requests that are forwarded where nothing else is
/// configured.
pub const DEFAULT_PREFIX: &'static str = "/image-public/";

/// Where forwarded requests go, and which requests are forwarded: those whose
/// path starts with `prefix`, compared as written, without decoding.
#[derive(Clone, Debug, PartialEq, Eq)]
pub struct Upstream {
    pub host: String,
    pub port: u16,
    pub prefix: String,
}

/// The mathematical value of an [`Upstream`].
pub struct UpstreamView {
    pub host: Seq<char>,
    pub port: nat,
    pub prefix: Seq<char>,
}

impl View for Upstream {
    type V = UpstreamView;

    open spec fn view(&self) -> UpstreamView {
        UpstreamView { host: self.host@, port: self.port as nat, prefix: self.prefix@ }
    }
}

impl Upstream {
    /// An upstream at `host:port` that serves the paths under `prefix`.
    pub fn new(host: &str, port: u16, prefix: &str) -> (r: Upstream)
        ensures
            r@ == (UpstreamView { host: host@, port: port as nat, prefix: prefix@ }),
    {
        Upstream { host: String::from_str(host), port, prefix: String::from_str(prefix) }
    }
}

impl Default for Upstream {
    /// The upstream that is used where nothing else is configured.
    fn default() -> (r: Upstream)
        ensures
            r@ == (UpstreamView {
                host: DEFAULT_HOST@,
                port: DEFAULT_PORT as nat,
                prefix: DEFAULT_PREFIX@,
            }),
    {
        Upstream::new(DEFAULT_HOST, DEFAULT_PORT, DEFAULT_PREFIX)
    }
}

} // verus!
