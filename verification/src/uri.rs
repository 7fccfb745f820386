//! Request targets: what the `http` crate reads out of them, and which
//! authorities name a destination that a tunnel can be opened to.

use std::str::FromStr;
use vstd::prelude::*;
use vstd::std_specs::iter::IteratorSpec;
use vstd::string::*;

verus! {

broadcast use vstd::string::group_string_axioms;

/// The parts of a request target that routing reads: the authority component,
/// where the target has one, and the path.
#[derive(Clone, Debug, PartialEq, Eq)]
pub struct Target {
    pub authority: Option<String>,
    pub path: String,
}

/// The mathematical value of a [`Target`].
pub struct TargetView {
    pub authority: Option<Seq<char>>,
    pub path: Seq<char>,
}

impl View for Target {
    type V = TargetView;

    open spec fn view(&self) -> TargetView {
        TargetView {
            authority: match self.authority {
                Some(a) => Some(a@),
                None => None,
            },
            path: self.path@,
        }
    }
}

/// The view of an optional target.
pub open spec fn parts_view(parts: Option<Target>) -> Option<TargetView> {
    match parts {
        Some(t) => Some(t@),
        None => None,
    }
}

/// What the `http` crate's URI parser makes of the text `target`: `None` where
/// it refuses the text, else the authority and path of the URI it read.
pub uninterp spec fn uri_parts(target: Seq<char>) -> Option<TargetView>;

/// Parses `target` with `http::Uri::from_str` and copies `Uri::authority` and
/// `Uri::path` out of the result. Trusted: the parser is a function of the
/// text alone, and [`uri_parts`] names what it returns; nothing more is
/// claimed of it.
#[verifier::external_body]
pub(crate) fn parse_target(target: &str) -> (r: Option<Target>)
    ensures
        parts_view(r) == uri_parts(target@),
{
    match http::Uri::from_str(target) {
        Ok(uri) => Some(
            Target {
                authority: uri.authority().map(|a| a.as_str().to_string()),
                path: uri.path().to_string(),
            },
        ),
        Err(_) => None,
    }
}

/// The characters that close a part of an authority: `:` before a port, `@`
/// after the user information, `]` after an IP literal.
pub open spec fn is_delimiter(c: char) -> bool {
    c == ':' || c == '@' || c == ']'
}

/// Whether the colon at index `i` of `a` parts a host from a port: it is the
/// last delimiter of `a`, something other than `@` stands before it, and
/// something stands after it.
pub open spec fn splits_at(a: Seq<char>, i: int) -> bool {
    &&& 0 < i < a.len() - 1
    &&& a[i] == ':'
    &&& a[i - 1] != '@'
    &&& forall|k: int| i < k < a.len() ==> !is_delimiter(#[trigger] a[k])
}

/// Whether the authority `a` has the shape `host:port`, both parts non-empty.
/// The port may be a number or a service name.
pub open spec fn is_host_port(a: Seq<char>) -> bool {
    exists|i: int| splits_at(a, i)
}

/// The destination that `parts` names: its authority, where that is a
/// `host:port`.
pub open spec fn destination(parts: Option<TargetView>) -> Option<Seq<char>> {
    match parts {
        Some(t) => match t.authority {
            Some(a) if is_host_port(a) => Some(a),
            _ => None,
        },
        None => None,
    }
}

fn delimiter(c: char) -> (r: bool)
    ensures
        r == is_delimiter(c),
{
    c == ':' || c == '@' || c == ']'
}

/// Decides whether `authority` has the shape `host:port`, in one pass.
pub fn has_host_and_port(authority: &str) -> (r: bool)
    ensures
        r == is_host_port(authority@),
{
    let mut rest = authority.chars();
    // What is known of the last delimiter read so far.
    let mut found = false;
    let mut parts_host = false;
    let mut followed = false;
    // What is known of the character read last.
    let mut first = true;
    let mut after_at = false;
    let ghost a = authority@;
    let ghost mut n: int = 0;
    let ghost mut last: int = -1;
    loop
        invariant
            a == authority@,
            0 <= n <= a.len(),
            rest.remaining() == a.subrange(n, a.len() as int),
            first == (n == 0),
            after_at == (n > 0 && a[n - 1] == '@'),
            -1 <= last < n,
            found == (last >= 0),
            found ==> is_delimiter(a[last]),
            forall|k: int| last < k < n ==> !is_delimiter(#[trigger] a[k]),
            found ==> parts_host == (a[last] == ':' && last > 0 && a[last - 1] != '@'),
            found ==> followed == (last < n - 1),
        decreases a.len() - n,
    {
        match rest.next() {
            None => {
                proof {
                    // Only the last delimiter can part the host from the port.
                    assert forall|i: int| splits_at(a, i) implies i == last by {
                        if i < last {
                            assert(is_delimiter(a[last]));
                        }
                    }
                    if found && parts_host && followed {
                        assert(splits_at(a, last));
                    }
                }
                return found && parts_host && followed;
            },
            Some(c) => {
                if delimiter(c) {
                    parts_host = c == ':' && !first && !after_at;
                    found = true;
                    followed = false;
                    proof {
                        last = n;
                    }
                } else {
                    followed = true;
                }
                first = false;
                after_at = c == '@';
                proof {
                    n = n + 1;
                }
            },
        }
    }
}

/// Where a tunnel leads: an authority of the shape `host:port`. Only the
/// shape is checked here; which characters an authority may hold is the URI
/// parser's business.
#[derive(Debug, PartialEq, Eq)]
pub struct Destination {
    authority: String,
}

impl View for Destination {
    type V = Seq<char>;

    closed spec fn view(&self) -> Seq<char> {
        self.authority@
    }
}

impl Clone for Destination {
    fn clone(&self) -> (r: Destination)
        ensures
            r@ == self@,
    {
        proof {
            use_type_invariant(self);
        }
        Destination { authority: self.authority.clone() }
    }
}

impl Destination {
    #[verifier::type_invariant]
    spec fn has_shape(&self) -> bool {
        is_host_port(self.authority@)
    }

    /// The destination that `authority` names, where it has the shape
    /// `host:port`.
    pub fn new(authority: &str) -> (r: Option<Destination>)
        ensures
            match r {
                Some(d) => is_host_port(authority@) && d@ == authority@,
                None => !is_host_port(authority@),
            },
    {
        if has_host_and_port(authority) {
            Some(Destination { authority: authority.to_owned() })
        } else {
            None
        }
    }

    /// The destination as text. It always has the shape `host:port`.
    pub fn as_str(&self) -> (s: &str)
        ensures
            s@ == self@,
            is_host_port(s@),
    {
        proof {
            use_type_invariant(self);
        }
        self.authority.as_str()
    }

    /// The destination as text of its own, for the call that dials it.
    pub fn into_string(self) -> (s: String)
        ensures
            s@ == self@,
            is_host_port(s@),
    {
        proof {
            use_type_invariant(&self);
        }
        self.authority
    }
}

/// The destination that a parsed target names: its authority where it has
/// one of the shape `host:port`, `None` where it has none or one of another
/// shape.
pub fn host_addr(target: &Target) -> (r: Option<Destination>)
    ensures
        match r {
            Some(d) => destination(Some(target@)) == Some(d@),
            None => destination(Some(target@)) is None,
        },
{
    match &target.authority {
        Some(a) => Destination::new(a.as_str()),
        None => None,
    }
}

} // verus!
