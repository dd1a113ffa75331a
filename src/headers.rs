//! Propagation of the client's headers onto subgraph requests.

use vstd::prelude::*;

verus! {

/// Copies the originating client request's headers onto each subgraph
/// request, except the reserved ones.
pub struct PropagateHeaders;

/// A subgraph service wrapped by `PropagateHeaders`.
pub struct PropagateHeadersService<S> {
    pub inner: S,
}

/// The headers that are never propagated: hop-by-hop headers and those that
/// describe the body or the target of the subgraph request itself.
pub open spec fn reserved_header_names() -> Seq<Seq<char>> {
    seq![
        "connection"@,
        "proxy-authenticate"@,
        "proxy-authorization"@,
        "te"@,
        "trailer"@,
        "transfer-encoding"@,
        "upgrade"@,
        "content-length"@,
        "content-type"@,
        "host"@,
    ]
}

fn same_text(a: &str, b: &str) -> (r: bool)
    ensures
        r == (a@ == b@),
{
    let n: usize = a.unicode_len();
    if n != b.unicode_len() {
        return false;
    }
    let mut i: usize = 0;
    while i < n
        invariant
            n == a@.len(),
            n == b@.len(),
            i <= n,
            a@.subrange(0, i as int) == b@.subrange(0, i as int),
        decreases n - i,
    {
        if a.get_char(i) != b.get_char(i) {
            proof {
                assert(a@[i as int] != b@[i as int]);
            }
            return false;
        }
        proof {
            assert(a@.subrange(0, i + 1) =~= a@.subrange(0, i as int).push(a@[i as int]));
            assert(b@.subrange(0, i + 1) =~= b@.subrange(0, i as int).push(b@[i as int]));
        }
        i = i + 1;
    }
    proof {
        assert(a@ =~= a@.subrange(0, n as int));
        assert(b@ =~= b@.subrange(0, n as int));
    }
    true
}

/// Whether `name` (a lower-case header name) is reserved.
pub fn is_reserved_header(name: &str) -> (r: bool)
    ensures
        r == reserved_header_names().contains(name@),
{
    let r = same_text(name, "connection")
        || same_text(name, "proxy-authenticate")
        || same_text(name, "proxy-authorization")
        || same_text(name, "te")
        || same_text(name, "trailer")
        || same_text(name, "transfer-encoding")
        || same_text(name, "upgrade")
        || same_text(name, "content-length")
        || same_text(name, "content-type")
        || same_text(name, "host");
    r
}

impl PropagateHeaders {
    pub fn new() -> (r: PropagateHeaders) {
        PropagateHeaders
    }

    /// Wraps `inner`.
    pub fn layer<S>(&self, inner: S) -> (r: PropagateHeadersService<S>)
        ensures
            r.inner == inner,
    {
        PropagateHeadersService { inner }
    }
}

impl<S> PropagateHeadersService<S> {
    /// For each header name of the originating request, whether its values
    /// are copied onto the subgraph request.
    pub fn propagated(&self, names: &Vec<String>) -> (keep: Vec<bool>)
        ensures
            keep@.len() == names@.len(),
            forall|i: int|
                0 <= i < names@.len() ==> keep@[i] == !reserved_header_names().contains(
                    #[trigger] names@[i]@,
                ),
    {
        let mut keep: Vec<bool> = Vec::new();
        let mut i: usize = 0;
        while i < names.len()
            invariant
                i <= names@.len(),
                keep@.len() == i,
                forall|j: int|
                    0 <= j < i ==> keep@[j] == !reserved_header_names().contains(#[trigger] names@[j]@),
            decreases names@.len() - i,
        {
            let reserved = is_reserved_header(names[i].as_str());
            keep.push(!reserved);
            i = i + 1;
        }
        keep
    }
}

} // verus!
