use vstd::prelude::*;
use vstd::string::*;
use crate::error::{Error, ErrorKind};
use crate::upstream::UpstreamDescriptor;

verus! {

/// The address the proxy listens on, as plain values.
#[derive(Debug, Clone, Copy)]
pub enum ListenAddress {
    V4 { octets: [u8; 4], port: u16 },
    V6 { segments: [u16; 8], port: u16 },
}

pub const DEFAULT_PORT: u16 = 5000;

/// Whether an address only reaches this machine: `127.0.0.0/8` or `::1`.
pub open spec fn is_loopback_spec(a: ListenAddress) -> bool {
    match a {
        ListenAddress::V4 { octets, .. } => octets@[0] == 127,
        ListenAddress::V6 { segments, .. } => (forall|j: int| 0 <= j < 7 ==> #[trigger] segments@[j] == 0)
            && segments@[7] == 1,
    }
}

impl ListenAddress {
    /// `127.0.0.1:5000`, where the proxy listens unless told otherwise.
    pub fn default_address() -> (r: ListenAddress)
        ensures
            r == (ListenAddress::V4 { octets: [127u8, 0, 0, 1], port: DEFAULT_PORT }),
            is_loopback_spec(r),
    {
        let r = ListenAddress::V4 { octets: [127u8, 0, 0, 1], port: DEFAULT_PORT };
        assert(r->octets@[0] == 127);
        r
    }

    pub fn is_loopback(&self) -> (r: bool)
        ensures
            r == is_loopback_spec(*self),
    {
        match *self {
            ListenAddress::V4 { octets, .. } => octets[0] == 127,
            ListenAddress::V6 { segments, .. } => {
                let mut i: usize = 0;
                while i < 7
                    invariant
                        i <= 7,
                        is_loopback_spec(*self) <==> (forall|j: int| 0 <= j < 7 ==> #[trigger] segments@[j] == 0)
                            && segments@[7] == 1,
                        forall|j: int| 0 <= j < i ==> segments@[j] == 0,
                    decreases 7 - i,
                {
                    let v = segments[i];
                    if v != 0 {
                        assert(v == segments@[i as int]);
                        return false;
                    }
                    i = i + 1;
                }
                let last = segments[7] == 1;
                last
            },
        }
    }
}

/// Some configured upstream needs a token.
pub open spec fn needs_auth(servers: Seq<UpstreamDescriptor>) -> bool {
    exists|i: int| 0 <= i < servers.len() && (#[trigger] servers[i]).auth_scope is Some
}

pub const INSECURE_BIND: &'static str =
    "an upstream requires authentication and the listen address is routable, but the override is not set";

/// Whether the proxy may start: an upstream that needs a token may only be
/// served on a loopback address, unless the override is set.
pub fn check_bind(servers: &Vec<UpstreamDescriptor>, allow_routable: bool, address: &ListenAddress) -> (r:
    Result<(), Error>)
    ensures
        r is Err <==> (needs_auth(servers@) && !allow_routable && !is_loopback_spec(*address)),
        r matches Err(e) ==> e.kind == ErrorKind::Misconfiguration,
{
    let mut has_auth = false;
    let mut i: usize = 0;
    while i < servers.len()
        invariant
            i <= servers@.len(),
            has_auth <==> exists|j: int| 0 <= j < i && (#[trigger] servers@[j]).auth_scope is Some,
        decreases servers@.len() - i,
    {
        if servers[i].auth_scope.is_some() {
            has_auth = true;
        }
        i = i + 1;
    }
    if has_auth && !allow_routable && !address.is_loopback() {
        Err(Error::new(ErrorKind::Misconfiguration, INSECURE_BIND))
    } else {
        Ok(())
    }
}

/// The scopes of the configured upstreams, in their order.
pub open spec fn scopes_of(servers: Seq<UpstreamDescriptor>) -> Seq<String>
    decreases servers.len(),
{
    if servers.len() == 0 {
        Seq::empty()
    } else {
        let rest = scopes_of(servers.drop_last());
        match servers.last().auth_scope {
            Some(s) => rest.push(s),
            None => rest,
        }
    }
}

/// The scopes for which a token is obtained before the proxy starts, so
/// that a broken identity setup stops it at once.
pub fn startup_scopes(servers: &Vec<UpstreamDescriptor>) -> (r: Vec<String>)
    ensures
        r@ == scopes_of(servers@),
{
    let mut r: Vec<String> = Vec::new();
    let mut i: usize = 0;
    while i < servers.len()
        invariant
            i <= servers@.len(),
            r@ == scopes_of(servers@.subrange(0, i as int)),
        decreases servers@.len() - i,
    {
        assert(servers@.subrange(0, i + 1).drop_last() =~= servers@.subrange(0, i as int));
        if let Some(s) = &servers[i].auth_scope {
            r.push(s.clone());
        }
        i = i + 1;
    }
    assert(servers@.subrange(0, servers@.len() as int) =~= servers@);
    r
}

} // verus!
