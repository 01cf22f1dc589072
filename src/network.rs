use vstd::prelude::*;
use vstd::string::StrSliceExecFns;

verus! {

/// Why the local address could not be found.
#[derive(Debug, PartialEq, Eq)]
pub enum NetworkError {
    /// No route, hence no local address, could be resolved; the cause.
    NoRoute(String),
}

impl NetworkError {
    /// The text shown to the host for this error.
    pub fn message(&self) -> (r: String)
        ensures
            r@ == match self {
                NetworkError::NoRoute(cause) => cause@,
            },
    {
        match self {
            NetworkError::NoRoute(cause) => cause.clone(),
        }
    }
}

/// The local address a routing probe binds to: any interface, any port.
pub fn route_probe_bind_address() -> (r: &'static str)
    ensures
        r@ == "0.0.0.0:0"@,
{
    "0.0.0.0:0"
}

/// The always-routable remote address the routing probe is aimed at. Nothing
/// is sent there; only the route to it is resolved.
pub fn route_probe_target() -> (r: &'static str)
    ensures
        r@ == "8.8.8.8:80"@,
{
    "8.8.8.8:80"
}

/// The textual prefix shared by the addresses of the access-point subnet,
/// 192.168.4.0/24.
pub open spec fn access_point_prefix() -> Seq<char> {
    "192.168.4."@
}

/// Whether the address `ip`, written as text, lies in the access-point subnet.
pub fn is_access_point_address(ip: &str) -> (r: bool)
    ensures
        r == access_point_prefix().is_prefix_of(ip@),
{
    let prefix: &str = "192.168.4.";
    proof {
        reveal_strlit("192.168.4.");
    }
    let n: usize = prefix.unicode_len();
    let m: usize = ip.unicode_len();
    if m < n {
        return false;
    }
    let mut i: usize = 0;
    while i < n
        invariant
            prefix@ == access_point_prefix(),
            n == prefix@.len(),
            m == ip@.len(),
            n <= m,
            i <= n,
            forall|j: int| 0 <= j < i ==> prefix@[j] == ip@[j],
        decreases n - i,
    {
        if prefix.get_char(i) != ip.get_char(i) {
            return false;
        }
        i = i + 1;
    }
    proof {
        assert(prefix@ =~= ip@.subrange(0, n as int));
    }
    true
}

/// Whether the host is on the access-point subnet, given the outcome of
/// looking up its local address. A failed lookup means no, never an error.
pub fn is_on_access_point_network(local: &Result<String, NetworkError>) -> (r: bool)
    ensures
        r == (local matches Ok(ip) && access_point_prefix().is_prefix_of(ip@)),
{
    match local {
        Ok(ip) => is_access_point_address(ip.as_str()),
        Err(_) => false,
    }
}

} // verus!
