//! Where the broker is.

use crate::text::join;
use vstd::prelude::*;

verus! {

/// The address at which the broker is reached: the given host, or the local
/// loopback address where none is given, on the broker's default port and
/// without credentials.
pub open spec fn broker_url_of(host: Option<Seq<char>>) -> Seq<char> {
    "redis://"@ + match host {
        Some(host) => host,
        None => "127.0.0.1"@,
    } + "/"@
}

/// The view of a host that may not be given.
pub open spec fn host_view(host: Option<&str>) -> Option<Seq<char>> {
    match host {
        Some(host) => Some(host@),
        None => None,
    }
}

/// The address at which the broker is reached.
pub fn broker_url(host: Option<&str>) -> (url: String)
    ensures
        url@ == broker_url_of(host_view(host)),
{
    let host = match host {
        Some(host) => host,
        None => "127.0.0.1",
    };
    let prefixed = join("redis://", host);
    join(prefixed.as_str(), "/")
}

} // verus!
