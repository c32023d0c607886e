//! The gateway a discovered router answers on: its socket address and
//! control-URL path, and the URL every request of this engine is posted to.

use vstd::prelude::*;
use crate::addr::{socket_str, SocketAddrV4};

verus! {

/// One router control endpoint, as discovery found it.
#[derive(Clone, Debug, PartialEq, Eq, Hash)]
pub struct Gateway {
    /// Socket address of the gateway.
    pub addr: SocketAddrV4,
    /// Control URL path of the device.
    pub control_url: String,
}

/// The URL requests against this gateway are posted to.
pub open spec fn gateway_url(g: Gateway) -> Seq<char> {
    "http://"@ + socket_str(g.addr) + g.control_url@
}

impl Gateway {
    /// Renders the control URL of the gateway.
    pub fn url(&self) -> (r: String)
        ensures
            r@ == gateway_url(*self),
    {
        let mut s = String::from_str("http://");
        let addr_text = self.addr.to_text();
        s.append(addr_text.as_str());
        s.append(self.control_url.as_str());
        s
    }
}

} // verus!
