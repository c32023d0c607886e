use vstd::prelude::*;

verus! {

/// The protocols a port mapping can forward.
#[derive(Debug, Clone, Copy, PartialEq, Eq, Structural)]
pub enum PortMappingProtocol {
    /// TCP protocol
    TCP,
    /// UDP protocol
    UDP,
}

/// The exact text a protocol puts on the wire inside `NewProtocol`.
pub open spec fn protocol_label(p: PortMappingProtocol) -> Seq<char> {
    match p {
        PortMappingProtocol::TCP => seq!['T', 'C', 'P'],
        PortMappingProtocol::UDP => seq!['U', 'D', 'P'],
    }
}

impl PortMappingProtocol {
    /// The wire form of the protocol, `"TCP"` or `"UDP"`.
    pub fn label(&self) -> (r: &'static str)
        ensures
            r@ == protocol_label(*self),
    {
        match self {
            PortMappingProtocol::TCP => {
                proof {
                    reveal_strlit("TCP");
                }
                "TCP"
            },
            PortMappingProtocol::UDP => {
                proof {
                    reveal_strlit("UDP");
                }
                "UDP"
            },
        }
    }
}

} // verus!
