//! What the sending stage transmits for each response.
use vstd::prelude::*;
use crate::framing::{Element, OutboundFraming, Packet, frame_outbound};
use crate::message::{Response, spec_response_message};

verus! {

/// The packet that carries one response: its message, bare or in a bundle of
/// one, by the framing chosen.
pub fn response_packet(r: &Response, framing: OutboundFraming) -> (p: Packet)
    ensures
        match p {
            Packet::Message(m) => framing == OutboundFraming::Bare && (m.addr@, m.args@)
                == spec_response_message(*r),
            Packet::Bundle(c) => framing == OutboundFraming::Bundled && c@.len() == 1 && (
            c@[0] matches Element::Message(m) && (m.addr@, m.args@) == spec_response_message(*r)),
        },
{
    let m = r.to_message();
    frame_outbound(m, framing)
}

} // verus!
