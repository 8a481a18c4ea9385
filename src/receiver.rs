//! What the receiving stage does with each datagram once the codec has read it.
use vstd::prelude::*;
use crate::framing::{FramingError, Packet, spec_unwrap, unwrap_packet};
use crate::message::{ConvertError, Request, spec_request};

verus! {

/// What happens to a datagram that yields no instruction.
#[derive(Clone, Copy, Debug, PartialEq, Eq, Structural)]
pub enum DecodePolicy {
    /// Report the datagram and go on with the next one.
    Lenient,
    /// Stop the receiving stage with the error.
    Strict,
}

/// Why a datagram yields no instruction.
#[derive(Clone, Copy, Debug, PartialEq, Eq, Structural)]
pub enum ReceiveError {
    /// The codec could not read the datagram as a packet.
    Decode,
    Framing(FramingError),
    Convert(ConvertError),
}

/// What the receiving stage does with one datagram.
#[derive(Clone, Copy, Debug, PartialEq, Eq, Structural)]
pub enum ReceiveAction {
    /// Push the instruction onto the request queue. `bare` tells that the
    /// packet was a message without a bundle, which is worth a warning.
    Push { request: Request, bare: bool },
    /// Report the error and wait for the next datagram.
    Discard(ReceiveError),
    /// Stop the receiving stage with the error.
    Abort(ReceiveError),
}

/// The instruction that a decoded datagram carries, or why it carries none.
/// `None` stands for a datagram that the codec could not read.
pub open spec fn spec_receive(decoded: Option<Packet>) -> Result<Request, ReceiveError> {
    match decoded {
        None => Err(ReceiveError::Decode),
        Some(p) => match spec_unwrap(p) {
            Err(e) => Err(ReceiveError::Framing(e)),
            Ok(m) => match spec_request(m.addr@, m.args@) {
                Err(e) => Err(ReceiveError::Convert(e)),
                Ok(r) => Ok(r),
            },
        },
    }
}

/// Decides what to do with one datagram, given what the codec made of it
/// (`None` where it could not read it).
pub fn on_datagram(decoded: Option<Packet>, policy: DecodePolicy) -> (a: ReceiveAction)
    ensures
        match spec_receive(decoded) {
            Ok(r) => a matches ReceiveAction::Push { request, bare } && request == r && bare == (
            decoded matches Some(p) && p is Message),
            Err(e) => if policy == DecodePolicy::Lenient {
                a == ReceiveAction::Discard(e)
            } else {
                a == ReceiveAction::Abort(e)
            },
        },
{
    let r: Result<(Request, bool), ReceiveError> = match decoded {
        None => Err(ReceiveError::Decode),
        Some(p) => match unwrap_packet(p) {
            Err(e) => Err(ReceiveError::Framing(e)),
            Ok(u) => match Request::try_from_message(&u.message) {
                Err(e) => Err(ReceiveError::Convert(e)),
                Ok(req) => Ok((req, u.bare)),
            },
        },
    };
    match r {
        Ok((request, bare)) => ReceiveAction::Push { request, bare },
        Err(e) => match policy {
            DecodePolicy::Lenient => ReceiveAction::Discard(e),
            DecodePolicy::Strict => ReceiveAction::Abort(e),
        },
    }
}

} // verus!
