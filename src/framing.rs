//! Packet framing: an inbound packet must resolve to exactly one message,
//! and an outbound response is framed as one message.
use vstd::prelude::*;
use crate::message::OscMessage;

verus! {

/// One element of a bundle. The contents of a nested bundle are never read.
#[derive(Clone, Debug)]
pub enum Element {
    Message(OscMessage),
    Bundle,
}

/// A decoded packet: a bare message, or a bundle of elements.
#[derive(Clone, Debug)]
pub enum Packet {
    Message(OscMessage),
    Bundle(Vec<Element>),
}

/// Why a packet does not resolve to exactly one message.
#[derive(Clone, Copy, Debug, PartialEq, Eq, Structural)]
pub enum FramingError {
    /// The bundle holds no element.
    EmptyBundle,
    /// The bundle holds more than one element.
    MultipleMessages,
    /// The bundle's one element is itself a bundle.
    NestedBundle,
}

/// How an outbound response is framed.
#[derive(Clone, Copy, Debug, PartialEq, Eq, Structural)]
pub enum OutboundFraming {
    /// A bare message.
    Bare,
    /// A bundle of one message, for clients that only read bundles.
    Bundled,
}

/// The message that a packet resolves to.
#[derive(Clone, Debug)]
pub struct Unwrapped {
    pub message: OscMessage,
    /// The packet was a bare message, which is tolerated but not standard.
    pub bare: bool,
}

/// The message that a packet resolves to, or the framing error, if the
/// packet holds no single message.
pub open spec fn spec_unwrap(p: Packet) -> Result<OscMessage, FramingError> {
    match p {
        Packet::Message(m) => Ok(m),
        Packet::Bundle(content) => if content@.len() == 0 {
            Err(FramingError::EmptyBundle)
        } else if content@.len() > 1 {
            Err(FramingError::MultipleMessages)
        } else {
            match content@[0] {
                Element::Message(m) => Ok(m),
                Element::Bundle => Err(FramingError::NestedBundle),
            }
        },
    }
}

/// Resolves a packet to its one message.
pub fn unwrap_packet(p: Packet) -> (r: Result<Unwrapped, FramingError>)
    ensures
        match r {
            Ok(u) => spec_unwrap(p) == Ok::<OscMessage, FramingError>(u.message) && u.bare == (
            p is Message),
            Err(e) => spec_unwrap(p) == Err::<OscMessage, FramingError>(e),
        },
{
    match p {
        Packet::Message(m) => Ok(Unwrapped { message: m, bare: true }),
        Packet::Bundle(content) => {
            if content.len() == 0 {
                Err(FramingError::EmptyBundle)
            } else if content.len() > 1 {
                Err(FramingError::MultipleMessages)
            } else {
                let mut content = content;
                let e = content.pop().unwrap();
                match e {
                    Element::Message(m) => Ok(Unwrapped { message: m, bare: false }),
                    Element::Bundle => Err(FramingError::NestedBundle),
                }
            }
        },
    }
}

/// Frames one outbound message.
pub fn frame_outbound(m: OscMessage, framing: OutboundFraming) -> (p: Packet)
    ensures
        framing == OutboundFraming::Bare ==> p == Packet::Message(m),
        framing == OutboundFraming::Bundled ==> (p matches Packet::Bundle(c) && c@ == seq![
            Element::Message(m),
        ]),
{
    match framing {
        OutboundFraming::Bare => Packet::Message(m),
        OutboundFraming::Bundled => {
            let c = vec![Element::Message(m)];
            assert(c@ =~= seq![Element::Message(m)]);
            Packet::Bundle(c)
        },
    }
}

} // verus!
