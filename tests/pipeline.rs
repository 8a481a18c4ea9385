use qosc_bridge::framing::{
    frame_outbound, unwrap_packet, Element, FramingError, OutboundFraming, Packet,
};
use qosc_bridge::message::{
    kind_of_address, qubit_arg, ConvertError, Kind, OscArg, OscMessage, Request, Response,
    UnhandledKind,
};
use qosc_bridge::receiver::{on_datagram, DecodePolicy, ReceiveAction, ReceiveError};
use qosc_bridge::backend::{flush_to_ops, response_of_bit, MAX_MEASURED};
use qosc_bridge::runner::{Flush, Gate, Runner, RunnerAction, RunnerError, UnhandledPolicy};
use qosc_bridge::sender::response_packet;

fn msg(addr: &str, args: Vec<OscArg>) -> OscMessage {
    OscMessage { addr: addr.as_bytes().to_vec(), args }
}

fn ints(v: &[i32]) -> Vec<OscArg> {
    v.iter().map(|&n| OscArg::Int(n)).collect()
}

fn bundle_of(m: OscMessage) -> Packet {
    Packet::Bundle(vec![Element::Message(m)])
}

fn flush_of(a: RunnerAction) -> (Vec<Gate>, u32) {
    match a {
        RunnerAction::Flush(f) => (f.circuit, f.qubit),
        other => panic!("expected a flush, got {:?}", other),
    }
}

#[test]
fn addresses_name_their_kinds() {
    let table = [
        ("/x", Kind::X),
        ("/y", Kind::Y),
        ("/z", Kind::Z),
        ("/h", Kind::H),
        ("/cx", Kind::CX),
        ("/mz", Kind::Mz),
        ("/s", Kind::S),
        ("/sdg", Kind::Sdg),
        ("/t", Kind::T),
        ("/tdg", Kind::Tdg),
    ];
    for (addr, kind) in table {
        assert_eq!(kind_of_address(&addr.as_bytes().to_vec()), Some(kind));
    }
    for addr in ["", "/", "x", "/q", "/cz", "/mx", "/sdx", "/xx", "/tdgg", "#x"] {
        assert_eq!(kind_of_address(&addr.as_bytes().to_vec()), None);
    }
}

#[test]
fn qubit_arguments() {
    assert_eq!(qubit_arg(OscArg::Int(0)), Some(0));
    assert_eq!(qubit_arg(OscArg::Int(i32::MAX)), Some(i32::MAX as u32));
    assert_eq!(qubit_arg(OscArg::Int(-1)), None);
    assert_eq!(qubit_arg(OscArg::Nil), None);
    assert_eq!(qubit_arg(OscArg::Other), None);
}

#[test]
fn messages_become_requests() {
    assert_eq!(Request::try_from_message(&msg("/x", ints(&[3]))), Ok(Request::X(3)));
    assert_eq!(Request::try_from_message(&msg("/y", ints(&[1]))), Ok(Request::Y(1)));
    assert_eq!(Request::try_from_message(&msg("/z", ints(&[2]))), Ok(Request::Z(2)));
    assert_eq!(Request::try_from_message(&msg("/h", ints(&[0]))), Ok(Request::H(0)));
    assert_eq!(Request::try_from_message(&msg("/cx", ints(&[0, 1]))), Ok(Request::CX(0, 1)));
    assert_eq!(Request::try_from_message(&msg("/mz", ints(&[4]))), Ok(Request::Mz(4)));
    assert_eq!(
        Request::try_from_message(&msg("/sdg", ints(&[2]))),
        Ok(Request::Unhandled(UnhandledKind::Sdg, 2))
    );
    assert_eq!(
        Request::try_from_message(&msg("/t", ints(&[5]))),
        Ok(Request::Unhandled(UnhandledKind::T, 5))
    );
}

#[test]
fn malformed_messages_are_refused() {
    assert_eq!(
        Request::try_from_message(&msg("/foo", ints(&[0]))),
        Err(ConvertError::UnknownAddress)
    );
    assert_eq!(
        Request::try_from_message(&msg("/x", ints(&[0, 1]))),
        Err(ConvertError::WrongArgCount)
    );
    assert_eq!(Request::try_from_message(&msg("/cx", ints(&[0]))), Err(ConvertError::WrongArgCount));
    assert_eq!(Request::try_from_message(&msg("/mz", vec![])), Err(ConvertError::WrongArgCount));
    assert_eq!(Request::try_from_message(&msg("/x", ints(&[-1]))), Err(ConvertError::BadQubit));
    assert_eq!(
        Request::try_from_message(&msg("/cx", vec![OscArg::Int(0), OscArg::Other])),
        Err(ConvertError::BadQubit)
    );
    assert_eq!(Request::try_from_message(&msg("/h", vec![OscArg::Nil])), Err(ConvertError::BadQubit));
}

#[test]
fn response_message_carries_bit_and_nil_probability() {
    let m = Response::Mz(1).to_message();
    assert_eq!(m.addr, b"/mz".to_vec());
    assert_eq!(m.args, vec![OscArg::Int(1), OscArg::Nil]);
    let m = Response::Mz(0).to_message();
    assert_eq!(m.args, vec![OscArg::Int(0), OscArg::Nil]);
}

#[test]
fn framing_errors_are_reported() {
    assert_eq!(unwrap_packet(Packet::Bundle(vec![])).err(), Some(FramingError::EmptyBundle));
    let two = Packet::Bundle(vec![
        Element::Message(msg("/x", ints(&[0]))),
        Element::Message(msg("/y", ints(&[0]))),
    ]);
    assert_eq!(unwrap_packet(two).err(), Some(FramingError::MultipleMessages));
    assert_eq!(
        unwrap_packet(Packet::Bundle(vec![Element::Bundle])).err(),
        Some(FramingError::NestedBundle)
    );
    let u = unwrap_packet(bundle_of(msg("/x", ints(&[2])))).unwrap();
    assert!(!u.bare);
    assert_eq!(u.message.addr, b"/x".to_vec());
    let u = unwrap_packet(Packet::Message(msg("/h", ints(&[1])))).unwrap();
    assert!(u.bare);
    assert_eq!(u.message.args, ints(&[1]));
}

#[test]
fn mis_framed_datagrams_are_discarded_and_the_next_one_is_taken() {
    let bad = vec![
        Packet::Bundle(vec![]),
        Packet::Bundle(vec![
            Element::Message(msg("/x", ints(&[0]))),
            Element::Message(msg("/x", ints(&[1]))),
        ]),
        Packet::Bundle(vec![Element::Bundle]),
    ];
    let errors = [
        FramingError::EmptyBundle,
        FramingError::MultipleMessages,
        FramingError::NestedBundle,
    ];
    for (p, e) in bad.into_iter().zip(errors) {
        assert_eq!(
            on_datagram(Some(p), DecodePolicy::Lenient),
            ReceiveAction::Discard(ReceiveError::Framing(e))
        );
    }
    assert_eq!(
        on_datagram(Some(bundle_of(msg("/x", ints(&[0])))), DecodePolicy::Lenient),
        ReceiveAction::Push { request: Request::X(0), bare: false }
    );
}

#[test]
fn bare_message_is_accepted() {
    assert_eq!(
        on_datagram(Some(Packet::Message(msg("/mz", ints(&[0])))), DecodePolicy::Lenient),
        ReceiveAction::Push { request: Request::Mz(0), bare: true }
    );
}

#[test]
fn receive_errors_by_policy() {
    assert_eq!(on_datagram(None, DecodePolicy::Lenient), ReceiveAction::Discard(ReceiveError::Decode));
    assert_eq!(on_datagram(None, DecodePolicy::Strict), ReceiveAction::Abort(ReceiveError::Decode));
    assert_eq!(
        on_datagram(Some(bundle_of(msg("/q", ints(&[0])))), DecodePolicy::Lenient),
        ReceiveAction::Discard(ReceiveError::Convert(ConvertError::UnknownAddress))
    );
    assert_eq!(
        on_datagram(Some(Packet::Bundle(vec![])), DecodePolicy::Strict),
        ReceiveAction::Abort(ReceiveError::Framing(FramingError::EmptyBundle))
    );
    assert_eq!(
        on_datagram(Some(bundle_of(msg("/x", ints(&[-3])))), DecodePolicy::Strict),
        ReceiveAction::Abort(ReceiveError::Convert(ConvertError::BadQubit))
    );
}

#[test]
fn round_trip_h_then_measure() {
    let mut r = Runner::new(UnhandledPolicy::Fatal);
    assert!(matches!(r.step(Request::H(0)), RunnerAction::Applied));
    assert_eq!(r.gates(), vec![Gate::H(0)]);
    let (circuit, qubit) = flush_of(r.step(Request::Mz(0)));
    assert_eq!(circuit, vec![Gate::H(0)]);
    assert_eq!(qubit, 0);
    assert_eq!(r.gate_count(), 0);
    let ops = flush_to_ops(&Flush { circuit, qubit });
    assert_eq!(ops.len(), 3);
    assert_eq!(response_of_bit(true), Response::Mz(1));
    assert_eq!(response_of_bit(false), Response::Mz(0));
}

#[test]
fn two_qubit_gate_then_one_flush() {
    let mut r = Runner::new(UnhandledPolicy::Fatal);
    assert!(matches!(r.step(Request::X(0)), RunnerAction::Applied));
    assert!(matches!(r.step(Request::CX(0, 1)), RunnerAction::Applied));
    assert_eq!(r.gates(), vec![Gate::X(0), Gate::CX(0, 1)]);
    let (circuit, qubit) = flush_of(r.step(Request::Mz(1)));
    assert_eq!(circuit, vec![Gate::X(0), Gate::CX(0, 1)]);
    assert_eq!(qubit, 1);
    let ops = flush_to_ops(&Flush { circuit, qubit });
    assert_eq!(ops.len(), 4);
}

#[test]
fn measuring_twice_runs_two_empty_circuits() {
    let mut r = Runner::new(UnhandledPolicy::Fatal);
    r.step(Request::Y(2));
    let (first, _) = flush_of(r.step(Request::Mz(0)));
    assert_eq!(first, vec![Gate::Y(2)]);
    assert_eq!(r.gate_count(), 0);
    let (second, q) = flush_of(r.step(Request::Mz(0)));
    assert!(second.is_empty());
    assert_eq!(q, 0);
    let (third, _) = flush_of(r.step(Request::Mz(0)));
    assert!(third.is_empty());
}

#[test]
fn flushes_follow_measurement_order() {
    let reqs = vec![
        Request::X(0),
        Request::Mz(2),
        Request::H(1),
        Request::Z(1),
        Request::Mz(0),
        Request::CX(1, 0),
        Request::Mz(1),
    ];
    let mut r = Runner::new(UnhandledPolicy::Skip);
    let mut flushes = Vec::new();
    for q in reqs {
        if let RunnerAction::Flush(f) = r.step(q) {
            flushes.push((f.circuit, f.qubit));
        }
    }
    assert_eq!(
        flushes,
        vec![
            (vec![Gate::X(0)], 2),
            (vec![Gate::H(1), Gate::Z(1)], 0),
            (vec![Gate::CX(1, 0)], 1),
        ]
    );
}

#[test]
fn unhandled_instructions_by_policy() {
    let mut r = Runner::new(UnhandledPolicy::Fatal);
    r.step(Request::X(0));
    match r.step(Request::Unhandled(UnhandledKind::S, 3)) {
        RunnerAction::Fatal(e) => assert_eq!(e, RunnerError::Unimplemented(UnhandledKind::S, 3)),
        other => panic!("expected a stop, got {:?}", other),
    }
    assert_eq!(r.gates(), vec![Gate::X(0)]);
    let mut r = Runner::new(UnhandledPolicy::Skip);
    r.step(Request::Z(1));
    match r.step(Request::Unhandled(UnhandledKind::Tdg, 0)) {
        RunnerAction::Skipped(k) => assert_eq!(k, UnhandledKind::Tdg),
        other => panic!("expected a skip, got {:?}", other),
    }
    assert_eq!(r.gates(), vec![Gate::Z(1)]);
}

#[test]
fn backend_operation_lists() {
    let empty = flush_to_ops(&Flush { circuit: vec![], qubit: 0 });
    assert_eq!(empty.len(), 2);
    let circuit = vec![Gate::X(0), Gate::Y(1), Gate::Z(2), Gate::H(3), Gate::CX(0, 3)];
    let ops = flush_to_ops(&Flush { circuit, qubit: MAX_MEASURED - 1 });
    assert_eq!(ops.len(), 7);
}

#[test]
fn outbound_framing() {
    match response_packet(&Response::Mz(1), OutboundFraming::Bare) {
        Packet::Message(m) => {
            assert_eq!(m.addr, b"/mz".to_vec());
            assert_eq!(m.args, vec![OscArg::Int(1), OscArg::Nil]);
        }
        other => panic!("expected a bare message, got {:?}", other),
    }
    match response_packet(&Response::Mz(0), OutboundFraming::Bundled) {
        Packet::Bundle(c) => {
            assert_eq!(c.len(), 1);
            match &c[0] {
                Element::Message(m) => assert_eq!(m.args, vec![OscArg::Int(0), OscArg::Nil]),
                Element::Bundle => panic!("nested bundle"),
            }
        }
        other => panic!("expected a bundle, got {:?}", other),
    }
    match frame_outbound(msg("/x", ints(&[1])), OutboundFraming::Bare) {
        Packet::Message(m) => assert_eq!(m.addr, b"/x".to_vec()),
        other => panic!("expected a bare message, got {:?}", other),
    }
}
