//! The simulator backend: a flushed circuit is written as the backend's
//! operation list and run once, and the measured qubit's bit is read back.
use vstd::prelude::*;
use lay::{Layer, Measured, OpsVec};
use lay_simulator_blueqat::{BlueqatMeasured, BlueqatSimulator};
use crate::message::Response;
use crate::runner::{Flush, Gate};

verus! {

/// lay's operation list for the blueqat simulator. Verus cannot declare
/// `OpsVec` itself, whose parameter is bound by lay's `Layer` trait, so it
/// is held here out of Verus's sight.
#[verifier::external_body]
pub struct BackendOps {
    inner: OpsVec<BlueqatSimulator>,
}

#[verifier::external_type_specification]
#[verifier::external_body]
pub struct ExBlueqatSimulator(BlueqatSimulator);

#[verifier::external_type_specification]
#[verifier::external_body]
pub struct ExBlueqatMeasured(BlueqatMeasured);

/// Operation id of lay's circuit initialisation.
pub const OP_INIT: u16 = 1;
/// Operation id of lay's measurement.
pub const OP_MEAS: u16 = 2;
/// Operation id of lay's X gate.
pub const OP_X: u16 = 3;
/// Operation id of lay's Y gate.
pub const OP_Y: u16 = 4;
/// Operation id of lay's Z gate.
pub const OP_Z: u16 = 5;
/// Operation id of lay's H gate.
pub const OP_H: u16 = 6;
/// Operation id of lay's CX gate.
pub const OP_CX: u16 = 11;
/// Number of qubits (and measurement slots) that the backend can measure.
pub const MAX_MEASURED: u32 = 64;

/// The operations that an operation list holds, in order, each as its
/// operation id and its two qubit (or qubit and slot) arguments; an unused
/// argument is 0.
pub uninterp spec fn ops_of(ops: BackendOps) -> Seq<(u16, u32, u32)>;

/// Whether the simulator has no measurement slot left assigned from a run
/// that did not complete.
pub uninterp spec fn sim_ready(sim: BlueqatSimulator) -> bool;

/// The backend operation that a gate stands for.
pub open spec fn op_of(g: Gate) -> (u16, u32, u32) {
    match g {
        Gate::X(q) => (OP_X, q, 0),
        Gate::Y(q) => (OP_Y, q, 0),
        Gate::Z(q) => (OP_Z, q, 0),
        Gate::H(q) => (OP_H, q, 0),
        Gate::CX(c, t) => (OP_CX, c, t),
    }
}

/// The operation list of a flushed circuit: initialise, the gates in order,
/// then measure the qubit into the slot of the same index.
pub open spec fn flush_ops(circuit: Seq<Gate>, qubit: u32) -> Seq<(u16, u32, u32)> {
    seq![(OP_INIT, 0u32, 0u32)] + circuit.map_values(|g: Gate| op_of(g)) + seq![(OP_MEAS, qubit, qubit)]
}

/// Why a measurement yields no response.
#[derive(Clone, Copy, Debug, PartialEq, Eq, Structural)]
pub enum BackendError {
    /// The backend measures only qubits below `MAX_MEASURED`.
    QubitOutOfRange,
    /// The simulator reported an error while running the circuit.
    Simulator,
}

/// Relies on lay's `OpsVec::new`: an empty operation list.
#[verifier::external_body]
fn ops_new() -> (r: BackendOps)
    ensures
        ops_of(r) == Seq::<(u16, u32, u32)>::empty(),
{
    BackendOps { inner: OpsVec::new() }
}

/// Relies on lay's `OpsVec::initialize`: pushes `OpArgs::Empty(opid::INIT)`.
#[verifier::external_body]
fn ops_initialize(ops: &mut BackendOps)
    ensures
        ops_of(*final(ops)) == ops_of(*old(ops)).push((OP_INIT, 0u32, 0u32)),
{
    ops.inner.initialize()
}

/// Relies on lay's `OpsVec::measure`: pushes `OpArgs::QS(opid::MEAS, q, s)`.
#[verifier::external_body]
fn ops_measure(ops: &mut BackendOps, q: u32, s: u32)
    ensures
        ops_of(*final(ops)) == ops_of(*old(ops)).push((OP_MEAS, q, s)),
{
    ops.inner.measure(q, s)
}

/// Relies on lay's `OpsVec::x`: pushes `OpArgs::Q(opid::X, q)`.
#[verifier::external_body]
fn ops_x(ops: &mut BackendOps, q: u32)
    ensures
        ops_of(*final(ops)) == ops_of(*old(ops)).push((OP_X, q, 0u32)),
{
    ops.inner.x(q)
}

/// Relies on lay's `OpsVec::y`: pushes `OpArgs::Q(opid::Y, q)`.
#[verifier::external_body]
fn ops_y(ops: &mut BackendOps, q: u32)
    ensures
        ops_of(*final(ops)) == ops_of(*old(ops)).push((OP_Y, q, 0u32)),
{
    ops.inner.y(q)
}

/// Relies on lay's `OpsVec::z`: pushes `OpArgs::Q(opid::Z, q)`.
#[verifier::external_body]
fn ops_z(ops: &mut BackendOps, q: u32)
    ensures
        ops_of(*final(ops)) == ops_of(*old(ops)).push((OP_Z, q, 0u32)),
{
    ops.inner.z(q)
}

/// Relies on lay's `OpsVec::h`: pushes `OpArgs::Q(opid::H, q)`.
#[verifier::external_body]
fn ops_h(ops: &mut BackendOps, q: u32)
    ensures
        ops_of(*final(ops)) == ops_of(*old(ops)).push((OP_H, q, 0u32)),
{
    ops.inner.h(q)
}

/// Relies on lay's `OpsVec::cx`: pushes `OpArgs::QQ(opid::CX, c, t)`.
#[verifier::external_body]
fn ops_cx(ops: &mut BackendOps, c: u32, t: u32)
    ensures
        ops_of(*final(ops)) == ops_of(*old(ops)).push((OP_CX, c, t)),
{
    ops.inner.cx(c, t)
}

/// Relies on lay's `OpsVec::len`: the number of operations held.
#[verifier::external_body]
fn ops_len(ops: &BackendOps) -> (n: usize)
    ensures
        n == ops_of(*ops).len(),
{
    ops.inner.len()
}

impl BackendOps {
    /// The number of operations in the list.
    pub fn len(&self) -> (n: usize)
        ensures
            n == ops_of(*self).len(),
    {
        ops_len(self)
    }
}

/// The backend's operation list for a flushed circuit.
pub fn flush_to_ops(f: &Flush) -> (ops: BackendOps)
    ensures
        ops_of(ops) == flush_ops(f.circuit@, f.qubit),
{
    let mut ops = ops_new();
    ops_initialize(&mut ops);
    let n = f.circuit.len();
    let mut i: usize = 0;
    while i < n
        invariant
            n == f.circuit@.len(),
            i <= n,
            ops_of(ops) == seq![(OP_INIT, 0u32, 0u32)] + f.circuit@.take(i as int).map_values(
                |g: Gate| op_of(g),
            ),
        decreases n - i,
    {
        let g = f.circuit[i];
        match g {
            Gate::X(q) => ops_x(&mut ops, q),
            Gate::Y(q) => ops_y(&mut ops, q),
            Gate::Z(q) => ops_z(&mut ops, q),
            Gate::H(q) => ops_h(&mut ops, q),
            Gate::CX(c, t) => ops_cx(&mut ops, c, t),
        }
        proof {
            assert(f.circuit@.take(i + 1) =~= f.circuit@.take(i as int).push(g));
            assert(ops_of(ops) =~= seq![(OP_INIT, 0u32, 0u32)] + f.circuit@.take(i + 1).map_values(
                |g: Gate| op_of(g),
            ));
        }
        i = i + 1;
    }
    ops_measure(&mut ops, f.qubit, f.qubit);
    proof {
        assert(f.circuit@.take(n as int) =~= f.circuit@);
        assert(ops_of(ops) =~= flush_ops(f.circuit@, f.qubit));
    }
    ops
}

/// Relies on `BlueqatSimulator::new`: `None` where a simulator already exists
/// in this process or Python could not import blueqat; a new simulator has no
/// measurement slot assigned.
#[verifier::external_body]
fn sim_open() -> (r: Option<BlueqatSimulator>)
    ensures
        r matches Some(s) ==> sim_ready(s),
{
    BlueqatSimulator::new().ok()
}

/// Relies on `Layer::make_buffer` of `BlueqatSimulator`: a buffer of 64
/// measurement slots.
#[verifier::external_body]
fn sim_buffer(sim: &BlueqatSimulator) -> (r: BlueqatMeasured) {
    sim.make_buffer()
}

/// Relies on `Layer::send_receive` of `BlueqatSimulator`: runs the list as a
/// Python script and writes each measured qubit's outcome into its slot of
/// `buf`; `false` where Python reported an error. It panics on an operation
/// it does not know, on a qubit or slot of 64 or more in a measurement, and
/// on a measured qubit whose slot a run that did not complete left assigned;
/// a completed run leaves no slot assigned.
#[verifier::external_body]
fn sim_send_receive(
    sim: &mut BlueqatSimulator,
    ops: &BackendOps,
    buf: &mut BlueqatMeasured,
) -> (ok: bool)
    requires
        sim_ready(*old(sim)),
        exists|c: Seq<Gate>, q: u32| q < MAX_MEASURED && ops_of(*ops) == flush_ops(c, q),
    ensures
        ok ==> sim_ready(*final(sim)),
{
    sim.send_receive(ops.inner.as_ref(), buf).is_ok()
}

/// Relies on `Measured::get` of `BlueqatMeasured`: the outcome in a slot,
/// which must be below 64.
#[verifier::external_body]
fn measured_get(buf: &BlueqatMeasured, slot: u32) -> (b: bool)
    requires
        slot < MAX_MEASURED,
{
    buf.get(slot)
}

/// The response for a measured outcome: bit 1 for `true`, 0 for `false`.
pub fn response_of_bit(b: bool) -> (r: Response)
    ensures
        r == Response::Mz(if b { 1 } else { 0 }),
{
    if b {
        Response::Mz(1)
    } else {
        Response::Mz(0)
    }
}

/// The simulator, owned by the runner.
pub struct Backend {
    sim: BlueqatSimulator,
}

impl Backend {
    /// The simulator can take a circuit.
    pub closed spec fn ready(&self) -> bool {
        sim_ready(self.sim)
    }

    /// Starts the simulator; `None` where it is not available.
    pub fn open() -> (r: Option<Backend>)
        ensures
            r matches Some(b) ==> b.ready(),
    {
        match sim_open() {
            Some(sim) => Some(Backend { sim }),
            None => None,
        }
    }

    /// Runs a flushed circuit once (its operations are `flush_ops`) and
    /// returns the measured qubit's bit. A qubit that the backend cannot
    /// measure is refused before anything runs.
    pub fn measure(&mut self, f: &Flush) -> (r: Result<Response, BackendError>)
        requires
            old(self).ready(),
        ensures
            (f.qubit >= MAX_MEASURED) == (r == Err::<Response, BackendError>(
                BackendError::QubitOutOfRange,
            )),
            r is Ok ==> final(self).ready(),
            r matches Ok(resp) ==> resp == Response::Mz(0) || resp == Response::Mz(1),
            f.qubit >= MAX_MEASURED ==> final(self).ready(),
    {
        if f.qubit >= MAX_MEASURED {
            return Err(BackendError::QubitOutOfRange);
        }
        let ops = flush_to_ops(f);
        let mut buf = sim_buffer(&self.sim);
        let ok = sim_send_receive(&mut self.sim, &ops, &mut buf);
        if !ok {
            return Err(BackendError::Simulator);
        }
        let b = measured_get(&buf, f.qubit);
        Ok(response_of_bit(b))
    }
}

} // verus!
