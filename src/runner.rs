//! The runner's instruction accumulator: gates are appended one by one, and a
//! measurement flushes the circuit to the backend and starts a fresh one.
use vstd::prelude::*;
use crate::message::{Request, UnhandledKind};

verus! {

/// One gate of an accumulated circuit.
#[derive(Clone, Copy, Debug, PartialEq, Eq, Structural)]
pub enum Gate {
    X(u32),
    Y(u32),
    Z(u32),
    H(u32),
    /// Controlled NOT: control qubit, then target qubit.
    CX(u32, u32),
}

/// What the runner does with an instruction that it does not implement.
#[derive(Clone, Copy, Debug, PartialEq, Eq, Structural)]
pub enum UnhandledPolicy {
    /// Stop the runner.
    Fatal,
    /// Report the instruction and go on.
    Skip,
}

/// Why the runner stops.
#[derive(Clone, Copy, Debug, PartialEq, Eq, Structural)]
pub enum RunnerError {
    /// An instruction that the runner does not implement, on the given qubit.
    Unimplemented(UnhandledKind, u32),
}

/// A circuit handed to the backend: the gates in order, then a measurement
/// of `qubit`.
#[derive(Clone, Debug)]
pub struct Flush {
    pub circuit: Vec<Gate>,
    pub qubit: u32,
}

/// What the runner does after one instruction.
#[derive(Clone, Debug)]
pub enum RunnerAction {
    /// The circuit now ends with the instruction's gate.
    Applied,
    /// Run this circuit on the backend and read the measured qubit's bit.
    Flush(Flush),
    /// The instruction is not implemented and was passed over.
    Skipped(UnhandledKind),
    /// The instruction is not implemented: stop.
    Fatal(RunnerError),
}

/// The runner: it owns the accumulated circuit.
pub struct Runner {
    ops: Vec<Gate>,
    unhandled: UnhandledPolicy,
}

/// For a gate instruction, its gate.
pub open spec fn gate_of(r: Request) -> Option<Gate> {
    match r {
        Request::X(q) => Some(Gate::X(q)),
        Request::Y(q) => Some(Gate::Y(q)),
        Request::Z(q) => Some(Gate::Z(q)),
        Request::H(q) => Some(Gate::H(q)),
        Request::CX(c, t) => Some(Gate::CX(c, t)),
        _ => None,
    }
}

/// One instruction applied to the accumulated gates `ops`: the gates after
/// it, and the circuit and qubit flushed to the backend, if any.
pub open spec fn step_spec(ops: Seq<Gate>, r: Request) -> (Seq<Gate>, Option<(Seq<Gate>, u32)>) {
    match r {
        Request::Mz(q) => (Seq::empty(), Some((ops, q))),
        Request::Unhandled(_, _) => (ops, None),
        _ => (ops.push(gate_of(r)->0), None),
    }
}

/// The instructions `reqs` applied in order from the gates `ops`: the gates
/// after them, and the flushes in the order they happen.
pub open spec fn run_spec(ops: Seq<Gate>, reqs: Seq<Request>) -> (Seq<Gate>, Seq<(Seq<Gate>, u32)>)
    decreases reqs.len(),
{
    if reqs.len() == 0 {
        (ops, Seq::empty())
    } else {
        let (next, f) = step_spec(ops, reqs[0]);
        let (last, fs) = run_spec(next, reqs.drop_first());
        match f {
            Some(x) => (last, seq![x] + fs),
            None => (last, fs),
        }
    }
}

/// The qubits of the measurement instructions among `reqs`, in order.
pub open spec fn measured_qubits(reqs: Seq<Request>) -> Seq<u32>
    decreases reqs.len(),
{
    if reqs.len() == 0 {
        Seq::empty()
    } else {
        let rest = measured_qubits(reqs.drop_first());
        match reqs[0] {
            Request::Mz(q) => seq![q] + rest,
            _ => rest,
        }
    }
}

/// The gates of gate instructions, in order.
pub open spec fn gates_of(reqs: Seq<Request>) -> Seq<Gate> {
    reqs.map_values(|r: Request| gate_of(r)->0)
}

/// The flush that an action asks for, if any.
pub open spec fn flush_of(a: RunnerAction) -> Option<(Seq<Gate>, u32)> {
    match a {
        RunnerAction::Flush(f) => Some((f.circuit@, f.qubit)),
        _ => None,
    }
}

impl Runner {
    /// The accumulated gates.
    pub closed spec fn ops(&self) -> Seq<Gate> {
        self.ops@
    }

    /// The policy for instructions that the runner does not implement.
    pub closed spec fn policy(&self) -> UnhandledPolicy {
        self.unhandled
    }

    /// A runner with an empty circuit.
    pub fn new(unhandled: UnhandledPolicy) -> (r: Runner)
        ensures
            r.ops() == Seq::<Gate>::empty(),
            r.policy() == unhandled,
    {
        Runner { ops: Vec::new(), unhandled }
    }

    /// The number of accumulated gates.
    pub fn gate_count(&self) -> (n: usize)
        ensures
            n == self.ops().len(),
    {
        self.ops.len()
    }

    /// The accumulated gates, in order.
    pub fn gates(&self) -> (g: Vec<Gate>)
        ensures
            g@ == self.ops(),
    {
        self.ops.clone()
    }

    /// Applies one instruction. A gate is appended to the circuit; a
    /// measurement hands the circuit to the backend and leaves an empty one;
    /// an instruction that is not implemented leaves the circuit as it is
    /// and is passed over or stops the runner, by the policy.
    pub fn step(&mut self, req: Request) -> (a: RunnerAction)
        ensures
            (final(self).ops(), flush_of(a)) == step_spec(old(self).ops(), req),
            final(self).policy() == old(self).policy(),
            gate_of(req) is Some ==> a is Applied,
            req matches Request::Unhandled(k, q) ==> if old(self).policy() == UnhandledPolicy::Skip {
                a matches RunnerAction::Skipped(k2) && k2 == k
            } else {
                a matches RunnerAction::Fatal(e) && e == RunnerError::Unimplemented(k, q)
            },
    {
        let g = match req {
            Request::X(q) => Gate::X(q),
            Request::Y(q) => Gate::Y(q),
            Request::Z(q) => Gate::Z(q),
            Request::H(q) => Gate::H(q),
            Request::CX(c, t) => Gate::CX(c, t),
            Request::Mz(q) => {
                let mut circuit: Vec<Gate> = Vec::new();
                std::mem::swap(&mut self.ops, &mut circuit);
                return RunnerAction::Flush(Flush { circuit, qubit: q });
            },
            Request::Unhandled(k, q) => {
                return match self.unhandled {
                    UnhandledPolicy::Skip => RunnerAction::Skipped(k),
                    UnhandledPolicy::Fatal => RunnerAction::Fatal(RunnerError::Unimplemented(k, q)),
                };
            },
        };
        self.ops.push(g);
        RunnerAction::Applied
    }
}

/// Flushes reach the backend in the order of the measurement instructions
/// that caused them: one flush per measurement, of the measured qubit.
pub proof fn lemma_flush_order(ops: Seq<Gate>, reqs: Seq<Request>)
    ensures
        run_spec(ops, reqs).1.map_values(|f: (Seq<Gate>, u32)| f.1) == measured_qubits(reqs),
    decreases reqs.len(),
{
    if reqs.len() > 0 {
        let (next, f) = step_spec(ops, reqs[0]);
        lemma_flush_order(next, reqs.drop_first());
        let fs = run_spec(next, reqs.drop_first()).1;
        if let Some(x) = f {
            assert((seq![x] + fs).map_values(|f: (Seq<Gate>, u32)| f.1) =~= seq![x.1] + fs.map_values(
                |f: (Seq<Gate>, u32)| f.1,
            ));
        }
    }
}

/// After a measurement the accumulated circuit is empty, whatever came
/// before it.
pub proof fn lemma_reset_after_measure(ops: Seq<Gate>, reqs: Seq<Request>)
    requires
        reqs.len() > 0,
        reqs.last() is Mz,
    ensures
        run_spec(ops, reqs).0 == Seq::<Gate>::empty(),
    decreases reqs.len(),
{
    if reqs.len() > 1 {
        let (next, _) = step_spec(ops, reqs[0]);
        assert(reqs.drop_first().last() == reqs.last());
        lemma_reset_after_measure(next, reqs.drop_first());
    } else {
        assert(reqs.drop_first().len() == 0);
        assert(run_spec(Seq::empty(), reqs.drop_first()).0 == Seq::<Gate>::empty());
    }
}

/// Gate instructions followed by one measurement are applied in order to
/// the same circuit, which is flushed once, after them, and then left empty.
pub proof fn lemma_gates_then_measure(ops: Seq<Gate>, reqs: Seq<Request>, q: u32)
    requires
        forall|i: int| 0 <= i < reqs.len() ==> gate_of(#[trigger] reqs[i]) is Some,
    ensures
        run_spec(ops, reqs.push(Request::Mz(q))) == (Seq::<Gate>::empty(), seq![(ops + gates_of(reqs), q)]),
    decreases reqs.len(),
{
    let all = reqs.push(Request::Mz(q));
    if reqs.len() == 0 {
        assert(all.drop_first() =~= Seq::<Request>::empty());
        assert(ops + gates_of(reqs) =~= ops);
        assert(run_spec(Seq::empty(), all.drop_first()) == (Seq::<Gate>::empty(), Seq::<(Seq<Gate>, u32)>::empty()));
        assert(seq![(ops, q)] + Seq::<(Seq<Gate>, u32)>::empty() =~= seq![(ops, q)]);
    } else {
        let g = gate_of(reqs[0])->0;
        assert(gate_of(reqs[0]) is Some);
        let rest = reqs.drop_first();
        assert(all.drop_first() =~= rest.push(Request::Mz(q)));
        assert forall|i: int| 0 <= i < rest.len() implies gate_of(#[trigger] rest[i]) is Some by {
            assert(rest[i] == reqs[i + 1]);
        }
        lemma_gates_then_measure(ops.push(g), rest, q);
        assert(ops.push(g) + gates_of(rest) =~= ops + gates_of(reqs));
    }
}

} // verus!
