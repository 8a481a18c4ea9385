//! The message schema: which message address and arguments stand for which
//! instruction, and how an outcome is written back as a message.
use vstd::prelude::*;

verus! {

/// One argument of a protocol message, as far as the schema reads it.
#[derive(Clone, Copy, Debug, PartialEq, Eq, Structural)]
pub enum OscArg {
    /// A 32-bit signed integer argument.
    Int(i32),
    /// The protocol's nil value: no value.
    Nil,
    /// Any argument of another type (float, string, blob, ...).
    Other,
}

/// A protocol message: an address of ASCII bytes and its arguments.
#[derive(Clone, Debug)]
pub struct OscMessage {
    pub addr: Vec<u8>,
    pub args: Vec<OscArg>,
}

/// The instruction kinds that the schema names.
#[derive(Clone, Copy, Debug, PartialEq, Eq, Structural)]
pub enum Kind {
    X,
    Y,
    Z,
    H,
    CX,
    Mz,
    S,
    Sdg,
    T,
    Tdg,
}

/// Gates of the schema that this bridge does not run.
#[derive(Clone, Copy, Debug, PartialEq, Eq, Structural)]
pub enum UnhandledKind {
    S,
    Sdg,
    T,
    Tdg,
}

/// One decoded client instruction. Qubit indices are zero based.
#[derive(Clone, Copy, Debug, PartialEq, Eq, Structural)]
pub enum Request {
    X(u32),
    Y(u32),
    Z(u32),
    H(u32),
    /// Controlled NOT: control qubit, then target qubit.
    CX(u32, u32),
    /// Measure one qubit in the Z basis.
    Mz(u32),
    /// An instruction that the schema names and the runner does not implement.
    Unhandled(UnhandledKind, u32),
}

/// One outcome returned to the client.
#[derive(Clone, Copy, Debug, PartialEq, Eq, Structural)]
pub enum Response {
    /// The classical bit read from a measured qubit (0 or 1). The outcome's
    /// probability is not computed; it goes out as the protocol's nil.
    Mz(i32),
}

/// Why a message is not an instruction.
#[derive(Clone, Copy, Debug, PartialEq, Eq, Structural)]
pub enum ConvertError {
    /// The address names no instruction.
    UnknownAddress,
    /// The instruction takes another number of arguments.
    WrongArgCount,
    /// An argument is not a non-negative integer qubit index.
    BadQubit,
}

/// The address that stands for each instruction kind.
pub open spec fn address_of(k: Kind) -> Seq<u8> {
    match k {
        Kind::X => seq![47u8, 120u8],
        Kind::Y => seq![47u8, 121u8],
        Kind::Z => seq![47u8, 122u8],
        Kind::H => seq![47u8, 104u8],
        Kind::CX => seq![47u8, 99u8, 120u8],
        Kind::Mz => seq![47u8, 109u8, 122u8],
        Kind::S => seq![47u8, 115u8],
        Kind::Sdg => seq![47u8, 115u8, 100u8, 103u8],
        Kind::T => seq![47u8, 116u8],
        Kind::Tdg => seq![47u8, 116u8, 100u8, 103u8],
    }
}

/// The kind whose address is `a`, if there is one.
pub open spec fn kind_of(a: Seq<u8>) -> Option<Kind> {
    if exists|k: Kind| address_of(k) == a {
        Some(choose|k: Kind| address_of(k) == a)
    } else {
        None
    }
}

/// How many qubit arguments an instruction kind takes.
pub open spec fn arity(k: Kind) -> nat {
    match k {
        Kind::CX => 2,
        _ => 1,
    }
}

/// The qubit index that an argument gives, if it gives one.
pub open spec fn qubit_of(a: OscArg) -> Option<u32> {
    match a {
        OscArg::Int(n) => if n >= 0 { Some(n as u32) } else { None },
        _ => None,
    }
}

/// The instruction of kind `k` on the qubits `q0` and (for `CX`) `q1`.
pub open spec fn request_of(k: Kind, q0: u32, q1: u32) -> Request {
    match k {
        Kind::X => Request::X(q0),
        Kind::Y => Request::Y(q0),
        Kind::Z => Request::Z(q0),
        Kind::H => Request::H(q0),
        Kind::CX => Request::CX(q0, q1),
        Kind::Mz => Request::Mz(q0),
        Kind::S => Request::Unhandled(UnhandledKind::S, q0),
        Kind::Sdg => Request::Unhandled(UnhandledKind::Sdg, q0),
        Kind::T => Request::Unhandled(UnhandledKind::T, q0),
        Kind::Tdg => Request::Unhandled(UnhandledKind::Tdg, q0),
    }
}

/// The instruction that a message with address `addr` and arguments `args`
/// stands for, or why there is none.
pub open spec fn spec_request(addr: Seq<u8>, args: Seq<OscArg>) -> Result<Request, ConvertError> {
    match kind_of(addr) {
        None => Err(ConvertError::UnknownAddress),
        Some(k) => if args.len() != arity(k) {
            Err(ConvertError::WrongArgCount)
        } else if exists|i: int| 0 <= i < args.len() && qubit_of(#[trigger] args[i]) is None {
            Err(ConvertError::BadQubit)
        } else if k == Kind::CX {
            Ok(request_of(k, qubit_of(args[0])->0, qubit_of(args[1])->0))
        } else {
            Ok(request_of(k, qubit_of(args[0])->0, 0))
        },
    }
}

/// The address and arguments of the message that carries a response.
pub open spec fn spec_response_message(r: Response) -> (Seq<u8>, Seq<OscArg>) {
    match r {
        Response::Mz(bit) => (address_of(Kind::Mz), seq![OscArg::Int(bit), OscArg::Nil]),
    }
}

proof fn lemma_addresses_distinct(k1: Kind, k2: Kind)
    requires
        address_of(k1) == address_of(k2),
    ensures
        k1 == k2,
{
    let a1 = address_of(k1);
    let a2 = address_of(k2);
    assert(a1.len() == a2.len());
    assert(a1[1] == a2[1]);
    if a1.len() > 2 {
        assert(a1[2] == a2[2]);
    }
}

/// The instruction kind whose address the bytes `a` are.
pub fn kind_of_address(a: &Vec<u8>) -> (r: Option<Kind>)
    ensures
        r == kind_of(a@),
{
    let n = a.len();
    let r = if n < 2 || a[0] != 47u8 {
        None
    } else if n == 2 {
        let c = a[1];
        if c == 120u8 {
            Some(Kind::X)
        } else if c == 121u8 {
            Some(Kind::Y)
        } else if c == 122u8 {
            Some(Kind::Z)
        } else if c == 104u8 {
            Some(Kind::H)
        } else if c == 115u8 {
            Some(Kind::S)
        } else if c == 116u8 {
            Some(Kind::T)
        } else {
            None
        }
    } else if n == 3 {
        if a[1] == 99u8 && a[2] == 120u8 {
            Some(Kind::CX)
        } else if a[1] == 109u8 && a[2] == 122u8 {
            Some(Kind::Mz)
        } else {
            None
        }
    } else if n == 4 && a[2] == 100u8 && a[3] == 103u8 {
        if a[1] == 115u8 {
            Some(Kind::Sdg)
        } else if a[1] == 116u8 {
            Some(Kind::Tdg)
        } else {
            None
        }
    } else {
        None
    };
    proof {
        match r {
            Some(k) => {
                assert(address_of(k) =~= a@);
                assert forall|k2: Kind| address_of(k2) == a@ implies k2 == k by {
                    lemma_addresses_distinct(k, k2);
                }
            },
            None => {
                assert forall|k: Kind| address_of(k) != a@ by {
                    if address_of(k) == a@ {
                        let s = address_of(k);
                        assert(s[0] == a@[0]);
                        assert(s[1] == a@[1]);
                        if s.len() > 2 {
                            assert(s[2] == a@[2]);
                        }
                        if s.len() > 3 {
                            assert(s[3] == a@[3]);
                        }
                    }
                }
            },
        }
    }
    r
}

/// The qubit index that an argument gives, if it gives one.
pub fn qubit_arg(a: OscArg) -> (r: Option<u32>)
    ensures
        r == qubit_of(a),
{
    match a {
        OscArg::Int(n) => if n >= 0 {
            Some(n as u32)
        } else {
            None
        },
        _ => None,
    }
}

impl Request {
    /// Reads one message as an instruction: the address picks the kind, and
    /// each argument must be a non-negative integer qubit index.
    pub fn try_from_message(m: &OscMessage) -> (r: Result<Request, ConvertError>)
        ensures
            r == spec_request(m.addr@, m.args@),
    {
        let kind = kind_of_address(&m.addr);
        match kind {
            None => Err(ConvertError::UnknownAddress),
            Some(k) => {
                let want: usize = if k == Kind::CX { 2 } else { 1 };
                if m.args.len() != want {
                    return Err(ConvertError::WrongArgCount);
                }
                let q0 = qubit_arg(m.args[0]);
                let q1 = if want == 2 { qubit_arg(m.args[1]) } else { Some(0u32) };
                match (q0, q1) {
                    (Some(a), Some(b)) => {
                        assert forall|i: int| 0 <= i < m.args@.len() implies qubit_of(
                            #[trigger] m.args@[i],
                        ) is Some by {
                            if i == 1 {
                                assert(want == 2);
                            }
                        }
                        let r = match k {
                            Kind::X => Request::X(a),
                            Kind::Y => Request::Y(a),
                            Kind::Z => Request::Z(a),
                            Kind::H => Request::H(a),
                            Kind::CX => Request::CX(a, b),
                            Kind::Mz => Request::Mz(a),
                            Kind::S => Request::Unhandled(UnhandledKind::S, a),
                            Kind::Sdg => Request::Unhandled(UnhandledKind::Sdg, a),
                            Kind::T => Request::Unhandled(UnhandledKind::T, a),
                            Kind::Tdg => Request::Unhandled(UnhandledKind::Tdg, a),
                        };
                        Ok(r)
                    },
                    (None, _) => {
                        assert(qubit_of(m.args@[0]) is None);
                        Err(ConvertError::BadQubit)
                    },
                    (_, None) => {
                        assert(qubit_of(m.args@[1]) is None);
                        Err(ConvertError::BadQubit)
                    },
                }
            },
        }
    }
}

impl Response {
    /// Writes a response as one protocol message: `Mz(bit)` goes out at the
    /// measurement address with the bit and a nil probability.
    pub fn to_message(&self) -> (m: OscMessage)
        ensures
            (m.addr@, m.args@) == spec_response_message(*self),
    {
        match *self {
            Response::Mz(bit) => {
                let m = OscMessage { addr: vec![47u8, 109u8, 122u8], args: vec![OscArg::Int(bit), OscArg::Nil] };
                assert(m.addr@ =~= address_of(Kind::Mz));
                assert(m.args@ =~= seq![OscArg::Int(bit), OscArg::Nil]);
                m
            },
        }
    }
}

} // verus!
