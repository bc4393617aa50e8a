//! Opcodes and errors of the service's wire protocol.
use vstd::prelude::*;

verus! {

/// Wire opcodes.
#[derive(Clone, Copy, PartialEq, Eq, Debug, Structural)]
pub enum Op {
    /// No-op / reserved opcode.
    Nop,
}

/// Wire errors.
#[derive(Clone, Copy, PartialEq, Eq, Debug, Structural)]
pub enum Error {
    /// The request named an opcode the server does not implement.
    InvalidOperation,
    /// Catch-all for an error the server could not classify.
    InternalError,
}

impl Op {
    /// The opcode's byte on the wire.
    pub open spec fn wire(self) -> u8 {
        match self {
            Op::Nop => 0x00,
        }
    }

    /// The opcode's byte on the wire.
    pub fn code(&self) -> (byte: u8)
        ensures
            byte == self.wire(),
    {
        match self {
            Op::Nop => 0x00,
        }
    }
}

impl Error {
    /// The error's byte on the wire.
    pub open spec fn wire(self) -> u8 {
        match self {
            Error::InvalidOperation => 0x01,
            Error::InternalError => 0xFF,
        }
    }

    /// The error's byte on the wire.
    pub fn code(&self) -> (byte: u8)
        ensures
            byte == self.wire(),
    {
        match self {
            Error::InvalidOperation => 0x01,
            Error::InternalError => 0xFF,
        }
    }
}

/// The opcode that a byte names, or [`Error::InvalidOperation`] where it
/// names none.
pub open spec fn decoded(value: u8) -> Result<Op, Error> {
    if value == 0x00 {
        Ok(Op::Nop)
    } else {
        Err(Error::InvalidOperation)
    }
}

impl TryFrom<u8> for Op {
    type Error = Error;

    fn try_from(value: u8) -> (op: Result<Self, Error>) {
        match value {
            0x00 => Ok(Op::Nop),
            _ => Err(Error::InvalidOperation),
        }
    }
}

impl vstd::std_specs::convert::TryFromSpecImpl<u8> for Op {
    open spec fn obeys_try_from_spec() -> bool {
        true
    }

    open spec fn try_from_spec(v: u8) -> Result<Self, Error> {
        decoded(v)
    }
}

/// Every opcode is decoded from its own wire byte, and a byte that decodes
/// is the wire byte of what it decodes to.
pub proof fn law_opcodes_round_trip(op: Op, value: u8)
    ensures
        decoded(op.wire()) == Ok::<Op, Error>(op),
        decoded(value) matches Ok(named) ==> named.wire() == value,
{
}

/// A byte decodes exactly when it is an opcode's, and every other one is an
/// invalid operation.
pub proof fn law_only_an_opcode_decodes(value: u8)
    ensures
        decoded(value) is Ok <==> exists|op: Op| #[trigger] op.wire() == value,
        decoded(value) matches Err(e) ==> e == Error::InvalidOperation,
{
    if decoded(value) is Ok {
        assert(Op::Nop.wire() == value);
    }
}

/// What an opcode is encoded as decodes to it, and errors are told apart by
/// their bytes.
pub proof fn law_codes_tell_apart(
    op: Op,
    byte: u8,
    decoded: Result<Op, Error>,
    left: Error,
    left_byte: u8,
    right: Error,
    right_byte: u8,
)
    requires
        call_ensures(Op::code, (&op,), byte),
        call_ensures(<Op as TryFrom<u8>>::try_from, (byte,), decoded),
        call_ensures(Error::code, (&left,), left_byte),
        call_ensures(Error::code, (&right,), right_byte),
    ensures
        decoded == Ok::<Op, Error>(op),
        left_byte == right_byte <==> left == right,
{
}

} // verus!
