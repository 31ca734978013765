//! The binary instruction format: one opcode byte, then a little-endian
//! unsigned payload whose width depends on the counter variant.

use vstd::prelude::*;
use crate::bytes::{le_bytes, le_value, lemma_le_bytes_len, lemma_le_bytes_of_value,
    lemma_le_value_bound, lemma_le_value_of_bytes, pow256, read_le, write_le};
use crate::error::EngineError;

verus! {

pub const OP_INCREMENT: u8 = 0;
pub const OP_DECREMENT: u8 = 1;
pub const OP_UPDATE: u8 = 2;
pub const OP_RESET: u8 = 3;

/// Payload width of the unvalidated counter's instructions.
pub const NARROW_WIDTH: usize = 4;
/// Payload width of the validated counter's instructions.
pub const WIDE_WIDTH: usize = 8;

/// `b` is an opcode byte followed by exactly the payload that opcode takes:
/// `width` bytes for Increment, Decrement and Update, none for Reset.
pub open spec fn well_framed(b: Seq<u8>, width: nat) -> bool {
    &&& b.len() > 0
    &&& b[0] <= OP_RESET
    &&& b.len() == if b[0] == OP_RESET { 1 } else { 1 + width }
}

/// The integer carried after the opcode byte.
pub open spec fn payload_value(b: Seq<u8>) -> nat {
    le_value(b.drop_first())
}

/// The bytes of an instruction with the given opcode and amount.
pub open spec fn frame(opcode: u8, amount: nat, width: nat) -> Seq<u8> {
    seq![opcode] + if opcode == OP_RESET { Seq::empty() } else { le_bytes(amount, width) }
}

/// Splits a well-framed instruction into its opcode and payload value.
pub fn split_frame(input: &[u8], width: usize) -> (r: Result<(u8, u64), EngineError>)
    requires
        width <= 8,
    ensures
        r == if well_framed(input@, width as nat) {
            Ok((input@[0], payload_value(input@) as u64))
        } else {
            Err(EngineError::MalformedInstruction)
        },
{
    let len: usize = input.len();
    if len == 0 {
        return Err(EngineError::MalformedInstruction);
    }
    let opcode: u8 = input[0];
    if opcode > OP_RESET {
        return Err(EngineError::MalformedInstruction);
    }
    let expected: usize = if opcode == OP_RESET { 1 } else { 1 + width };
    if len != expected {
        return Err(EngineError::MalformedInstruction);
    }
    let value = read_le(input, 1, len - 1);
    assert(input@.subrange(1, len as int) =~= input@.drop_first());
    Ok((opcode, value))
}

/// Writes an opcode and, except for Reset, a `width`-byte payload.
pub fn write_frame(opcode: u8, amount: u64, width: usize) -> (r: Vec<u8>)
    requires
        width <= 8,
    ensures
        r@ == frame(opcode, amount as nat, width as nat),
{
    let mut out: Vec<u8> = Vec::new();
    out.push(opcode);
    if opcode != OP_RESET {
        write_le(amount, width, &mut out);
    }
    assert(out@ =~= frame(opcode, amount as nat, width as nat));
    out
}

/// Decoding a frame written from a value that fits the width gives that value back.
pub proof fn lemma_frame_round_trip(opcode: u8, amount: nat, width: nat)
    requires
        opcode <= OP_RESET,
        opcode == OP_RESET ==> amount == 0,
        amount < pow256(width),
    ensures
        well_framed(frame(opcode, amount, width), width),
        frame(opcode, amount, width)[0] == opcode,
        payload_value(frame(opcode, amount, width)) == amount,
{
    let b = frame(opcode, amount, width);
    if opcode != OP_RESET {
        lemma_le_bytes_len(amount, width);
        lemma_le_value_of_bytes(amount, width);
        assert(b.drop_first() =~= le_bytes(amount, width));
    } else {
        assert(b.drop_first() =~= Seq::<u8>::empty());
    }
}

/// A well-framed instruction is the frame of its own opcode and payload.
pub proof fn lemma_frame_of_parts(b: Seq<u8>, width: nat)
    requires
        well_framed(b, width),
    ensures
        b == frame(b[0], payload_value(b), width),
        b[0] != OP_RESET ==> payload_value(b) < pow256(width),
        b[0] == OP_RESET ==> payload_value(b) == 0,
{
    lemma_le_value_bound(b.drop_first());
    if b[0] != OP_RESET {
        lemma_le_bytes_of_value(b.drop_first());
    } else {
        assert(b.drop_first() =~= Seq::<u8>::empty());
    }
    assert(b =~= frame(b[0], payload_value(b), width));
}

/// The argument of a counter instruction of the unvalidated variant.
#[derive(Debug, Clone, Copy, PartialEq, Eq, Structural)]
pub struct UpdateArgs {
    pub value: u32,
}

/// An instruction of the unvalidated counter, with a 4-byte payload.
#[derive(Debug, Clone, Copy, PartialEq, Eq, Structural)]
pub enum CounterInstructions {
    Increment(UpdateArgs),
    Decrement(UpdateArgs),
    Update(UpdateArgs),
    Reset,
}

/// An instruction of the validated counter, with an 8-byte payload.
#[derive(Debug, Clone, Copy, PartialEq, Eq, Structural)]
pub enum CounterCommand {
    Increment(u64),
    Decrement(u64),
    Update(u64),
    Reset,
}

impl CounterCommand {
    pub open spec fn opcode(self) -> u8 {
        match self {
            CounterCommand::Increment(_) => OP_INCREMENT,
            CounterCommand::Decrement(_) => OP_DECREMENT,
            CounterCommand::Update(_) => OP_UPDATE,
            CounterCommand::Reset => OP_RESET,
        }
    }

    pub open spec fn amount(self) -> u64 {
        match self {
            CounterCommand::Increment(n) => n,
            CounterCommand::Decrement(n) => n,
            CounterCommand::Update(n) => n,
            CounterCommand::Reset => 0,
        }
    }

    /// The command with the given opcode and amount.
    pub open spec fn from_parts(opcode: u8, amount: u64) -> CounterCommand {
        if opcode == OP_INCREMENT {
            CounterCommand::Increment(amount)
        } else if opcode == OP_DECREMENT {
            CounterCommand::Decrement(amount)
        } else if opcode == OP_UPDATE {
            CounterCommand::Update(amount)
        } else {
            CounterCommand::Reset
        }
    }

    /// The command that `b` encodes, if any.
    pub open spec fn decode(b: Seq<u8>) -> Option<CounterCommand> {
        if well_framed(b, WIDE_WIDTH as nat) {
            Some(CounterCommand::from_parts(b[0], payload_value(b) as u64))
        } else {
            None
        }
    }

    /// The bytes of this command.
    pub open spec fn encode(self) -> Seq<u8> {
        frame(self.opcode(), self.amount() as nat, WIDE_WIDTH as nat)
    }

    /// Decodes instruction bytes of the validated variant.
    pub fn unpack(input: &[u8]) -> (r: Result<CounterCommand, EngineError>)
        ensures
            r == match CounterCommand::decode(input@) {
                Some(c) => Ok(c),
                None => Err(EngineError::MalformedInstruction),
            },
    {
        let (opcode, amount) = split_frame(input, WIDE_WIDTH)?;
        let c = if opcode == OP_INCREMENT {
            CounterCommand::Increment(amount)
        } else if opcode == OP_DECREMENT {
            CounterCommand::Decrement(amount)
        } else if opcode == OP_UPDATE {
            CounterCommand::Update(amount)
        } else {
            CounterCommand::Reset
        };
        Ok(c)
    }

    /// Encodes this command.
    pub fn pack(&self) -> (r: Vec<u8>)
        ensures
            r@ == self.encode(),
    {
        match *self {
            CounterCommand::Increment(n) => write_frame(OP_INCREMENT, n, WIDE_WIDTH),
            CounterCommand::Decrement(n) => write_frame(OP_DECREMENT, n, WIDE_WIDTH),
            CounterCommand::Update(n) => write_frame(OP_UPDATE, n, WIDE_WIDTH),
            CounterCommand::Reset => write_frame(OP_RESET, 0, WIDE_WIDTH),
        }
    }
}

impl CounterInstructions {
    pub open spec fn opcode(self) -> u8 {
        match self {
            CounterInstructions::Increment(_) => OP_INCREMENT,
            CounterInstructions::Decrement(_) => OP_DECREMENT,
            CounterInstructions::Update(_) => OP_UPDATE,
            CounterInstructions::Reset => OP_RESET,
        }
    }

    pub open spec fn amount(self) -> u32 {
        match self {
            CounterInstructions::Increment(a) => a.value,
            CounterInstructions::Decrement(a) => a.value,
            CounterInstructions::Update(a) => a.value,
            CounterInstructions::Reset => 0,
        }
    }

    /// The instruction with the given opcode and amount.
    pub open spec fn from_parts(opcode: u8, amount: u32) -> CounterInstructions {
        let a = UpdateArgs { value: amount };
        if opcode == OP_INCREMENT {
            CounterInstructions::Increment(a)
        } else if opcode == OP_DECREMENT {
            CounterInstructions::Decrement(a)
        } else if opcode == OP_UPDATE {
            CounterInstructions::Update(a)
        } else {
            CounterInstructions::Reset
        }
    }

    /// The instruction that `b` encodes, if any.
    pub open spec fn decode(b: Seq<u8>) -> Option<CounterInstructions> {
        if well_framed(b, NARROW_WIDTH as nat) {
            Some(CounterInstructions::from_parts(b[0], payload_value(b) as u32))
        } else {
            None
        }
    }

    /// The bytes of this instruction.
    pub open spec fn encode(self) -> Seq<u8> {
        frame(self.opcode(), self.amount() as nat, NARROW_WIDTH as nat)
    }

    /// The same instruction with its amount widened to 64 bits.
    pub open spec fn widen(self) -> CounterCommand {
        CounterCommand::from_parts(self.opcode(), self.amount() as u64)
    }

    /// Decodes instruction bytes of the unvalidated variant.
    pub fn unpack(input: &[u8]) -> (r: Result<CounterInstructions, EngineError>)
        ensures
            r == match CounterInstructions::decode(input@) {
                Some(i) => Ok(i),
                None => Err(EngineError::MalformedInstruction),
            },
    {
        let (opcode, amount) = split_frame(input, NARROW_WIDTH)?;
        proof {
            lemma_frame_of_parts(input@, NARROW_WIDTH as nat);
            reveal_with_fuel(pow256, 5);
        }
        let a = UpdateArgs { value: amount as u32 };
        let i = if opcode == OP_INCREMENT {
            CounterInstructions::Increment(a)
        } else if opcode == OP_DECREMENT {
            CounterInstructions::Decrement(a)
        } else if opcode == OP_UPDATE {
            CounterInstructions::Update(a)
        } else {
            CounterInstructions::Reset
        };
        Ok(i)
    }

    /// Encodes this instruction.
    pub fn pack(&self) -> (r: Vec<u8>)
        ensures
            r@ == self.encode(),
    {
        match *self {
            CounterInstructions::Increment(a) => write_frame(OP_INCREMENT, a.value as u64, NARROW_WIDTH),
            CounterInstructions::Decrement(a) => write_frame(OP_DECREMENT, a.value as u64, NARROW_WIDTH),
            CounterInstructions::Update(a) => write_frame(OP_UPDATE, a.value as u64, NARROW_WIDTH),
            CounterInstructions::Reset => write_frame(OP_RESET, 0, NARROW_WIDTH),
        }
    }

    /// This instruction as a command of the validated variant.
    pub fn widened(&self) -> (r: CounterCommand)
        ensures
            r == self.widen(),
    {
        match *self {
            CounterInstructions::Increment(a) => CounterCommand::Increment(a.value as u64),
            CounterInstructions::Decrement(a) => CounterCommand::Decrement(a.value as u64),
            CounterInstructions::Update(a) => CounterCommand::Update(a.value as u64),
            CounterInstructions::Reset => CounterCommand::Reset,
        }
    }
}

/// Decoding the encoding of an instruction of the unvalidated variant gives it back.
pub proof fn lemma_round_trip(i: CounterInstructions)
    ensures
        CounterInstructions::decode(i.encode()) == Some(i),
{
    reveal_with_fuel(pow256, 5);
    lemma_frame_round_trip(i.opcode(), i.amount() as nat, NARROW_WIDTH as nat);
}

/// Decoding the encoding of a command of the validated variant gives it back.
pub proof fn lemma_command_round_trip(c: CounterCommand)
    ensures
        CounterCommand::decode(c.encode()) == Some(c),
{
    reveal_with_fuel(pow256, 9);
    lemma_frame_round_trip(c.opcode(), c.amount() as nat, WIDE_WIDTH as nat);
}

/// Every byte string that decodes is the encoding of what it decodes to.
pub proof fn lemma_decode_canonical(b: Seq<u8>)
    requires
        CounterInstructions::decode(b) is Some,
    ensures
        CounterInstructions::decode(b).unwrap().encode() == b,
{
    reveal_with_fuel(pow256, 5);
    lemma_frame_of_parts(b, NARROW_WIDTH as nat);
}

} // verus!
