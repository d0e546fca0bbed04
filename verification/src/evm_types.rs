//! Plain-value models of the machine-level quantities the witness records:
//! 256-bit words, hashes, gas amounts, program counters, the global
//! read/write counter, opcode identifiers, and the raw per-instruction
//! snapshot handed in by the execution tracer.

use vstd::prelude::*;
use vstd::arithmetic::power2::pow2;

verus! {

/// An unsigned 256-bit word, kept as two 128-bit halves.
///
/// `lo` holds the least-significant 128 bits and `hi` the most-significant
/// 128 bits, so the word's value is `lo + hi * 2^128`.
#[derive(Clone, Copy, Debug, PartialEq, Eq)]
pub struct Word {
    /// Least-significant 128 bits.
    pub lo: u128,
    /// Most-significant 128 bits.
    pub hi: u128,
}

impl Word {
    /// The numeric value of the word.
    pub open spec fn as_nat(self) -> nat {
        (self.lo + self.hi * pow2(128)) as nat
    }

    /// Build a word from a 64-bit value.
    pub fn from_u64(v: u64) -> (r: Word)
        ensures
            r.lo == v,
            r.hi == 0,
            r.as_nat() == v,
    {
        Word { lo: v as u128, hi: 0 }
    }

    /// The all-zero word.
    pub fn zero() -> (r: Word)
        ensures
            r.as_nat() == 0,
    {
        Word { lo: 0, hi: 0 }
    }
}

/// A 256-bit hash value, as 32 raw bytes.
#[derive(Clone, Copy, Debug, PartialEq, Eq)]
pub struct Hash256 {
    /// The bytes of the hash, most-significant first.
    pub bytes: [u8; 32],
}

/// Amount of gas, either remaining or refunded.
#[derive(Clone, Copy, Debug, PartialEq, Eq, Structural)]
pub struct Gas(pub u64);

/// Gas charged for one step.
#[derive(Clone, Copy, Debug, PartialEq, Eq, Structural)]
pub struct GasCost(pub u64);

/// Position of an instruction inside the executed code.
#[derive(Clone, Copy, Debug, PartialEq, Eq, Structural)]
pub struct ProgramCounter(pub usize);

/// Global read/write counter: the monotonic position assigned to each
/// primitive read or write operation across a whole trace.
#[derive(Clone, Copy, Debug, PartialEq, Eq, Structural)]
pub struct RWCounter(pub usize);

/// Opaque handle to one recorded operation in the external operation
/// container. The core only appends such handles; it never resolves them.
#[derive(Clone, Copy, Debug, PartialEq, Eq, Structural)]
pub struct OperationRef(pub usize);

/// An EVM opcode identifier: either the byte of a defined opcode, or a byte
/// that does not name any opcode.
#[derive(Clone, Copy, Debug, PartialEq, Eq, Structural)]
pub enum OpcodeId {
    /// A defined opcode, by its byte value.
    Code(u8),
    /// A byte that is not a defined opcode.
    Invalid(u8),
}

impl OpcodeId {
    /// Whether this is one of the stack-push opcodes `PUSH1` (byte 0x60)
    /// through `PUSH32` (byte 0x7f).
    pub open spec fn spec_is_push(self) -> bool {
        self matches OpcodeId::Code(b) && 0x60 <= b <= 0x7f
    }

    /// Returns `true` exactly for the opcodes `PUSH1` through `PUSH32`.
    pub fn is_push(&self) -> (r: bool)
        ensures
            r == self.spec_is_push(),
    {
        match self {
            OpcodeId::Code(b) => 0x60 <= *b && *b <= 0x7f,
            OpcodeId::Invalid(_) => false,
        }
    }

    /// Whether this is one of the stack-duplicate opcodes `DUP1` (byte 0x80)
    /// through `DUP16` (byte 0x8f).
    pub open spec fn spec_is_dup(self) -> bool {
        self matches OpcodeId::Code(b) && 0x80 <= b <= 0x8f
    }

    /// Returns `true` exactly for the opcodes `DUP1` through `DUP16`.
    pub fn is_dup(&self) -> (r: bool)
        ensures
            r == self.spec_is_dup(),
    {
        match self {
            OpcodeId::Code(b) => 0x80 <= *b && *b <= 0x8f,
            OpcodeId::Invalid(_) => false,
        }
    }

    /// Whether this is one of the stack-swap opcodes `SWAP1` (byte 0x90)
    /// through `SWAP16` (byte 0x9f).
    pub open spec fn spec_is_swap(self) -> bool {
        self matches OpcodeId::Code(b) && 0x90 <= b <= 0x9f
    }

    /// Returns `true` exactly for the opcodes `SWAP1` through `SWAP16`.
    pub fn is_swap(&self) -> (r: bool)
        ensures
            r == self.spec_is_swap(),
    {
        match self {
            OpcodeId::Code(b) => 0x90 <= *b && *b <= 0x9f,
            OpcodeId::Invalid(_) => false,
        }
    }

    /// Whether this is one of the log opcodes `LOG0` (byte 0xa0) through
    /// `LOG4` (byte 0xa4).
    pub open spec fn spec_is_log(self) -> bool {
        self matches OpcodeId::Code(b) && 0xa0 <= b <= 0xa4
    }

    /// Returns `true` exactly for the opcodes `LOG0` through `LOG4`.
    pub fn is_log(&self) -> (r: bool)
        ensures
            r == self.spec_is_log(),
    {
        match self {
            OpcodeId::Code(b) => 0xa0 <= *b && *b <= 0xa4,
            OpcodeId::Invalid(_) => false,
        }
    }
}

/// The operand stack captured with a raw step: the words on the stack,
/// bottom first.
#[derive(Clone, Debug, PartialEq, Eq)]
pub struct Stack(pub Vec<Word>);

/// The active call's memory, one byte per addressed cell.
#[derive(Clone, Debug, PartialEq, Eq)]
pub struct Memory(pub Vec<u8>);

/// One raw per-instruction snapshot as the external tracer reports it:
/// everything the witness record copies verbatim from the trace.
#[derive(Clone, Debug)]
pub struct GethExecStep {
    /// The opcode executed at this step.
    pub op: OpcodeId,
    /// Program counter of this step.
    pub pc: ProgramCounter,
    /// Gas remaining before the step executes.
    pub gas: Gas,
    /// Gas the step is charged.
    pub gas_cost: GasCost,
    /// Accumulated gas refund after the step.
    pub refund: Gas,
    /// The operand stack before the step executes.
    pub stack: Stack,
}

/// The ambient call-frame context a step is built against.
#[derive(Clone, Debug)]
pub struct CallContext {
    /// Index of this call within its transaction.
    pub index: usize,
    /// The call's memory at this point of execution.
    pub memory: Memory,
}

} // verus!
