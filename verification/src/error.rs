//! The semantic failures an instruction can record. These are data carried on
//! a step, not control-flow failures: trace construction goes on and records
//! them, and downstream logic classifies them.

use vstd::prelude::*;

verus! {

/// The operation class on whose account a step ran out of gas.
#[derive(Clone, Copy, Debug, PartialEq, Eq, Structural)]
pub enum OogError {
    /// The opcode's constant cost alone exceeded the gas left.
    Constant,
    /// A statically sized memory expansion.
    StaticMemoryExpansion,
    /// A dynamically sized memory expansion.
    DynamicMemoryExpansion,
    /// A memory-to-memory copy.
    MemoryCopy,
    /// An account access.
    AccountAccess,
    /// Storing the deployed code of a new contract.
    CodeStore,
    /// A call to another contract.
    Call,
    /// A call to a precompiled contract.
    Precompile,
    /// A contract creation.
    Create,
    /// A log emission.
    Log,
    /// An exponentiation.
    Exp,
    /// A hash computation.
    Sha3,
    /// A storage read or write.
    SloadSstore,
    /// A self-destruct.
    SelfDestruct,
}

/// An execution error recorded on one step.
#[derive(Clone, Copy, Debug, PartialEq, Eq, Structural)]
pub enum ExecError {
    /// The step ran out of gas; the payload says on which operation class.
    /// When the exhaustion was triggered by a 64-bit gas-counter overflow, the
    /// step's recorded gas cost is not guaranteed to be the true cost.
    OutOfGas(OogError),
    /// The operand stack would have grown past its maximum depth.
    StackOverflow,
    /// The instruction needed more operands than the stack held.
    StackUnderflow,
    /// A jump to a target that is not a valid jump destination.
    InvalidJump,
    /// A byte that names no defined opcode was executed.
    InvalidOpcode,
    /// A state-changing operation inside a static call.
    WriteProtection,
    /// The call depth limit was reached.
    Depth,
    /// The caller's balance did not cover the transferred value.
    InsufficientBalance,
    /// A contract was created at an address that already holds code.
    ContractAddressCollision,
    /// The deployed code of a new contract began with the forbidden byte.
    InvalidCreationCode,
    /// The deployed code of a new contract exceeded the size limit.
    MaxCodeSizeExceeded,
    /// A return-data read past the end of the returned data.
    ReturnDataOutOfBounds,
    /// The account's nonce cannot be incremented any further.
    NonceUintOverflow,
    /// A precompiled contract rejected its input.
    PrecompileFailed,
}

} // verus!
