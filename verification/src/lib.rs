//! Witness bookkeeping for a zero-knowledge EVM proof circuit.
//!
//! The crate models the per-instruction execution record ([`ExecStep`],
//! [`ExecState`]), the copy-event accounting that assigns a read/write-counter
//! position to every byte moved by a multi-byte copy instruction, and the
//! decomposition of a modular exponentiation into checkable multiplication
//! steps, together with the configuration values handed to an external
//! execution tracer.

pub mod copy;
pub mod error;
pub mod evm_types;
pub mod execution;
pub mod exp;
pub mod precompile;
pub mod tracer;

pub use copy::{CopyDataType, CopyDataTypeIter, CopyEvent, CopyStep, NumberOrHash};
pub use error::{ExecError, OogError};
pub use evm_types::{
    CallContext, Gas, GasCost, GethExecStep, Hash256, Memory, OpcodeId, OperationRef,
    ProgramCounter, RWCounter, Stack, Word,
};
pub use execution::{ExecState, ExecStep};
pub use exp::{ExpEvent, ExpStep};
pub use precompile::PrecompileCalls;
pub use tracer::{ChainConfig, LoggerConfig};
