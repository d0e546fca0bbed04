//! The per-instruction witness record: which state the machine was in, the
//! full machine snapshot, the running read/write counter, and the handles to
//! the primitive operations recorded while the step executed.

use vstd::prelude::*;
use crate::error::ExecError;
use crate::evm_types::{
    CallContext, Gas, GasCost, GethExecStep, OpcodeId, OperationRef, ProgramCounter, RWCounter,
};
use crate::precompile::PrecompileCalls;

verus! {

/// The state the machine was in while a step executed: an ordinary opcode, a
/// precompile call, or one of the three virtual bookkeeping states.
#[derive(Clone, Copy, Debug, PartialEq, Eq, Structural)]
pub enum ExecState {
    /// An ordinary opcode.
    Op(OpcodeId),
    /// A call into a precompiled contract.
    Precompile(PrecompileCalls),
    /// Virtual step that opens a transaction.
    BeginTx,
    /// Virtual step that closes a transaction.
    EndTx,
    /// Virtual step that closes the block.
    EndBlock,
}

impl ExecState {
    /// Whether this state is an opcode of the stack-push family.
    pub open spec fn spec_is_push(self) -> bool {
        match self {
            ExecState::Op(op) => op.spec_is_push(),
            _ => false,
        }
    }

    /// Returns `true` if the state is an opcode and the opcode is a `PUSHn`.
    pub fn is_push(&self) -> (r: bool)
        ensures
            r == self.spec_is_push(),
    {
        match self {
            ExecState::Op(op) => op.is_push(),
            _ => false,
        }
    }

    /// Whether this state is an opcode of the stack-duplicate family.
    pub open spec fn spec_is_dup(self) -> bool {
        match self {
            ExecState::Op(op) => op.spec_is_dup(),
            _ => false,
        }
    }

    /// Returns `true` if the state is an opcode and the opcode is a `DUPn`.
    pub fn is_dup(&self) -> (r: bool)
        ensures
            r == self.spec_is_dup(),
    {
        match self {
            ExecState::Op(op) => op.is_dup(),
            _ => false,
        }
    }

    /// Whether this state is an opcode of the stack-swap family.
    pub open spec fn spec_is_swap(self) -> bool {
        match self {
            ExecState::Op(op) => op.spec_is_swap(),
            _ => false,
        }
    }

    /// Returns `true` if the state is an opcode and the opcode is a `SWAPn`.
    pub fn is_swap(&self) -> (r: bool)
        ensures
            r == self.spec_is_swap(),
    {
        match self {
            ExecState::Op(op) => op.is_swap(),
            _ => false,
        }
    }

    /// Whether this state is an opcode of the log family.
    pub open spec fn spec_is_log(self) -> bool {
        match self {
            ExecState::Op(op) => op.spec_is_log(),
            _ => false,
        }
    }

    /// Returns `true` if the state is an opcode and the opcode is a `LOGn`.
    pub fn is_log(&self) -> (r: bool)
        ensures
            r == self.spec_is_log(),
    {
        match self {
            ExecState::Op(op) => op.is_log(),
            _ => false,
        }
    }
}

/// One execution step of the EVM: the witness record built for each executed
/// instruction or virtual step.
#[derive(Clone, Debug)]
pub struct ExecStep {
    /// Execution state.
    pub exec_state: ExecState,
    /// Program counter.
    pub pc: ProgramCounter,
    /// Stack size before the step executes.
    pub stack_size: usize,
    /// Memory size of the active call before the step executes.
    pub memory_size: usize,
    /// Gas left before the step executes.
    pub gas_left: Gas,
    /// Gas cost of the step. If the error is an out-of-gas caused by a 64-bit
    /// gas-counter overflow, this value is not the actual cost of the step.
    pub gas_cost: GasCost,
    /// Accumulated gas refund.
    pub gas_refund: Gas,
    /// Call index within the transaction.
    pub call_index: usize,
    /// The global read/write counter at the start of this step.
    pub rwc: RWCounter,
    /// Reversible write counter at the start of the step: how many writes of
    /// the call would have to be undone on a revert.
    pub reversible_write_counter: usize,
    /// Number of reversible write operations this step performs.
    pub reversible_write_counter_delta: usize,
    /// Log index when this step was executed.
    pub log_id: usize,
    /// Handles to the operations recorded in the external container while
    /// this step executed.
    pub bus_mapping_instance: Vec<OperationRef>,
    /// Number of read/write operations performed through a copy event in this
    /// step.
    pub copy_rw_counter_delta: u64,
    /// Error recorded on this step, if any.
    pub error: Option<ExecError>,
}

impl ExecStep {
    /// Build the witness record of one instruction from the raw tracer
    /// snapshot and the ambient call context, stamping the running counters.
    /// The operation handles and the copy delta start empty; the surrounding
    /// trace builder fills them as it records primitive operations.
    pub fn new(
        step: &GethExecStep,
        call_ctx: &CallContext,
        rwc: RWCounter,
        reversible_write_counter: usize,
        log_id: usize,
    ) -> (r: ExecStep)
        ensures
            r.exec_state == ExecState::Op(step.op),
            r.pc == step.pc,
            r.stack_size == step.stack.0@.len(),
            r.memory_size == call_ctx.memory.0@.len(),
            r.gas_left == step.gas,
            r.gas_cost == step.gas_cost,
            r.gas_refund == step.refund,
            r.call_index == call_ctx.index,
            r.rwc == rwc,
            r.reversible_write_counter == reversible_write_counter,
            r.reversible_write_counter_delta == 0,
            r.log_id == log_id,
            r.bus_mapping_instance@.len() == 0,
            r.copy_rw_counter_delta == 0,
            r.error is None,
    {
        ExecStep {
            exec_state: ExecState::Op(step.op),
            pc: step.pc,
            stack_size: step.stack.0.len(),
            memory_size: call_ctx.memory.0.len(),
            gas_left: step.gas,
            gas_cost: step.gas_cost,
            gas_refund: step.refund,
            call_index: call_ctx.index,
            rwc,
            reversible_write_counter,
            reversible_write_counter_delta: 0,
            log_id,
            bus_mapping_instance: Vec::new(),
            copy_rw_counter_delta: 0,
            error: None,
        }
    }

    /// Whether the recorded error is an out-of-gas kind, a stack overflow or
    /// a stack underflow.
    pub open spec fn spec_oog_or_stack_error(self) -> bool {
        match self.error {
            Some(e) => e is OutOfGas || e is StackOverflow || e is StackUnderflow,
            None => false,
        }
    }

    /// Returns `true` exactly when the recorded error is an out-of-gas kind,
    /// a stack overflow, or a stack underflow.
    pub fn oog_or_stack_error(&self) -> (r: bool)
        ensures
            r == self.spec_oog_or_stack_error(),
    {
        match &self.error {
            Some(ExecError::OutOfGas(_))
            | Some(ExecError::StackOverflow)
            | Some(ExecError::StackUnderflow) => true,
            _ => false,
        }
    }

    /// Whether the state tag marks a precompile call.
    pub open spec fn spec_is_precompiled(self) -> bool {
        self.exec_state is Precompile
    }

    /// Returns `true` exactly when this step executes a precompiled contract.
    pub fn is_precompiled(&self) -> (r: bool)
        ensures
            r == self.spec_is_precompiled(),
    {
        match &self.exec_state {
            ExecState::Precompile(_) => true,
            _ => false,
        }
    }
}

impl Default for ExecStep {
    /// The uninitialized placeholder step: the state is the explicit invalid
    /// opcode marker and every counter is zero.
    fn default() -> (r: Self)
        ensures
            r.exec_state == ExecState::Op(OpcodeId::Invalid(0)),
            r.pc == ProgramCounter(0),
            r.stack_size == 0,
            r.memory_size == 0,
            r.gas_left == Gas(0),
            r.gas_cost == GasCost(0),
            r.gas_refund == Gas(0),
            r.call_index == 0,
            r.rwc == RWCounter(0),
            r.reversible_write_counter == 0,
            r.reversible_write_counter_delta == 0,
            r.log_id == 0,
            r.bus_mapping_instance@.len() == 0,
            r.copy_rw_counter_delta == 0,
            r.error is None,
            !r.spec_oog_or_stack_error(),
            !r.spec_is_precompiled(),
    {
        ExecStep {
            exec_state: ExecState::Op(OpcodeId::Invalid(0)),
            pc: ProgramCounter(0),
            stack_size: 0,
            memory_size: 0,
            gas_left: Gas(0),
            gas_cost: GasCost(0),
            gas_refund: Gas(0),
            call_index: 0,
            rwc: RWCounter(0),
            reversible_write_counter: 0,
            reversible_write_counter_delta: 0,
            log_id: 0,
            bus_mapping_instance: Vec::new(),
            copy_rw_counter_delta: 0,
            error: None,
        }
    }
}

} // verus!
