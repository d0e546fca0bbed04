use bus_mapping::{
    CallContext, ExecError, ExecState, ExecStep, Gas, GasCost, GethExecStep, Memory, OogError,
    OpcodeId, PrecompileCalls, ProgramCounter, RWCounter, Stack, Word,
};

#[test]
fn default_step_is_the_invalid_placeholder() {
    let step = ExecStep::default();
    assert_eq!(step.exec_state, ExecState::Op(OpcodeId::Invalid(0)));
    assert_eq!(step.pc, ProgramCounter(0));
    assert_eq!(step.stack_size, 0);
    assert_eq!(step.memory_size, 0);
    assert_eq!(step.gas_left, Gas(0));
    assert_eq!(step.gas_cost, GasCost(0));
    assert_eq!(step.gas_refund, Gas(0));
    assert_eq!(step.call_index, 0);
    assert_eq!(step.rwc, RWCounter(0));
    assert_eq!(step.reversible_write_counter, 0);
    assert_eq!(step.reversible_write_counter_delta, 0);
    assert_eq!(step.log_id, 0);
    assert!(step.bus_mapping_instance.is_empty());
    assert_eq!(step.copy_rw_counter_delta, 0);
    assert!(step.error.is_none());
    assert!(!step.oog_or_stack_error());
    assert!(!step.is_precompiled());
}

#[test]
fn new_step_copies_the_snapshot_and_stamps_the_counters() {
    let raw = GethExecStep {
        op: OpcodeId::Code(0x60),
        pc: ProgramCounter(42),
        gas: Gas(100_000),
        gas_cost: GasCost(3),
        refund: Gas(7),
        stack: Stack(vec![Word::from_u64(1), Word::from_u64(2)]),
    };
    let ctx = CallContext {
        index: 3,
        memory: Memory(vec![0u8; 96]),
    };
    let step = ExecStep::new(&raw, &ctx, RWCounter(555), 11, 2);
    assert_eq!(step.exec_state, ExecState::Op(OpcodeId::Code(0x60)));
    assert_eq!(step.pc, ProgramCounter(42));
    assert_eq!(step.stack_size, 2);
    assert_eq!(step.memory_size, 96);
    assert_eq!(step.gas_left, Gas(100_000));
    assert_eq!(step.gas_cost, GasCost(3));
    assert_eq!(step.gas_refund, Gas(7));
    assert_eq!(step.call_index, 3);
    assert_eq!(step.rwc, RWCounter(555));
    assert_eq!(step.reversible_write_counter, 11);
    assert_eq!(step.reversible_write_counter_delta, 0);
    assert_eq!(step.log_id, 2);
    assert!(step.bus_mapping_instance.is_empty());
    assert_eq!(step.copy_rw_counter_delta, 0);
    assert!(step.error.is_none());
}

#[test]
fn oog_and_stack_errors_are_classified() {
    let mut step = ExecStep::default();
    step.error = Some(ExecError::OutOfGas(OogError::MemoryCopy));
    assert!(step.oog_or_stack_error());
    step.error = Some(ExecError::OutOfGas(OogError::Constant));
    assert!(step.oog_or_stack_error());
    step.error = Some(ExecError::StackOverflow);
    assert!(step.oog_or_stack_error());
    step.error = Some(ExecError::StackUnderflow);
    assert!(step.oog_or_stack_error());
    step.error = Some(ExecError::InvalidJump);
    assert!(!step.oog_or_stack_error());
    step.error = Some(ExecError::WriteProtection);
    assert!(!step.oog_or_stack_error());
    step.error = None;
    assert!(!step.oog_or_stack_error());
}

#[test]
fn precompile_steps_are_recognized() {
    let mut step = ExecStep::default();
    step.exec_state = ExecState::Precompile(PrecompileCalls::ECRecover);
    assert!(step.is_precompiled());
    step.exec_state = ExecState::BeginTx;
    assert!(!step.is_precompiled());
}

#[test]
fn opcode_families_are_classified_by_byte_range() {
    // PUSH1..=PUSH32
    assert!(ExecState::Op(OpcodeId::Code(0x60)).is_push());
    assert!(ExecState::Op(OpcodeId::Code(0x7f)).is_push());
    assert!(!ExecState::Op(OpcodeId::Code(0x5f)).is_push());
    assert!(!ExecState::Op(OpcodeId::Code(0x80)).is_push());
    // DUP1..=DUP16
    assert!(ExecState::Op(OpcodeId::Code(0x80)).is_dup());
    assert!(ExecState::Op(OpcodeId::Code(0x8f)).is_dup());
    assert!(!ExecState::Op(OpcodeId::Code(0x90)).is_dup());
    // SWAP1..=SWAP16
    assert!(ExecState::Op(OpcodeId::Code(0x90)).is_swap());
    assert!(ExecState::Op(OpcodeId::Code(0x9f)).is_swap());
    assert!(!ExecState::Op(OpcodeId::Code(0xa0)).is_swap());
    // LOG0..=LOG4
    assert!(ExecState::Op(OpcodeId::Code(0xa0)).is_log());
    assert!(ExecState::Op(OpcodeId::Code(0xa4)).is_log());
    assert!(!ExecState::Op(OpcodeId::Code(0xa5)).is_log());
}

#[test]
fn non_opcode_states_answer_false_to_all_families() {
    for state in [
        ExecState::BeginTx,
        ExecState::EndTx,
        ExecState::EndBlock,
        ExecState::Precompile(PrecompileCalls::Sha256),
        ExecState::Op(OpcodeId::Invalid(0x60)),
    ] {
        assert!(!state.is_push());
        assert!(!state.is_dup());
        assert!(!state.is_swap());
        assert!(!state.is_log());
    }
}
