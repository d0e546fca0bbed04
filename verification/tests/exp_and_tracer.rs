use bus_mapping::{
    ChainConfig, CopyStep, ExpEvent, ExpStep, Hash256, LoggerConfig, NumberOrHash, Word,
};

#[test]
fn default_exp_event_is_the_two_squared_fixture() {
    let ev = ExpEvent::default();
    assert_eq!(ev.identifier, 0);
    assert_eq!(ev.base, Word::from_u64(2));
    assert_eq!(ev.exponent, Word::from_u64(2));
    assert_eq!(ev.exponentiation, Word::from_u64(4));
    assert_eq!(ev.steps.len(), 1);
    let step = &ev.steps[0];
    assert_eq!(step.a, Word::from_u64(2));
    assert_eq!(step.b, Word::from_u64(2));
    assert_eq!(step.d, Word::from_u64(4));
    // The step's relation d == a * b (mod 2^256) on these small values, and
    // the event's relation result == base ^ exponent (mod 2^256).
    assert_eq!(step.a.lo * step.b.lo, step.d.lo);
    assert_eq!(step.a.hi, 0);
    assert_eq!(step.b.hi, 0);
    assert_eq!(step.d.hi, 0);
    assert_eq!(ev.base.lo.pow(ev.exponent.lo as u32), ev.exponentiation.lo);
}

#[test]
fn exp_step_from_triple_keeps_the_operands_in_order() {
    let a = Word::from_u64(3);
    let b = Word::from_u64(5);
    let d = Word::from_u64(15);
    let step = ExpStep::from((a, b, d));
    assert_eq!(step.a, a);
    assert_eq!(step.b, b);
    assert_eq!(step.d, d);
}

#[test]
fn word_halves_compose_the_value() {
    let w = Word::from_u64(77);
    assert_eq!(w.lo, 77);
    assert_eq!(w.hi, 0);
    assert_eq!(Word::zero(), Word { lo: 0, hi: 0 });
}

#[test]
fn logger_config_defaults_capture_stack_storage_and_return_data() {
    let cfg = LoggerConfig::default();
    assert!(!cfg.enable_memory);
    assert!(!cfg.disable_stack);
    assert!(!cfg.disable_storage);
    assert!(cfg.enable_return_data);
}

#[test]
fn logger_config_enable_memory_only_flips_the_memory_flag() {
    let cfg = LoggerConfig::enable_memory();
    assert!(cfg.enable_memory);
    assert!(!cfg.disable_stack);
    assert!(!cfg.disable_storage);
    assert!(cfg.enable_return_data);
}

#[test]
fn chain_config_default_has_no_fork() {
    let cfg = ChainConfig::default();
    assert_eq!(cfg.shanghai_time, None);
    assert_eq!(cfg.terminal_total_difficulty, None);
    assert!(!cfg.terminal_total_difficulty_passed);
}

#[test]
fn chain_config_shanghai_switches_at_time_zero() {
    let cfg = ChainConfig::shanghai();
    assert_eq!(cfg.shanghai_time, Some(0));
    assert_eq!(cfg.terminal_total_difficulty, Some(0));
    assert!(cfg.terminal_total_difficulty_passed);
}

#[test]
fn copy_step_and_ids_hold_their_values() {
    let step = CopyStep {
        value: 0x5b,
        is_code: Some(true),
    };
    assert_eq!(step.value, 0x5b);
    assert_eq!(step.is_code, Some(true));

    let id = NumberOrHash::Number(7);
    assert_eq!(id, NumberOrHash::Number(7));
    assert_ne!(id, NumberOrHash::Number(8));
    let hash = NumberOrHash::Hash(Hash256 { bytes: [0xab; 32] });
    assert_ne!(id, hash);
    assert_eq!(hash, NumberOrHash::Hash(Hash256 { bytes: [0xab; 32] }));
}
