//! Configuration values for the external execution tracer: what the step
//! logger captures, and which chain fork rules apply. The request that
//! carries them over the tracer boundary is assembled outside this crate.

use vstd::prelude::*;

verus! {

/// Options controlling what the external tracer captures with each step.
#[derive(Clone, Debug, PartialEq, Eq, Structural)]
pub struct LoggerConfig {
    /// Capture the call's memory with each step.
    pub enable_memory: bool,
    /// Suppress the stack capture.
    pub disable_stack: bool,
    /// Suppress the storage capture.
    pub disable_storage: bool,
    /// Capture the returned data with each call.
    pub enable_return_data: bool,
}

impl Default for LoggerConfig {
    /// The tracer's stock capture set: stack, storage and return data on,
    /// memory off.
    fn default() -> (r: Self)
        ensures
            r.enable_memory == false,
            r.disable_stack == false,
            r.disable_storage == false,
            r.enable_return_data == true,
    {
        LoggerConfig {
            enable_memory: false,
            disable_stack: false,
            disable_storage: false,
            enable_return_data: true,
        }
    }
}

impl LoggerConfig {
    /// The stock capture set with the memory capture switched on as well.
    pub fn enable_memory() -> (r: Self)
        ensures
            r.enable_memory == true,
            r.disable_stack == false,
            r.disable_storage == false,
            r.enable_return_data == true,
    {
        LoggerConfig {
            enable_memory: true,
            ..Self::default()
        }
    }
}

/// The chain-fork configuration handed to the external tracer.
#[derive(Clone, Debug, PartialEq, Eq)]
pub struct ChainConfig {
    /// Shanghai fork switch time: absent means no fork, zero means the chain
    /// is already on Shanghai.
    pub shanghai_time: Option<u64>,
    /// The total difficulty at which the network switches consensus.
    pub terminal_total_difficulty: Option<u64>,
    /// Whether the network has already passed the terminal total difficulty;
    /// set to disable legacy sync even where the terminal value was never
    /// observed locally.
    pub terminal_total_difficulty_passed: bool,
}

impl Default for ChainConfig {
    /// No fork configuration: both switch values absent.
    fn default() -> (r: Self)
        ensures
            r.shanghai_time is None,
            r.terminal_total_difficulty is None,
            r.terminal_total_difficulty_passed == false,
    {
        ChainConfig {
            shanghai_time: None,
            terminal_total_difficulty: None,
            terminal_total_difficulty_passed: false,
        }
    }
}

impl ChainConfig {
    /// The configuration of a chain already on the Shanghai fork.
    pub fn shanghai() -> (r: Self)
        ensures
            r.shanghai_time == Some(0u64),
            r.terminal_total_difficulty == Some(0u64),
            r.terminal_total_difficulty_passed == true,
    {
        ChainConfig {
            shanghai_time: Some(0),
            terminal_total_difficulty: Some(0),
            terminal_total_difficulty_passed: true,
        }
    }
}

} // verus!
