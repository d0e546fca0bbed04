//! The copy-event model: the kinds of address space a copy endpoint can
//! reference, their stable bidirectional enumeration and dense numeric
//! coding, and the read/write-counter accounting that the proof circuit's
//! constraints must match exactly.

use vstd::prelude::*;
use vstd::arithmetic::div_mod::{
    lemma_div_is_ordered, lemma_fundamental_div_mod, lemma_fundamental_div_mod_converse_div,
};
use vstd::math::min;
use vstd::pervasive::unreached;
use crate::evm_types::{Hash256, RWCounter};
use crate::precompile::{
    lemma_precompile_at_code, lemma_precompile_code_round_trip, precompile_at, PrecompileCalls,
    NUM_PRECOMPILE_CALLS,
};

verus! {

/// The kinds of address space a copy event's source or destination can
/// reference.
#[derive(Clone, Copy, Debug, PartialEq, Eq, Structural)]
pub enum CopyDataType {
    /// Rows that pad the copy table up to a fixed size and carry no data.
    Padding,
    /// The bytecode table: code of a deployed or deploying contract.
    Bytecode,
    /// The active call's memory.
    Memory,
    /// A transaction's call data.
    TxCalldata,
    /// A transaction's log.
    TxLog,
    /// A running-value accumulator rather than addressable memory: the rows
    /// accumulate a randomized linear combination of the copied bytes, used
    /// for hash-preimage absorption.
    RlcAcc,
    /// The input of a call to a precompiled contract.
    Precompile(PrecompileCalls),
}

/// How many concrete `CopyDataType` variants there are: the six fixed ones
/// plus one per precompiled contract.
pub const NUM_COPY_DATA_TYPES: usize = 15;

/// The variant with enumeration index `i`: the six fixed variants in
/// declaration order, then the precompile variants in their canonical order.
/// The enumeration index coincides with the variant's numeric code.
pub open spec fn variant_at(i: int) -> CopyDataType {
    if i == 0 {
        CopyDataType::Padding
    } else if i == 1 {
        CopyDataType::Bytecode
    } else if i == 2 {
        CopyDataType::Memory
    } else if i == 3 {
        CopyDataType::TxCalldata
    } else if i == 4 {
        CopyDataType::TxLog
    } else if i == 5 {
        CopyDataType::RlcAcc
    } else {
        CopyDataType::Precompile(precompile_at(i - 6))
    }
}

/// The full enumeration of `CopyDataType`, in the stable total order the
/// circuit's fixed tables iterate.
pub open spec fn enumeration() -> Seq<CopyDataType> {
    Seq::new(NUM_COPY_DATA_TYPES as nat, |i: int| variant_at(i))
}

impl CopyDataType {
    /// The dense numeric code consumed by the circuit's lookup tables: the
    /// fixed variants get 0 through 5 in declaration order, and a precompile
    /// variant gets 5 plus the precompile's own code.
    pub open spec fn spec_code(self) -> int {
        match self {
            CopyDataType::Padding => 0,
            CopyDataType::Bytecode => 1,
            CopyDataType::Memory => 2,
            CopyDataType::TxCalldata => 3,
            CopyDataType::TxLog => 4,
            CopyDataType::RlcAcc => 5,
            CopyDataType::Precompile(p) => 5 + p.spec_code(),
        }
    }

    /// The variants that represent a precompile call, in enumeration order.
    pub fn precompile_types() -> (r: Vec<CopyDataType>)
        ensures
            r@.len() == NUM_PRECOMPILE_CALLS,
            forall|i: int| 0 <= i < r@.len() ==> r@[i] == variant_at(6 + i),
    {
        let mut types: Vec<CopyDataType> = Vec::new();
        types.push(CopyDataType::Precompile(PrecompileCalls::ECRecover));
        types.push(CopyDataType::Precompile(PrecompileCalls::Sha256));
        types.push(CopyDataType::Precompile(PrecompileCalls::Ripemd160));
        types.push(CopyDataType::Precompile(PrecompileCalls::Identity));
        types.push(CopyDataType::Precompile(PrecompileCalls::Modexp));
        types.push(CopyDataType::Precompile(PrecompileCalls::Bn128Add));
        types.push(CopyDataType::Precompile(PrecompileCalls::Bn128Mul));
        types.push(CopyDataType::Precompile(PrecompileCalls::Bn128Pairing));
        types.push(CopyDataType::Precompile(PrecompileCalls::Blake2F));
        types
    }

    /// Begin a fresh double-ended traversal of the enumeration.
    pub fn iter() -> (r: CopyDataTypeIter)
        ensures
            r.idx == 0,
            r.back_idx == 0,
    {
        CopyDataTypeIter { idx: 0, back_idx: 0 }
    }
}

impl From<CopyDataType> for usize {
    /// The variant's dense numeric code as a machine integer.
    fn from(t: CopyDataType) -> (r: usize)
        ensures
            r == t.spec_code(),
    {
        match t {
            CopyDataType::Padding => 0,
            CopyDataType::Bytecode => 1,
            CopyDataType::Memory => 2,
            CopyDataType::TxCalldata => 3,
            CopyDataType::TxLog => 4,
            CopyDataType::RlcAcc => 5,
            CopyDataType::Precompile(p) => {
                proof {
                    lemma_precompile_code_round_trip(p);
                }
                5 + p.as_usize()
            },
        }
    }
}

impl vstd::std_specs::convert::FromSpecImpl<CopyDataType> for usize {
    open spec fn obeys_from_spec() -> bool {
        true
    }

    open spec fn from_spec(t: CopyDataType) -> usize {
        t.spec_code() as usize
    }
}

impl From<&CopyDataType> for u64 {
    /// The variant's dense numeric code as a field-element-compatible value.
    fn from(t: &CopyDataType) -> (r: u64)
        ensures
            r == t.spec_code(),
    {
        match t {
            CopyDataType::Padding => 0,
            CopyDataType::Bytecode => 1,
            CopyDataType::Memory => 2,
            CopyDataType::TxCalldata => 3,
            CopyDataType::TxLog => 4,
            CopyDataType::RlcAcc => 5,
            CopyDataType::Precompile(p) => {
                proof {
                    lemma_precompile_code_round_trip(*p);
                }
                5 + p.as_u64()
            },
        }
    }
}

impl vstd::std_specs::convert::FromSpecImpl<&CopyDataType> for u64 {
    open spec fn obeys_from_spec() -> bool {
        true
    }

    open spec fn from_spec(t: &CopyDataType) -> u64 {
        t.spec_code() as u64
    }
}

impl Default for CopyDataType {
    /// Memory is the default endpoint kind, chosen for ergonomic
    /// construction, not semantic primacy.
    fn default() -> (r: Self)
        ensures
            r == CopyDataType::Memory,
    {
        CopyDataType::Memory
    }
}

/// Law: every variant's code points back to the variant itself in the
/// enumeration, and the code is in range. This is the round trip
/// `get(code(v)) == Some(v)`.
pub proof fn lemma_code_round_trip(v: CopyDataType)
    ensures
        0 <= v.spec_code() < NUM_COPY_DATA_TYPES,
        variant_at(v.spec_code()) == v,
{
    match v {
        CopyDataType::Precompile(p) => lemma_precompile_code_round_trip(p),
        _ => (),
    }
}

/// Law: the numeric coding is injective — two variants with the same code
/// are the same variant.
pub proof fn lemma_code_injective(x: CopyDataType, y: CopyDataType)
    requires
        x.spec_code() == y.spec_code(),
    ensures
        x == y,
{
    lemma_code_round_trip(x);
    lemma_code_round_trip(y);
}

/// The variant at enumeration index `i` has code `i`: the enumeration order
/// and the numeric coding are defined once and never drift apart.
pub proof fn lemma_variant_at_code(i: int)
    requires
        0 <= i < NUM_COPY_DATA_TYPES,
    ensures
        variant_at(i).spec_code() == i,
{
    if i >= 6 {
        lemma_precompile_at_code(i - 6);
    }
}

/// Law: the enumeration holds exactly `6 + NUM_PRECOMPILE_CALLS` values, all
/// distinct, and every variant occurs in it; a forward pass and a backward
/// pass therefore both visit each variant once and yield the same multiset.
pub proof fn lemma_enumeration_complete()
    ensures
        enumeration().len() == 6 + NUM_PRECOMPILE_CALLS,
        forall|i: int, j: int|
            0 <= i < j < enumeration().len() ==> enumeration()[i] != enumeration()[j],
        forall|v: CopyDataType| enumeration().contains(v),
        enumeration().reverse().to_multiset() == enumeration().to_multiset(),
{
    assert forall|i: int, j: int|
        0 <= i < j < enumeration().len() implies enumeration()[i] != enumeration()[j] by {
        lemma_variant_at_code(i);
        lemma_variant_at_code(j);
    }
    assert forall|v: CopyDataType| enumeration().contains(v) by {
        lemma_code_round_trip(v);
        assert(enumeration()[v.spec_code()] == v);
    }
    enumeration().lemma_reverse_to_multiset();
    assert(enumeration().reverse().to_multiset() =~= enumeration().to_multiset());
}

/// Double-ended, length-aware cursor over the `CopyDataType` enumeration.
/// `idx` values have been handed out at the front and `back_idx` at the
/// back; the values still to visit are the enumeration indices in
/// `[idx, NUM_COPY_DATA_TYPES - back_idx)`.
#[derive(Clone, Copy, Debug, PartialEq, Eq, Structural)]
pub struct CopyDataTypeIter {
    /// How many values the front cursor has consumed.
    pub idx: usize,
    /// How many values the back cursor has consumed.
    pub back_idx: usize,
}

impl CopyDataTypeIter {
    /// Both cursors stay within the enumeration's length.
    pub open spec fn wf(self) -> bool {
        self.idx <= NUM_COPY_DATA_TYPES && self.back_idx <= NUM_COPY_DATA_TYPES
    }

    /// How many values are still to visit.
    pub open spec fn spec_remaining(self) -> int {
        if self.idx + self.back_idx >= NUM_COPY_DATA_TYPES {
            0
        } else {
            NUM_COPY_DATA_TYPES - self.idx - self.back_idx
        }
    }

    /// The variant at enumeration index `idx`, if the index is in range.
    pub fn get(&self, idx: usize) -> (r: Option<CopyDataType>)
        ensures
            r == if idx < NUM_COPY_DATA_TYPES {
                Some(variant_at(idx as int))
            } else {
                None::<CopyDataType>
            },
    {
        match idx {
            0 => Some(CopyDataType::Padding),
            1 => Some(CopyDataType::Bytecode),
            2 => Some(CopyDataType::Memory),
            3 => Some(CopyDataType::TxCalldata),
            4 => Some(CopyDataType::TxLog),
            5 => Some(CopyDataType::RlcAcc),
            6 => Some(CopyDataType::Precompile(PrecompileCalls::ECRecover)),
            7 => Some(CopyDataType::Precompile(PrecompileCalls::Sha256)),
            8 => Some(CopyDataType::Precompile(PrecompileCalls::Ripemd160)),
            9 => Some(CopyDataType::Precompile(PrecompileCalls::Identity)),
            10 => Some(CopyDataType::Precompile(PrecompileCalls::Modexp)),
            11 => Some(CopyDataType::Precompile(PrecompileCalls::Bn128Add)),
            12 => Some(CopyDataType::Precompile(PrecompileCalls::Bn128Mul)),
            13 => Some(CopyDataType::Precompile(PrecompileCalls::Bn128Pairing)),
            14 => Some(CopyDataType::Precompile(PrecompileCalls::Blake2F)),
            _ => None,
        }
    }

    /// Advance the front cursor past `n` values and hand out the next one;
    /// if fewer than `n + 1` values remain, exhaust the cursor instead.
    pub fn nth(&mut self, n: usize) -> (r: Option<CopyDataType>)
        requires
            old(self).wf(),
        ensures
            final(self).wf(),
            final(self).back_idx == old(self).back_idx,
            n < old(self).spec_remaining() ==> {
                &&& final(self).idx == old(self).idx + n + 1
                &&& r == Some(variant_at(old(self).idx + n))
            },
            n >= old(self).spec_remaining() ==> {
                &&& final(self).idx == NUM_COPY_DATA_TYPES
                &&& r is None
            },
    {
        let remaining: usize = if self.idx + self.back_idx >= NUM_COPY_DATA_TYPES {
            0
        } else {
            NUM_COPY_DATA_TYPES - self.idx - self.back_idx
        };
        if n < remaining {
            let idx = self.idx + n + 1;
            self.idx = idx;
            self.get(idx - 1)
        } else {
            self.idx = NUM_COPY_DATA_TYPES;
            None
        }
    }

    /// Hand out the next value at the front, or `None` once the cursors have
    /// met.
    pub fn next(&mut self) -> (r: Option<CopyDataType>)
        requires
            old(self).wf(),
        ensures
            final(self).wf(),
            final(self).back_idx == old(self).back_idx,
            old(self).spec_remaining() > 0 ==> {
                &&& final(self).idx == old(self).idx + 1
                &&& r == Some(variant_at(old(self).idx as int))
            },
            old(self).spec_remaining() == 0 ==> {
                &&& final(self).idx == NUM_COPY_DATA_TYPES
                &&& r is None
            },
    {
        self.nth(0)
    }

    /// Hand out the next value at the back, or `None` once the cursors have
    /// met.
    pub fn next_back(&mut self) -> (r: Option<CopyDataType>)
        requires
            old(self).wf(),
        ensures
            final(self).wf(),
            final(self).idx == old(self).idx,
            old(self).spec_remaining() > 0 ==> {
                &&& final(self).back_idx == old(self).back_idx + 1
                &&& r == Some(variant_at(NUM_COPY_DATA_TYPES - old(self).back_idx - 1))
            },
            old(self).spec_remaining() == 0 ==> {
                &&& final(self).back_idx == NUM_COPY_DATA_TYPES
                &&& r is None
            },
    {
        let back_idx = self.back_idx + 1;
        if self.idx + back_idx > NUM_COPY_DATA_TYPES {
            self.back_idx = NUM_COPY_DATA_TYPES;
            None
        } else {
            self.back_idx = back_idx;
            self.get(NUM_COPY_DATA_TYPES - back_idx)
        }
    }

    /// The exact number of values still to visit, as the pair a size hint
    /// reports: the lower and upper bound coincide.
    pub fn size_hint(&self) -> (r: (usize, Option<usize>))
        requires
            self.wf(),
        ensures
            r.0 == self.spec_remaining(),
            r.1 == Some(r.0),
    {
        let t: usize = if self.idx + self.back_idx >= NUM_COPY_DATA_TYPES {
            0
        } else {
            NUM_COPY_DATA_TYPES - self.idx - self.back_idx
        };
        (t, Some(t))
    }

    /// The exact number of values still to visit.
    pub fn len(&self) -> (r: usize)
        requires
            self.wf(),
        ensures
            r == self.spec_remaining(),
    {
        self.size_hint().0
    }
}

/// One copy step, unified over the source and destination row of the copy
/// table.
#[derive(Clone, Debug, PartialEq, Eq)]
pub struct CopyStep {
    /// Byte value copied in this step.
    pub value: u8,
    /// Whether the byte is an opcode; meaningful only when the source is
    /// bytecode.
    pub is_code: Option<bool>,
}

/// Identifies the logical object a copy endpoint belongs to: either a numeric
/// identifier or a 256-bit hash.
#[derive(Clone, Debug, PartialEq, Eq)]
pub enum NumberOrHash {
    /// A numeric identifier.
    Number(usize),
    /// A 256-bit hash value.
    Hash(Hash256),
}

/// Whether a copy may read from this kind of address space. Logs, the
/// accumulator and padding rows can never be a source.
pub open spec fn is_legal_source(t: CopyDataType) -> bool {
    match t {
        CopyDataType::Bytecode
        | CopyDataType::TxCalldata
        | CopyDataType::Memory
        | CopyDataType::Precompile(_) => true,
        CopyDataType::RlcAcc | CopyDataType::TxLog | CopyDataType::Padding => false,
    }
}

/// Whether a copy may write to this kind of address space. Call data and
/// padding rows can never be a destination.
pub open spec fn is_legal_destination(t: CopyDataType) -> bool {
    match t {
        CopyDataType::RlcAcc
        | CopyDataType::Bytecode
        | CopyDataType::Precompile(_)
        | CopyDataType::TxLog
        | CopyDataType::Memory => true,
        CopyDataType::TxCalldata | CopyDataType::Padding => false,
    }
}

/// One multi-byte transfer instruction's full accounting record: the source
/// and destination spaces, the byte payload, and the read/write-counter
/// schedule. Steps are indexed `0 ..= 2 * N` for `N` copied bytes: even
/// indices are the read attempt for byte `index / 2`, odd indices the paired
/// write.
#[derive(Clone, Debug)]
pub struct CopyEvent {
    /// Start address at the source.
    pub src_addr: u64,
    /// End address at the source; reads are only counted inside
    /// `[src_addr, src_addr_end)`.
    pub src_addr_end: u64,
    /// The source's kind of address space.
    pub src_type: CopyDataType,
    /// The logical object the source belongs to.
    pub src_id: NumberOrHash,
    /// Start address at the destination.
    pub dst_addr: u64,
    /// The destination's kind of address space.
    pub dst_type: CopyDataType,
    /// The logical object the destination belongs to.
    pub dst_id: NumberOrHash,
    /// The log this event writes into; meaningful only when the destination
    /// is a transaction log.
    pub log_id: Option<u64>,
    /// The global read/write counter at the first primitive operation this
    /// event performs.
    pub rw_counter_start: RWCounter,
    /// One pair per byte copied: the byte value, and whether it is an opcode
    /// — the flag is meaningful only when the source is bytecode.
    pub bytes: Vec<(u8, bool)>,
}

impl CopyEvent {
    /// How many source cells lie inside the copy's window: the clamped
    /// difference of the end and start addresses.
    pub open spec fn src_window(self) -> int {
        if self.src_addr <= self.src_addr_end {
            self.src_addr_end - self.src_addr
        } else {
            0
        }
    }

    /// The source side's contribution to the counter increase up to a step
    /// index. Reads from content-addressed or accumulator spaces (bytecode,
    /// call data, precompile input) consume no counter slot; memory reads
    /// grow with the step index, clamped to the remaining source window.
    pub open spec fn spec_src_rw_increase(self, step_index: int) -> int {
        if self.src_type is Memory {
            min((step_index + 1) / 2, self.src_window())
        } else {
            0
        }
    }

    /// The destination side's contribution to the counter increase up to a
    /// step index: one slot per completed write for memory and log
    /// destinations, none for the spaces other circuit mechanisms verify.
    pub open spec fn spec_dst_rw_increase(self, step_index: int) -> int {
        if self.dst_type is TxLog || self.dst_type is Memory {
            step_index / 2
        } else {
            0
        }
    }

    /// Increase in the global read/write counter from the start of the event
    /// to the given step index: the two sides' contributions, computed
    /// independently and added.
    pub open spec fn spec_rw_counter_increase(self, step_index: int) -> int {
        self.spec_src_rw_increase(step_index) + self.spec_dst_rw_increase(step_index)
    }

    /// The global read/write counter value at the given step index.
    pub open spec fn spec_rw_counter(self, step_index: int) -> int {
        self.rw_counter_start.0 + self.spec_rw_counter_increase(step_index)
    }

    /// Total number of primitive read/write operations the whole event
    /// performs.
    pub open spec fn spec_rw_counter_delta(self) -> int {
        self.spec_rw_counter_increase(2 * self.bytes@.len() as int)
    }

    /// How many of the event's primitive operations are still to come after
    /// the given step index.
    pub open spec fn spec_rw_counter_increase_left(self, step_index: int) -> int {
        self.spec_rw_counter(2 * self.bytes@.len() as int) - self.spec_rw_counter(step_index)
    }

    /// A usable copy event: the endpoint kinds are legal, the step-index
    /// range fits the machine, and the counter cannot overflow 64 bits.
    pub open spec fn well_formed(self) -> bool {
        &&& is_legal_source(self.src_type)
        &&& is_legal_destination(self.dst_type)
        &&& 2 * self.bytes@.len() <= usize::MAX
        &&& self.rw_counter_start.0 + 2 * self.bytes@.len() <= u64::MAX
    }

    /// The counter increase up to a step index never exceeds the step index
    /// itself: at most one primitive operation is counted per step.
    pub proof fn lemma_rw_counter_increase_le(self, step_index: int)
        requires
            0 <= step_index,
        ensures
            0 <= self.spec_rw_counter_increase(step_index) <= step_index,
    {
        let q = step_index / 2;
        let r = step_index % 2;
        lemma_fundamental_div_mod(step_index, 2);
        lemma_fundamental_div_mod_converse_div(step_index + 1, 2, q + r, 1 - r);
    }

    /// The counter increase is monotone in the step index.
    pub proof fn lemma_rw_counter_increase_monotonic(self, i: int, j: int)
        requires
            0 <= i <= j,
        ensures
            self.spec_rw_counter_increase(i) <= self.spec_rw_counter_increase(j),
    {
        lemma_div_is_ordered(i + 1, j + 1, 2);
        lemma_div_is_ordered(i, j, 2);
    }

    /// Increase in the read/write counter from the start of the copy event
    /// to the given step index.
    fn rw_counter_increase(&self, step_index: usize) -> (r: u64)
        requires
            self.well_formed(),
            step_index <= 2 * self.bytes@.len(),
        ensures
            r == self.spec_rw_counter_increase(step_index as int),
    {
        proof {
            let i = step_index as int;
            lemma_fundamental_div_mod(i, 2);
            lemma_fundamental_div_mod_converse_div(i + 1, 2, i / 2 + i % 2, 1 - i % 2);
        }
        let half: u64 = (step_index as u64) / 2;
        let rem: u64 = (step_index as u64) % 2;
        let source_rw_increase: u64 = match self.src_type {
            CopyDataType::Bytecode | CopyDataType::TxCalldata | CopyDataType::Precompile(_) => 0,
            CopyDataType::Memory => {
                let bound: u64 = half + rem;
                let window: u64 = if self.src_addr_end >= self.src_addr {
                    self.src_addr_end - self.src_addr
                } else {
                    0
                };
                if bound < window {
                    bound
                } else {
                    window
                }
            },
            CopyDataType::RlcAcc | CopyDataType::TxLog | CopyDataType::Padding => unreached(),
        };
        let destination_rw_increase: u64 = match self.dst_type {
            CopyDataType::RlcAcc | CopyDataType::Bytecode | CopyDataType::Precompile(_) => 0,
            CopyDataType::TxLog | CopyDataType::Memory => half,
            CopyDataType::TxCalldata | CopyDataType::Padding => unreached(),
        };
        source_rw_increase + destination_rw_increase
    }

    /// The global read/write counter value at the given step index.
    pub fn rw_counter(&self, step_index: usize) -> (r: u64)
        requires
            self.well_formed(),
            step_index <= 2 * self.bytes@.len(),
        ensures
            r == self.spec_rw_counter(step_index as int),
    {
        proof {
            self.lemma_rw_counter_increase_le(step_index as int);
        }
        (self.rw_counter_start.0 as u64) + self.rw_counter_increase(step_index)
    }

    /// How many of the event's primitive operations are still to come after
    /// the given step index.
    pub fn rw_counter_increase_left(&self, step_index: usize) -> (r: u64)
        requires
            self.well_formed(),
            step_index <= 2 * self.bytes@.len(),
        ensures
            r == self.spec_rw_counter_increase_left(step_index as int),
    {
        proof {
            self.lemma_rw_counter_increase_le(2 * self.bytes@.len() as int);
            self.lemma_rw_counter_increase_monotonic(
                step_index as int,
                2 * self.bytes@.len() as int,
            );
        }
        self.rw_counter(self.bytes.len() * 2) - self.rw_counter(step_index)
    }

    /// Total number of primitive read/write operations this copy event
    /// performs.
    pub fn rw_counter_delta(&self) -> (r: u64)
        requires
            self.well_formed(),
        ensures
            r == self.spec_rw_counter_delta(),
    {
        self.rw_counter_increase(self.bytes.len() * 2)
    }
}

/// Law: a memory-to-memory copy of `N` bytes whose source window covers all
/// `N` bytes performs exactly `2 * N` primitive operations — one read and
/// one write per byte.
pub proof fn lemma_memory_to_memory_delta(ev: CopyEvent)
    requires
        ev.src_type == CopyDataType::Memory,
        ev.dst_type == CopyDataType::Memory,
        ev.src_addr_end - ev.src_addr >= ev.bytes@.len(),
    ensures
        ev.spec_rw_counter_delta() == 2 * ev.bytes@.len(),
{
    let n = ev.bytes@.len() as int;
    lemma_fundamental_div_mod_converse_div(2 * n, 2, n, 0);
    lemma_fundamental_div_mod_converse_div(2 * n + 1, 2, n, 1);
}

/// Law: a copy from bytecode into memory performs exactly one primitive
/// operation per byte — the source side contributes nothing, so the total is
/// the destination side's contribution alone.
pub proof fn lemma_bytecode_to_memory_delta(ev: CopyEvent)
    requires
        ev.src_type == CopyDataType::Bytecode,
        ev.dst_type == CopyDataType::Memory,
    ensures
        ev.spec_src_rw_increase(2 * ev.bytes@.len() as int) == 0,
        ev.spec_rw_counter_delta() == ev.spec_dst_rw_increase(2 * ev.bytes@.len() as int),
        ev.spec_rw_counter_delta() == ev.bytes@.len(),
{
    let n = ev.bytes@.len() as int;
    lemma_fundamental_div_mod_converse_div(2 * n, 2, n, 0);
}

/// Law: at every step index, the operations already performed and the
/// operations still to come add up to the event's total.
pub proof fn lemma_rw_counter_balance(ev: CopyEvent, step_index: int)
    requires
        0 <= step_index <= 2 * ev.bytes@.len(),
    ensures
        ev.spec_rw_counter_increase_left(step_index) + (ev.spec_rw_counter(step_index)
            - ev.rw_counter_start.0) == ev.spec_rw_counter_delta(),
{
}

} // verus!
