//! The closed set of precompiled contracts a call can target, with their
//! canonical order and address-derived numeric codes.

use vstd::prelude::*;

verus! {

/// The precompiled contracts, in address order.
#[derive(Clone, Copy, Debug, PartialEq, Eq, Structural)]
pub enum PrecompileCalls {
    /// Elliptic-curve public-key recovery, address 0x01.
    ECRecover,
    /// SHA2-256 hash, address 0x02.
    Sha256,
    /// RIPEMD-160 hash, address 0x03.
    Ripemd160,
    /// Identity (data copy), address 0x04.
    Identity,
    /// Modular exponentiation, address 0x05.
    Modexp,
    /// BN128 elliptic-curve addition, address 0x06.
    Bn128Add,
    /// BN128 elliptic-curve scalar multiplication, address 0x07.
    Bn128Mul,
    /// BN128 pairing check, address 0x08.
    Bn128Pairing,
    /// BLAKE2b compression function, address 0x09.
    Blake2F,
}

/// How many precompiled contracts there are.
pub const NUM_PRECOMPILE_CALLS: usize = 9;

impl PrecompileCalls {
    /// The numeric code of a precompile: its address, which also gives the
    /// canonical enumeration order (1 for `ECRecover` through 9 for
    /// `Blake2F`).
    pub open spec fn spec_code(self) -> int {
        match self {
            PrecompileCalls::ECRecover => 1,
            PrecompileCalls::Sha256 => 2,
            PrecompileCalls::Ripemd160 => 3,
            PrecompileCalls::Identity => 4,
            PrecompileCalls::Modexp => 5,
            PrecompileCalls::Bn128Add => 6,
            PrecompileCalls::Bn128Mul => 7,
            PrecompileCalls::Bn128Pairing => 8,
            PrecompileCalls::Blake2F => 9,
        }
    }

    /// The precompile's address as a machine integer.
    pub fn as_u64(&self) -> (r: u64)
        ensures
            r == self.spec_code(),
    {
        match self {
            PrecompileCalls::ECRecover => 1,
            PrecompileCalls::Sha256 => 2,
            PrecompileCalls::Ripemd160 => 3,
            PrecompileCalls::Identity => 4,
            PrecompileCalls::Modexp => 5,
            PrecompileCalls::Bn128Add => 6,
            PrecompileCalls::Bn128Mul => 7,
            PrecompileCalls::Bn128Pairing => 8,
            PrecompileCalls::Blake2F => 9,
        }
    }

    /// The precompile's address as a `usize`.
    pub fn as_usize(&self) -> (r: usize)
        ensures
            r == self.spec_code(),
    {
        match self {
            PrecompileCalls::ECRecover => 1,
            PrecompileCalls::Sha256 => 2,
            PrecompileCalls::Ripemd160 => 3,
            PrecompileCalls::Identity => 4,
            PrecompileCalls::Modexp => 5,
            PrecompileCalls::Bn128Add => 6,
            PrecompileCalls::Bn128Mul => 7,
            PrecompileCalls::Bn128Pairing => 8,
            PrecompileCalls::Blake2F => 9,
        }
    }
}

/// The precompile with canonical index `i`, counting from zero: index 0 is
/// `ECRecover` (address 1) and index 8 is `Blake2F` (address 9).
pub open spec fn precompile_at(i: int) -> PrecompileCalls {
    if i == 0 {
        PrecompileCalls::ECRecover
    } else if i == 1 {
        PrecompileCalls::Sha256
    } else if i == 2 {
        PrecompileCalls::Ripemd160
    } else if i == 3 {
        PrecompileCalls::Identity
    } else if i == 4 {
        PrecompileCalls::Modexp
    } else if i == 5 {
        PrecompileCalls::Bn128Add
    } else if i == 6 {
        PrecompileCalls::Bn128Mul
    } else if i == 7 {
        PrecompileCalls::Bn128Pairing
    } else {
        PrecompileCalls::Blake2F
    }
}

/// Every precompile's code is its canonical index plus one, and the two maps
/// invert each other, so the code is injective over the precompile set.
pub proof fn lemma_precompile_code_round_trip(p: PrecompileCalls)
    ensures
        1 <= p.spec_code() <= NUM_PRECOMPILE_CALLS,
        precompile_at(p.spec_code() - 1) == p,
{
}

/// The precompile at canonical index `i` carries code `i + 1`.
pub proof fn lemma_precompile_at_code(i: int)
    requires
        0 <= i < NUM_PRECOMPILE_CALLS,
    ensures
        precompile_at(i).spec_code() == i + 1,
{
}

} // verus!
