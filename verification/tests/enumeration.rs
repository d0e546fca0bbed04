use bus_mapping::{CopyDataType, PrecompileCalls};

fn all_variants() -> Vec<CopyDataType> {
    let mut fixed = vec![
        CopyDataType::Padding,
        CopyDataType::Bytecode,
        CopyDataType::Memory,
        CopyDataType::TxCalldata,
        CopyDataType::TxLog,
        CopyDataType::RlcAcc,
    ];
    fixed.extend(CopyDataType::precompile_types());
    fixed
}

#[test]
fn forward_traversal_lists_all_fifteen_variants_in_order() {
    let mut it = CopyDataType::iter();
    let mut seen = Vec::new();
    while let Some(v) = it.next() {
        seen.push(v);
    }
    assert_eq!(seen.len(), 15);
    assert_eq!(seen, all_variants());
}

#[test]
fn backward_traversal_yields_the_same_multiset() {
    let mut it = CopyDataType::iter();
    let mut backwards = Vec::new();
    while let Some(v) = it.next_back() {
        backwards.push(v);
    }
    assert_eq!(backwards.len(), 15);
    backwards.reverse();
    assert_eq!(backwards, all_variants());
}

#[test]
fn traversal_meets_in_the_middle() {
    let mut it = CopyDataType::iter();
    assert_eq!(it.next(), Some(CopyDataType::Padding));
    assert_eq!(
        it.next_back(),
        Some(CopyDataType::Precompile(PrecompileCalls::Blake2F))
    );
    assert_eq!(it.len(), 13);
    let mut count = 0;
    while it.next().is_some() {
        count += 1;
    }
    assert_eq!(count, 13);
    assert_eq!(it.len(), 0);
    assert_eq!(it.next(), None);
    assert_eq!(it.next_back(), None);
}

#[test]
fn size_hint_is_exact_at_every_point() {
    let mut it = CopyDataType::iter();
    for remaining in (0..=14).rev() {
        it.next();
        let (lo, hi) = it.size_hint();
        assert_eq!(lo, remaining);
        assert_eq!(hi, Some(remaining));
    }
}

#[test]
fn nth_skips_and_exhausts() {
    let mut it = CopyDataType::iter();
    assert_eq!(it.nth(2), Some(CopyDataType::Memory));
    assert_eq!(it.nth(0), Some(CopyDataType::TxCalldata));
    assert_eq!(it.nth(20), None);
    assert_eq!(it.len(), 0);
}

#[test]
fn numeric_codes_are_dense_and_injective() {
    let variants = all_variants();
    for (i, v) in variants.iter().enumerate() {
        assert_eq!(usize::from(*v), i);
        assert_eq!(u64::from(v), i as u64);
    }
    for x in variants.iter() {
        for y in variants.iter() {
            if usize::from(*x) == usize::from(*y) {
                assert_eq!(x, y);
            }
        }
    }
}

#[test]
fn get_round_trips_every_variant() {
    let it = CopyDataType::iter();
    for v in all_variants() {
        assert_eq!(it.get(usize::from(v)), Some(v));
    }
    assert_eq!(it.get(15), None);
}

#[test]
fn precompile_types_lists_the_nine_calls_in_address_order() {
    let types = CopyDataType::precompile_types();
    let expected = vec![
        CopyDataType::Precompile(PrecompileCalls::ECRecover),
        CopyDataType::Precompile(PrecompileCalls::Sha256),
        CopyDataType::Precompile(PrecompileCalls::Ripemd160),
        CopyDataType::Precompile(PrecompileCalls::Identity),
        CopyDataType::Precompile(PrecompileCalls::Modexp),
        CopyDataType::Precompile(PrecompileCalls::Bn128Add),
        CopyDataType::Precompile(PrecompileCalls::Bn128Mul),
        CopyDataType::Precompile(PrecompileCalls::Bn128Pairing),
        CopyDataType::Precompile(PrecompileCalls::Blake2F),
    ];
    assert_eq!(types, expected);
    for (i, t) in types.iter().enumerate() {
        assert_eq!(usize::from(*t), 6 + i);
    }
}

#[test]
fn default_copy_data_type_is_memory() {
    assert_eq!(CopyDataType::default(), CopyDataType::Memory);
}

#[test]
fn precompile_codes_are_their_addresses() {
    let calls = [
        PrecompileCalls::ECRecover,
        PrecompileCalls::Sha256,
        PrecompileCalls::Ripemd160,
        PrecompileCalls::Identity,
        PrecompileCalls::Modexp,
        PrecompileCalls::Bn128Add,
        PrecompileCalls::Bn128Mul,
        PrecompileCalls::Bn128Pairing,
        PrecompileCalls::Blake2F,
    ];
    for (i, c) in calls.iter().enumerate() {
        assert_eq!(c.as_usize(), i + 1);
        assert_eq!(c.as_u64(), (i + 1) as u64);
    }
}
