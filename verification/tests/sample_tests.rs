use std::collections::HashSet;

use fuzz_rng::Rng;
use fuzz_rng::SampleSlice;
use fuzz_rng::cdf_index;

/// An independent rendering of the WyRand step and output mix.
fn reference_next(seed: u64) -> (u64, u64) {
    let new_state = seed.wrapping_add(0xa0761d6478bd642f);
    let t = new_state;
    let s = t ^ (t >> 32);
    (new_state, s.wrapping_mul(t) ^ (s >> 32))
}

fn entropy_rng() -> Rng {
    let mut buf = [0u8; 8];
    getrandom::fill(&mut buf).expect("Failed to seed RNG");
    Rng::from_seed(u64::from_le_bytes(buf))
}

#[test]
fn test_sample() {}

#[test]
fn test_sample_multi() {
    let mut rng = entropy_rng();
    let slice = vec![1, 2, 3, 4, 5];

    // Test basic functionality
    let samples = slice.sample_multi(&mut rng, 3);

    assert_eq!(samples.len(), 3);

    // All sampled items exist in the original slice
    assert!(samples.iter().all(|&x| slice.contains(x)));

    // All unique
    assert_eq!(samples.iter().collect::<HashSet<_>>().len(), 3);

    // Test requesting all elements (no duplicates, full set)
    let all_samples = slice.sample_multi(&mut rng, slice.len());

    assert_eq!(all_samples.len(), slice.len());

    // All unique
    assert_eq!(all_samples.iter().collect::<HashSet<_>>().len(), slice.len());

    // Test edge cases
    assert!(Vec::<&i32>::new().is_empty()); // Empty slice
    assert!(vec![1, 2, 3].sample_multi(&mut rng, 0).is_empty()); // amount = 0
}

#[test]
fn test_sample_one() {
    let mut rng = entropy_rng();
    let empty: Vec<u8> = Vec::new();
    assert!(empty.sample(&mut rng).is_none());

    let v = vec![10, 20, 30];
    for _ in 0..50 {
        let x = *v.sample(&mut rng).expect("non-empty");
        assert!(v.contains(&x));
    }

    let single = vec![99];
    assert_eq!(*single.sample(&mut rng).expect("non-empty"), 99);
}

#[test]
fn test_sample_mut() {
    let mut rng = entropy_rng();
    let mut empty: Vec<u8> = Vec::new();
    assert!(empty.sample_mut(&mut rng).is_none());

    let mut v = vec![1, 2, 3];
    if let Some(x) = v.sample_mut(&mut rng) {
        *x = 9;
    }
    assert_eq!(v.iter().filter(|&&x| x == 9).count(), 1);
    assert_eq!(v.len(), 3);
}

#[test]
fn test_sample_multi_all_is_permutation() {
    let mut rng = entropy_rng();
    let v = vec![5, 1, 4, 1, 3];
    let all: Vec<i32> = v.sample_multi(&mut rng, v.len()).into_iter().copied().collect();
    let mut sorted_all = all.clone();
    sorted_all.sort_unstable();
    let mut sorted_orig = v.clone();
    sorted_orig.sort_unstable();
    assert_eq!(sorted_all, sorted_orig);
}

#[test]
fn test_sample_multi_matches_reference_walk() {
    let seed = 4141u64;
    let v = vec![10, 20, 30, 40, 50, 60, 70];
    let mut rng = Rng::from_seed(seed);
    let got: Vec<i32> = v.sample_multi(&mut rng, 4).into_iter().copied().collect();

    let mut idx: Vec<usize> = (0..7).collect();
    let mut state = seed;
    for i in 0..4usize {
        let (next_state, out) = reference_next(state);
        state = next_state;
        let j = i + (out % (7 - i as u64)) as usize;
        idx.swap(i, j);
    }
    let expected: Vec<i32> = idx[..4].iter().map(|&k| v[k]).collect();
    assert_eq!(got, expected);
}

#[test]
fn test_cdf_index_exact() {
    let table = vec![10u64, 20, 30];
    assert_eq!(cdf_index(&table, 0), 0);
    assert_eq!(cdf_index(&table, 10), 0);
    assert_eq!(cdf_index(&table, 11), 1);
    assert_eq!(cdf_index(&table, 20), 1);
    assert_eq!(cdf_index(&table, 21), 2);
    assert_eq!(cdf_index(&table, 30), 2);
}

#[test]
fn test_cdf_boundary_convention() {
    // Items "a", "b", "c" with weights 1, 2, 3 normalize to the
    // cumulative table [1/6, 1/2, 1.0]. A draw exactly at the boundary
    // 1/6 belongs to the item whose cumulative range ends there: "a".
    let items = ["a", "b", "c"];
    let weights = [1.0f32, 2.0, 3.0];
    let total: f32 = weights.iter().sum();
    let mut cum = 0.0f32;
    let mut table: Vec<u64> = Vec::new();
    for w in weights {
        cum += w;
        table.push(u64::from((cum / total).to_bits()));
    }

    let boundary = (1.0f32 / 6.0).to_bits();
    assert_eq!(items[cdf_index(&table, u64::from(boundary))], "a");
    // The next representable value above the boundary falls to "b".
    assert_eq!(items[cdf_index(&table, u64::from(boundary) + 1)], "b");

    let half = 0.5f32.to_bits();
    assert_eq!(items[cdf_index(&table, u64::from(half))], "b");
    assert_eq!(items[cdf_index(&table, u64::from(half) + 1)], "c");

    assert_eq!(items[cdf_index(&table, 0)], "a");
    assert_eq!(items[cdf_index(&table, u64::from(1.0f32.to_bits()))], "c");
}
