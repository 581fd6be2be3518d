use fuzz_rng::Rng;
use fuzz_rng::ShuffleSlice;

/// An independent rendering of the WyRand step and output mix.
fn reference_next(seed: u64) -> (u64, u64) {
    let new_state = seed.wrapping_add(0xa0761d6478bd642f);
    let t = new_state;
    let s = t ^ (t >> 32);
    (new_state, s.wrapping_mul(t) ^ (s >> 32))
}

fn entropy_rng() -> Rng {
    let mut buf = [0u8; 8];
    getrandom::fill(&mut buf).expect("Failed to seed RNG");
    Rng::from_seed(u64::from_le_bytes(buf))
}

#[test]
fn test_shuffle() {
    let mut vec = vec![1, 2, 3, 4, 5, 6];

    vec.shuffle(&mut entropy_rng());

    println!("{:?}", vec);
}

#[test]
fn test_shuffle_preserves_multiset() {
    let mut rng = entropy_rng();
    for _ in 0..50 {
        let original = vec![3, 1, 4, 1, 5, 9, 2, 6, 5, 3, 5];
        let mut shuffled = original.clone();
        shuffled.shuffle(&mut rng);
        assert_eq!(shuffled.len(), original.len());
        let mut a = shuffled.clone();
        a.sort_unstable();
        let mut b = original.clone();
        b.sort_unstable();
        assert_eq!(a, b);
    }
}

#[test]
fn test_shuffle_short_is_unchanged() {
    let mut rng = entropy_rng();
    let mut empty: Vec<u8> = Vec::new();
    empty.shuffle(&mut rng);
    assert!(empty.is_empty());

    let mut one = vec![42];
    one.shuffle(&mut rng);
    assert_eq!(one, vec![42]);
}

#[test]
fn test_shuffle_matches_reference_walk() {
    let seed = 97u64;
    let mut v: Vec<u32> = (0..10).collect();
    let mut rng = Rng::from_seed(seed);
    v.shuffle(&mut rng);

    let mut expected: Vec<u32> = (0..10).collect();
    let mut state = seed;
    for idx in (1..10usize).rev() {
        let (next_state, out) = reference_next(state);
        state = next_state;
        let j = (out % (idx as u64 + 1)) as usize;
        expected.swap(idx, j);
    }
    assert_eq!(v, expected);
}

#[test]
fn test_shuffle_deterministic_for_seed() {
    let mut a = Rng::from_seed(2024);
    let mut b = Rng::from_seed(2024);
    let mut va: Vec<u32> = (0..100).collect();
    let mut vb: Vec<u32> = (0..100).collect();
    va.shuffle(&mut a);
    vb.shuffle(&mut b);
    assert_eq!(va, vb);
}
