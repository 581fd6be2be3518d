use fuzz_rng::Rng;

/// An independent rendering of the WyRand step and output mix.
fn reference_next(seed: u64) -> (u64, u64) {
    let new_state = seed.wrapping_add(0xa0761d6478bd642f);
    let t = new_state;
    let s = t ^ (t >> 32);
    (new_state, s.wrapping_mul(t) ^ (s >> 32))
}

/// The printable character that a 64-bit output maps to.
fn reference_char(out: u64) -> char {
    let unit = out >> 11;
    (0x20 + ((unit * 96) >> 53)) as u8 as char
}

fn entropy_rng() -> Rng {
    let mut buf = [0u8; 8];
    getrandom::fill(&mut buf).expect("Failed to seed RNG");
    Rng::from_seed(u64::from_le_bytes(buf))
}

#[test]
fn test_int_values_truncate_the_draw() {
    let seed = 0xfeed_f00d_dead_beefu64;
    let (_, out) = reference_next(seed);
    let mut rng = Rng::from_seed(seed);
    assert_eq!(rng.gen_value::<u8>(), out as u8);
    let mut rng = Rng::from_seed(seed);
    assert_eq!(rng.gen_value::<u32>(), out as u32);
    let mut rng = Rng::from_seed(seed);
    assert_eq!(rng.gen_value::<u64>(), out);
    let mut rng = Rng::from_seed(seed);
    assert_eq!(rng.gen_value::<i16>(), out as i16);
    let mut rng = Rng::from_seed(seed);
    assert_eq!(rng.gen_value::<i128>(), i128::from(out));
}

#[test]
fn test_char_is_printable() {
    let mut rng = entropy_rng();
    for _ in 0..500 {
        let c: char = rng.gen_value();
        let code = c as u32;
        assert!((0x20..0x80).contains(&code));
    }
}

#[test]
fn test_char_matches_formula() {
    let seed = 31337u64;
    let (_, out) = reference_next(seed);
    let mut rng = Rng::from_seed(seed);
    let c: char = rng.gen_value();
    assert_eq!(c, reference_char(out));
}

#[test]
fn test_string_length_and_content() {
    let mut rng = entropy_rng();
    for _ in 0..20 {
        let s: String = rng.gen_value();
        assert!(s.chars().count() < 256);
        assert!(s.chars().all(|c| (0x20..0x80).contains(&(c as u32))));
    }
}

#[test]
fn test_string_matches_reference_stream() {
    let seed = 555u64;
    let (mut state, first) = reference_next(seed);
    let len = (first % 256) as usize;
    let mut expected = String::new();
    for _ in 0..len {
        let (next_state, out) = reference_next(state);
        expected.push(reference_char(out));
        state = next_state;
    }
    let mut rng = Rng::from_seed(seed);
    let s: String = rng.gen_value();
    assert_eq!(s.chars().count(), len);
    assert_eq!(s, expected);
}
