use std::collections::VecDeque;

use fuzz_rng::Bounds;
use fuzz_rng::RandomInstance;
use fuzz_rng::Rng;

fn entropy_rng() -> Rng {
    let mut buf = [0u8; 8];
    getrandom::fill(&mut buf).expect("Failed to seed RNG");
    Rng::from_seed(u64::from_le_bytes(buf))
}

#[derive(Debug)]
enum Tag {
    One,
    Two(u16),
    Three { flag: bool },
}

// A tagged union takes part in instance generation by drawing a variant
// index uniformly and then generating that variant's fields.
impl RandomInstance for Tag {
    fn random_instance(rng: &mut Rng) -> Self {
        match rng.gen_range(Bounds::range(0usize, 3)) {
            0 => Tag::One,
            1 => Tag::Two(u16::random_instance(rng)),
            _ => Tag::Three { flag: bool::random_instance(rng) },
        }
    }
}

#[derive(Debug)]
struct Record {
    opt: Option<u32>,
    items: Vec<u8>,
    tag: Tag,
}

// A record generates each declared field in declaration order.
impl RandomInstance for Record {
    fn random_instance(rng: &mut Rng) -> Self {
        Record {
            opt: Option::<u32>::random_instance(rng),
            items: Vec::<u8>::random_instance(rng),
            tag: Tag::random_instance(rng),
        }
    }
}

#[derive(Debug)]
struct Unit;

// A unit type produces its single value with no draws.
impl RandomInstance for Unit {
    fn random_instance(_rng: &mut Rng) -> Self {
        Unit
    }
}

#[test]
fn test_recursive_record_generation() {
    let mut rng = entropy_rng();
    let mut absent = 0usize;
    for _ in 0..1000 {
        let r = Record::random_instance(&mut rng);
        assert!(r.items.len() < 512);
        if r.opt.is_none() {
            absent += 1;
        }
        match r.tag {
            Tag::One | Tag::Two(_) | Tag::Three { .. } => {}
        }
    }
    // The optional field is absent in roughly half of generations.
    assert!((350..=650).contains(&absent), "absent {} of 1000", absent);
}

#[test]
fn test_vec_instance_length_bound() {
    let mut rng = entropy_rng();
    for _ in 0..50 {
        let v = Vec::<u8>::random_instance(&mut rng);
        assert!(v.len() < 512);
        let d = VecDeque::<u16>::random_instance(&mut rng);
        assert!(d.len() < 512);
    }
}

#[test]
fn test_tuple_instance_is_componentwise() {
    let mut a = Rng::from_seed(808);
    let pair = <(u32, u64)>::random_instance(&mut a);
    let mut b = Rng::from_seed(808);
    let first = u32::random_instance(&mut b);
    let second = u64::random_instance(&mut b);
    assert_eq!(pair.0, first);
    assert_eq!(pair.1, second);

    let mut c = Rng::from_seed(808);
    let triple = <(u32, u64, i8)>::random_instance(&mut c);
    assert_eq!(triple.0, first);
    assert_eq!(triple.1, second);
}

#[test]
fn test_option_instance_follows_coin() {
    let seed = 4242u64;
    let mut probe = Rng::from_seed(seed);
    let out = probe.next_u64();
    let heads = (out >> 11) < (1u64 << 52);
    let mut rng = Rng::from_seed(seed);
    let o = Option::<u8>::random_instance(&mut rng);
    assert_eq!(o.is_none(), heads);
}

#[test]
fn test_unit_instance_consumes_no_draws() {
    let mut a = Rng::from_seed(1);
    let _ = Unit::random_instance(&mut a);
    let mut b = Rng::from_seed(1);
    assert_eq!(a.next_u64(), b.next_u64());
}

#[test]
fn test_instance_deterministic_for_seed() {
    let mut a = Rng::from_seed(77);
    let mut b = Rng::from_seed(77);
    for _ in 0..10 {
        let ra = Vec::<u32>::random_instance(&mut a);
        let rb = Vec::<u32>::random_instance(&mut b);
        assert_eq!(ra, rb);
        let sa = String::random_instance(&mut a);
        let sb = String::random_instance(&mut b);
        assert_eq!(sa, sb);
    }
}
