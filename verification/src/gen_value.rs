//! Typed primitive values derived from raw generator output: integers of
//! every width by truncation, printable characters and bounded text.

use vstd::prelude::*;

use crate::gen_range::Bounds;
use crate::rng::Rng;
use crate::rng::lemma_wy_iter_succ;
use crate::rng::lemma_wy_iter_zero;
use crate::rng::unit_bits_of;
use crate::rng::wy_iter;
use crate::rng::wy_out;
use crate::rng::wy_step;

verus! {

/// The printable ASCII character that a 53-bit unit-draw numerator `u`
/// maps to: `0x20 + floor((u / 2^53) * 96)`, one of the 96 codepoints
/// from `0x20` inclusive.
pub open spec fn printable_of(u: u64) -> char {
    (((u * 96) / 0x20000000000000 + 0x20) as u8) as char
}

/// A type with a directly drawable primitive value.
///
/// Each implementation fixes, through `gen_ens`, the exact relation
/// between the generator state before the draw, the state after it, and
/// the value produced, so that a fixed seed reproduces the same values.
pub trait RandomValue: Sized {
    /// Relates the generator state before the draw (`pre`), the state
    /// after it (`post`), and the drawn value `r`.
    spec fn gen_ens(pre: u64, post: u64, r: Self) -> bool;

    /// Draws one value of `Self`.
    fn gen_value(rng: &mut Rng) -> (r: Self)
        ensures
            Self::gen_ens(old(rng).state(), final(rng).state(), r);
}

impl Rng {
    /// Draws one value of `T`; see [`RandomValue`].
    pub fn gen_value<T: RandomValue>(&mut self) -> (r: T)
        ensures
            T::gen_ens(old(self).state(), final(self).state(), r),
    {
        T::gen_value(self)
    }
}

impl RandomValue for u8 {
    open spec fn gen_ens(pre: u64, post: u64, r: u8) -> bool {
        &&& post == wy_step(pre)
        &&& r == wy_out(post) as u8
    }

    fn gen_value(rng: &mut Rng) -> (r: u8) {
        rng.next_u64() as u8
    }
}

impl RandomValue for u16 {
    open spec fn gen_ens(pre: u64, post: u64, r: u16) -> bool {
        &&& post == wy_step(pre)
        &&& r == wy_out(post) as u16
    }

    fn gen_value(rng: &mut Rng) -> (r: u16) {
        rng.next_u64() as u16
    }
}

impl RandomValue for u32 {
    open spec fn gen_ens(pre: u64, post: u64, r: u32) -> bool {
        &&& post == wy_step(pre)
        &&& r == wy_out(post) as u32
    }

    fn gen_value(rng: &mut Rng) -> (r: u32) {
        rng.next_u64() as u32
    }
}

impl RandomValue for u64 {
    open spec fn gen_ens(pre: u64, post: u64, r: u64) -> bool {
        &&& post == wy_step(pre)
        &&& r == wy_out(post)
    }

    fn gen_value(rng: &mut Rng) -> (r: u64) {
        rng.next_u64()
    }
}

impl RandomValue for u128 {
    open spec fn gen_ens(pre: u64, post: u64, r: u128) -> bool {
        &&& post == wy_step(pre)
        &&& r == wy_out(post) as u128
    }

    fn gen_value(rng: &mut Rng) -> (r: u128) {
        rng.next_u64() as u128
    }
}

impl RandomValue for usize {
    open spec fn gen_ens(pre: u64, post: u64, r: usize) -> bool {
        &&& post == wy_step(pre)
        &&& r == wy_out(post) as usize
    }

    fn gen_value(rng: &mut Rng) -> (r: usize) {
        rng.next_u64() as usize
    }
}

impl RandomValue for i8 {
    open spec fn gen_ens(pre: u64, post: u64, r: i8) -> bool {
        &&& post == wy_step(pre)
        &&& r == wy_out(post) as i8
    }

    fn gen_value(rng: &mut Rng) -> (r: i8) {
        rng.next_u64() as i8
    }
}

impl RandomValue for i16 {
    open spec fn gen_ens(pre: u64, post: u64, r: i16) -> bool {
        &&& post == wy_step(pre)
        &&& r == wy_out(post) as i16
    }

    fn gen_value(rng: &mut Rng) -> (r: i16) {
        rng.next_u64() as i16
    }
}

impl RandomValue for i32 {
    open spec fn gen_ens(pre: u64, post: u64, r: i32) -> bool {
        &&& post == wy_step(pre)
        &&& r == wy_out(post) as i32
    }

    fn gen_value(rng: &mut Rng) -> (r: i32) {
        rng.next_u64() as i32
    }
}

impl RandomValue for i64 {
    open spec fn gen_ens(pre: u64, post: u64, r: i64) -> bool {
        &&& post == wy_step(pre)
        &&& r == wy_out(post) as i64
    }

    fn gen_value(rng: &mut Rng) -> (r: i64) {
        rng.next_u64() as i64
    }
}

impl RandomValue for i128 {
    open spec fn gen_ens(pre: u64, post: u64, r: i128) -> bool {
        &&& post == wy_step(pre)
        &&& r == wy_out(post) as i128
    }

    fn gen_value(rng: &mut Rng) -> (r: i128) {
        rng.next_u64() as i128
    }
}

impl RandomValue for isize {
    open spec fn gen_ens(pre: u64, post: u64, r: isize) -> bool {
        &&& post == wy_step(pre)
        &&& r == wy_out(post) as isize
    }

    fn gen_value(rng: &mut Rng) -> (r: isize) {
        rng.next_u64() as isize
    }
}

impl RandomValue for char {
    open spec fn gen_ens(pre: u64, post: u64, r: char) -> bool {
        &&& post == wy_step(pre)
        &&& r == printable_of(unit_bits_of(post))
    }

    fn gen_value(rng: &mut Rng) -> (r: char) {
        let u = rng.next_unit_bits();
        let scaled = u * 96;
        proof {
            assert(scaled >> 53 == scaled / 0x20000000000000) by (bit_vector);
        }
        let code = (scaled >> 53) as u8 + 0x20;
        code as char
    }
}

/// Relies on String::push: appends exactly the one given character.
#[verifier::external_body]
fn push_char(s: &mut String, c: char)
    ensures
        final(s)@ == old(s)@.push(c),
{
    s.push(c);
}

impl RandomValue for String {
    open spec fn gen_ens(pre: u64, post: u64, r: String) -> bool {
        let n = wy_out(wy_step(pre)) as int % 256;
        &&& r@.len() == n
        &&& post == wy_iter(pre, (n + 1) as nat)
        &&& forall|i: int|
            0 <= i < n ==> r@[i] == printable_of(unit_bits_of(wy_iter(pre, (i + 2) as nat)))
    }

    fn gen_value(rng: &mut Rng) -> (r: String) {
        let ghost pre = rng.state();
        let len: usize = rng.gen_range(Bounds::range(0usize, 256));
        proof {
            lemma_wy_iter_zero(pre);
            lemma_wy_iter_succ(pre, 0);
        }
        let mut s = String::new();
        let mut k: usize = 0;
        while k < len
            invariant
                k <= len,
                len == wy_out(wy_step(pre)) as int % 256,
                rng.state() == wy_iter(pre, (k + 1) as nat),
                s@.len() == k,
                forall|i: int|
                    0 <= i < k ==> s@[i] == printable_of(
                        unit_bits_of(wy_iter(pre, (i + 2) as nat)),
                    ),
            decreases len - k,
        {
            proof {
                lemma_wy_iter_succ(pre, (k + 1) as nat);
            }
            let c: char = rng.gen_value();
            push_char(&mut s, c);
            k = k + 1;
        }
        s
    }
}

} // verus!
