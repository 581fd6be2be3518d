//! Range sampling: maps one generator draw into a value constrained to a
//! caller-supplied pair of bounds, inclusive, exclusive or unbounded on
//! either side.
//!
//! Bounds normalize to an effective half-open interval `[lo, hi)`; the
//! draw is `lo + (next_u64() mod (hi - lo))`, a modulo-biased uniform
//! approximation kept deliberately, so that seeded reproduction stays
//! stable within this implementation.

use vstd::prelude::*;

use crate::rng::Rng;
use crate::rng::wy_out;
use crate::rng::wy_step;

verus! {

/// One endpoint of a range of values of type `T`.
#[derive(Clone, Copy, Debug)]
pub enum RangeBound<T> {
    /// The endpoint value belongs to the range.
    Included(T),
    /// The endpoint value lies just outside the range.
    Excluded(T),
    /// No constraint: the endpoint resolves to the type's extreme value.
    Unbounded,
}

/// A pair of endpoints describing a range of values of type `T`.
#[derive(Clone, Copy, Debug)]
pub struct Bounds<T> {
    /// The lower endpoint.
    pub start: RangeBound<T>,
    /// The upper endpoint.
    pub end: RangeBound<T>,
}

impl<T> Bounds<T> {
    /// The half-open range `start..end`.
    pub fn range(start: T, end: T) -> (r: Bounds<T>)
        ensures
            r.start == RangeBound::Included(start),
            r.end == RangeBound::Excluded(end),
    {
        Bounds { start: RangeBound::Included(start), end: RangeBound::Excluded(end) }
    }

    /// The closed range `start..=end`.
    pub fn range_inclusive(start: T, end: T) -> (r: Bounds<T>)
        ensures
            r.start == RangeBound::Included(start),
            r.end == RangeBound::Included(end),
    {
        Bounds { start: RangeBound::Included(start), end: RangeBound::Included(end) }
    }

    /// The lower-bounded range `start..`.
    pub fn range_from(start: T) -> (r: Bounds<T>)
        ensures
            r.start == RangeBound::Included(start),
            r.end == RangeBound::<T>::Unbounded,
    {
        Bounds { start: RangeBound::Included(start), end: RangeBound::Unbounded }
    }

    /// The upper-bounded range `..end`.
    pub fn range_to(end: T) -> (r: Bounds<T>)
        ensures
            r.start == RangeBound::<T>::Unbounded,
            r.end == RangeBound::Excluded(end),
    {
        Bounds { start: RangeBound::Unbounded, end: RangeBound::Excluded(end) }
    }

    /// The upper-bounded range `..=end`.
    pub fn range_to_inclusive(end: T) -> (r: Bounds<T>)
        ensures
            r.start == RangeBound::<T>::Unbounded,
            r.end == RangeBound::Included(end),
    {
        Bounds { start: RangeBound::Unbounded, end: RangeBound::Included(end) }
    }

    /// The unconstrained range `..`.
    pub fn full() -> (r: Bounds<T>)
        ensures
            r.start == RangeBound::<T>::Unbounded,
            r.end == RangeBound::<T>::Unbounded,
    {
        Bounds { start: RangeBound::Unbounded, end: RangeBound::Unbounded }
    }
}

/// A type whose values can be drawn from a bounded range.
///
/// A bound pair normalizes to an effective half-open interval
/// `[lo_of(start), hi_of(end))`: an inclusive start stays, an exclusive
/// start advances by one, an inclusive end advances by one past itself,
/// an exclusive end stays, and unbounded endpoints resolve to the type's
/// extremes (the unbounded upper endpoint resolves to the type's maximum
/// used exclusively). The caller must supply a non-empty interval whose
/// width fits in 64 bits; the draw consumes exactly one generator step
/// and equals `lo + (output mod width)`.
pub trait RandomRange: Sized {
    /// The mathematical value a draw of this type stands for.
    spec fn to_int(v: Self) -> int;

    /// The effective inclusive start that a lower bound resolves to.
    spec fn lo_of(b: RangeBound<Self>) -> int;

    /// The effective exclusive end that an upper bound resolves to.
    spec fn hi_of(b: RangeBound<Self>) -> int;

    /// Draws one value of `Self` from the given bounds.
    fn gen_range(rng: &mut Rng, bounds: Bounds<Self>) -> (r: Self)
        requires
            Self::lo_of(bounds.start) < Self::hi_of(bounds.end),
            Self::hi_of(bounds.end) - Self::lo_of(bounds.start) <= u64::MAX as int,
        ensures
            final(rng).state() == wy_step(old(rng).state()),
            Self::to_int(r) == Self::lo_of(bounds.start) + (wy_out(
                wy_step(old(rng).state()),
            ) as int) % (Self::hi_of(bounds.end) - Self::lo_of(bounds.start)),
            Self::lo_of(bounds.start) <= Self::to_int(r) < Self::hi_of(bounds.end),
            Self::hi_of(bounds.end) - Self::lo_of(bounds.start) == 1 ==> Self::to_int(r)
                == Self::lo_of(bounds.start);
}

impl Rng {
    /// Draws one value of `T` from the given bounds; see [`RandomRange`].
    pub fn gen_range<T: RandomRange>(&mut self, bounds: Bounds<T>) -> (r: T)
        requires
            T::lo_of(bounds.start) < T::hi_of(bounds.end),
            T::hi_of(bounds.end) - T::lo_of(bounds.start) <= u64::MAX as int,
        ensures
            final(self).state() == wy_step(old(self).state()),
            T::to_int(r) == T::lo_of(bounds.start) + (wy_out(wy_step(old(self).state())) as int)
                % (T::hi_of(bounds.end) - T::lo_of(bounds.start)),
            T::lo_of(bounds.start) <= T::to_int(r) < T::hi_of(bounds.end),
            T::hi_of(bounds.end) - T::lo_of(bounds.start) == 1 ==> T::to_int(r) == T::lo_of(
                bounds.start,
            ),
    {
        T::gen_range(self, bounds)
    }
}

/// Draws one offset uniformly (up to modulo bias) below `span`.
fn draw_below(rng: &mut Rng, span: u64) -> (off: u64)
    requires
        1 <= span,
    ensures
        final(rng).state() == wy_step(old(rng).state()),
        off == (wy_out(wy_step(old(rng).state())) as int) % (span as int),
        off < span,
{
    let bits = rng.next_u64();
    bits % span
}

impl RandomRange for u8 {
    open spec fn to_int(v: u8) -> int {
        v as int
    }

    open spec fn lo_of(b: RangeBound<u8>) -> int {
        match b {
            RangeBound::Included(n) => n as int,
            RangeBound::Excluded(n) => n as int + 1,
            RangeBound::Unbounded => u8::MIN as int,
        }
    }

    open spec fn hi_of(b: RangeBound<u8>) -> int {
        match b {
            RangeBound::Included(n) => n as int + 1,
            RangeBound::Excluded(n) => n as int,
            RangeBound::Unbounded => u8::MAX as int,
        }
    }

    fn gen_range(rng: &mut Rng, bounds: Bounds<u8>) -> (r: u8) {
        let start: u8 = match bounds.start {
            RangeBound::Included(n) => n,
            RangeBound::Excluded(n) => n + 1,
            RangeBound::Unbounded => u8::MIN,
        };
        let span: u64 = match bounds.end {
            RangeBound::Included(n) => (n - start) as u64 + 1,
            RangeBound::Excluded(n) => (n - start) as u64,
            RangeBound::Unbounded => (u8::MAX - start) as u64,
        };
        let off = draw_below(rng, span);
        start + (off as u8)
    }
}

impl RandomRange for u16 {
    open spec fn to_int(v: u16) -> int {
        v as int
    }

    open spec fn lo_of(b: RangeBound<u16>) -> int {
        match b {
            RangeBound::Included(n) => n as int,
            RangeBound::Excluded(n) => n as int + 1,
            RangeBound::Unbounded => u16::MIN as int,
        }
    }

    open spec fn hi_of(b: RangeBound<u16>) -> int {
        match b {
            RangeBound::Included(n) => n as int + 1,
            RangeBound::Excluded(n) => n as int,
            RangeBound::Unbounded => u16::MAX as int,
        }
    }

    fn gen_range(rng: &mut Rng, bounds: Bounds<u16>) -> (r: u16) {
        let start: u16 = match bounds.start {
            RangeBound::Included(n) => n,
            RangeBound::Excluded(n) => n + 1,
            RangeBound::Unbounded => u16::MIN,
        };
        let span: u64 = match bounds.end {
            RangeBound::Included(n) => (n - start) as u64 + 1,
            RangeBound::Excluded(n) => (n - start) as u64,
            RangeBound::Unbounded => (u16::MAX - start) as u64,
        };
        let off = draw_below(rng, span);
        start + (off as u16)
    }
}

impl RandomRange for u32 {
    open spec fn to_int(v: u32) -> int {
        v as int
    }

    open spec fn lo_of(b: RangeBound<u32>) -> int {
        match b {
            RangeBound::Included(n) => n as int,
            RangeBound::Excluded(n) => n as int + 1,
            RangeBound::Unbounded => u32::MIN as int,
        }
    }

    open spec fn hi_of(b: RangeBound<u32>) -> int {
        match b {
            RangeBound::Included(n) => n as int + 1,
            RangeBound::Excluded(n) => n as int,
            RangeBound::Unbounded => u32::MAX as int,
        }
    }

    fn gen_range(rng: &mut Rng, bounds: Bounds<u32>) -> (r: u32) {
        let start: u32 = match bounds.start {
            RangeBound::Included(n) => n,
            RangeBound::Excluded(n) => n + 1,
            RangeBound::Unbounded => u32::MIN,
        };
        let span: u64 = match bounds.end {
            RangeBound::Included(n) => (n - start) as u64 + 1,
            RangeBound::Excluded(n) => (n - start) as u64,
            RangeBound::Unbounded => (u32::MAX - start) as u64,
        };
        let off = draw_below(rng, span);
        start + (off as u32)
    }
}

impl RandomRange for u64 {
    open spec fn to_int(v: u64) -> int {
        v as int
    }

    open spec fn lo_of(b: RangeBound<u64>) -> int {
        match b {
            RangeBound::Included(n) => n as int,
            RangeBound::Excluded(n) => n as int + 1,
            RangeBound::Unbounded => u64::MIN as int,
        }
    }

    open spec fn hi_of(b: RangeBound<u64>) -> int {
        match b {
            RangeBound::Included(n) => n as int + 1,
            RangeBound::Excluded(n) => n as int,
            RangeBound::Unbounded => u64::MAX as int,
        }
    }

    fn gen_range(rng: &mut Rng, bounds: Bounds<u64>) -> (r: u64) {
        let start: u64 = match bounds.start {
            RangeBound::Included(n) => n,
            RangeBound::Excluded(n) => n + 1,
            RangeBound::Unbounded => u64::MIN,
        };
        let span: u64 = match bounds.end {
            RangeBound::Included(n) => (n - start) + 1,
            RangeBound::Excluded(n) => n - start,
            RangeBound::Unbounded => u64::MAX - start,
        };
        let off = draw_below(rng, span);
        start + off
    }
}

impl RandomRange for usize {
    open spec fn to_int(v: usize) -> int {
        v as int
    }

    open spec fn lo_of(b: RangeBound<usize>) -> int {
        match b {
            RangeBound::Included(n) => n as int,
            RangeBound::Excluded(n) => n as int + 1,
            RangeBound::Unbounded => usize::MIN as int,
        }
    }

    open spec fn hi_of(b: RangeBound<usize>) -> int {
        match b {
            RangeBound::Included(n) => n as int + 1,
            RangeBound::Excluded(n) => n as int,
            RangeBound::Unbounded => usize::MAX as int,
        }
    }

    fn gen_range(rng: &mut Rng, bounds: Bounds<usize>) -> (r: usize) {
        let start: usize = match bounds.start {
            RangeBound::Included(n) => n,
            RangeBound::Excluded(n) => n + 1,
            RangeBound::Unbounded => usize::MIN,
        };
        let span: u64 = match bounds.end {
            RangeBound::Included(n) => (n - start) as u64 + 1,
            RangeBound::Excluded(n) => (n - start) as u64,
            RangeBound::Unbounded => (usize::MAX - start) as u64,
        };
        let off = draw_below(rng, span);
        start + (off as usize)
    }
}

impl RandomRange for i8 {
    open spec fn to_int(v: i8) -> int {
        v as int
    }

    open spec fn lo_of(b: RangeBound<i8>) -> int {
        match b {
            RangeBound::Included(n) => n as int,
            RangeBound::Excluded(n) => n as int + 1,
            RangeBound::Unbounded => i8::MIN as int,
        }
    }

    open spec fn hi_of(b: RangeBound<i8>) -> int {
        match b {
            RangeBound::Included(n) => n as int + 1,
            RangeBound::Excluded(n) => n as int,
            RangeBound::Unbounded => i8::MAX as int,
        }
    }

    fn gen_range(rng: &mut Rng, bounds: Bounds<i8>) -> (r: i8) {
        let start: i8 = match bounds.start {
            RangeBound::Included(n) => n,
            RangeBound::Excluded(n) => n + 1,
            RangeBound::Unbounded => i8::MIN,
        };
        let span: u64 = match bounds.end {
            RangeBound::Included(n) => (n as i64 - start as i64 + 1) as u64,
            RangeBound::Excluded(n) => (n as i64 - start as i64) as u64,
            RangeBound::Unbounded => (i8::MAX as i64 - start as i64) as u64,
        };
        let off = draw_below(rng, span);
        (start as i64 + off as i64) as i8
    }
}

impl RandomRange for i16 {
    open spec fn to_int(v: i16) -> int {
        v as int
    }

    open spec fn lo_of(b: RangeBound<i16>) -> int {
        match b {
            RangeBound::Included(n) => n as int,
            RangeBound::Excluded(n) => n as int + 1,
            RangeBound::Unbounded => i16::MIN as int,
        }
    }

    open spec fn hi_of(b: RangeBound<i16>) -> int {
        match b {
            RangeBound::Included(n) => n as int + 1,
            RangeBound::Excluded(n) => n as int,
            RangeBound::Unbounded => i16::MAX as int,
        }
    }

    fn gen_range(rng: &mut Rng, bounds: Bounds<i16>) -> (r: i16) {
        let start: i16 = match bounds.start {
            RangeBound::Included(n) => n,
            RangeBound::Excluded(n) => n + 1,
            RangeBound::Unbounded => i16::MIN,
        };
        let span: u64 = match bounds.end {
            RangeBound::Included(n) => (n as i64 - start as i64 + 1) as u64,
            RangeBound::Excluded(n) => (n as i64 - start as i64) as u64,
            RangeBound::Unbounded => (i16::MAX as i64 - start as i64) as u64,
        };
        let off = draw_below(rng, span);
        (start as i64 + off as i64) as i16
    }
}

impl RandomRange for i32 {
    open spec fn to_int(v: i32) -> int {
        v as int
    }

    open spec fn lo_of(b: RangeBound<i32>) -> int {
        match b {
            RangeBound::Included(n) => n as int,
            RangeBound::Excluded(n) => n as int + 1,
            RangeBound::Unbounded => i32::MIN as int,
        }
    }

    open spec fn hi_of(b: RangeBound<i32>) -> int {
        match b {
            RangeBound::Included(n) => n as int + 1,
            RangeBound::Excluded(n) => n as int,
            RangeBound::Unbounded => i32::MAX as int,
        }
    }

    fn gen_range(rng: &mut Rng, bounds: Bounds<i32>) -> (r: i32) {
        let start: i32 = match bounds.start {
            RangeBound::Included(n) => n,
            RangeBound::Excluded(n) => n + 1,
            RangeBound::Unbounded => i32::MIN,
        };
        let span: u64 = match bounds.end {
            RangeBound::Included(n) => (n as i64 - start as i64 + 1) as u64,
            RangeBound::Excluded(n) => (n as i64 - start as i64) as u64,
            RangeBound::Unbounded => (i32::MAX as i64 - start as i64) as u64,
        };
        let off = draw_below(rng, span);
        (start as i64 + off as i64) as i32
    }
}

impl RandomRange for i64 {
    open spec fn to_int(v: i64) -> int {
        v as int
    }

    open spec fn lo_of(b: RangeBound<i64>) -> int {
        match b {
            RangeBound::Included(n) => n as int,
            RangeBound::Excluded(n) => n as int + 1,
            RangeBound::Unbounded => i64::MIN as int,
        }
    }

    open spec fn hi_of(b: RangeBound<i64>) -> int {
        match b {
            RangeBound::Included(n) => n as int + 1,
            RangeBound::Excluded(n) => n as int,
            RangeBound::Unbounded => i64::MAX as int,
        }
    }

    fn gen_range(rng: &mut Rng, bounds: Bounds<i64>) -> (r: i64) {
        let start: i64 = match bounds.start {
            RangeBound::Included(n) => n,
            RangeBound::Excluded(n) => n + 1,
            RangeBound::Unbounded => i64::MIN,
        };
        let span: u64 = match bounds.end {
            RangeBound::Included(n) => (n as i128 - start as i128 + 1) as u64,
            RangeBound::Excluded(n) => (n as i128 - start as i128) as u64,
            RangeBound::Unbounded => (i64::MAX as i128 - start as i128) as u64,
        };
        let off = draw_below(rng, span);
        (start as i128 + off as i128) as i64
    }
}

impl RandomRange for isize {
    open spec fn to_int(v: isize) -> int {
        v as int
    }

    open spec fn lo_of(b: RangeBound<isize>) -> int {
        match b {
            RangeBound::Included(n) => n as int,
            RangeBound::Excluded(n) => n as int + 1,
            RangeBound::Unbounded => isize::MIN as int,
        }
    }

    open spec fn hi_of(b: RangeBound<isize>) -> int {
        match b {
            RangeBound::Included(n) => n as int + 1,
            RangeBound::Excluded(n) => n as int,
            RangeBound::Unbounded => isize::MAX as int,
        }
    }

    fn gen_range(rng: &mut Rng, bounds: Bounds<isize>) -> (r: isize) {
        let start: isize = match bounds.start {
            RangeBound::Included(n) => n,
            RangeBound::Excluded(n) => n + 1,
            RangeBound::Unbounded => isize::MIN,
        };
        let span: u64 = match bounds.end {
            RangeBound::Included(n) => (n as i128 - start as i128 + 1) as u64,
            RangeBound::Excluded(n) => (n as i128 - start as i128) as u64,
            RangeBound::Unbounded => (isize::MAX as i128 - start as i128) as u64,
        };
        let off = draw_below(rng, span);
        (start as i128 + off as i128) as isize
    }
}

} // verus!
