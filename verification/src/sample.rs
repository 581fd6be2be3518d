//! Slice sampling — one element, or many without replacement — and the
//! cumulative-table lookup that resolves a weighted draw.

use vstd::prelude::*;

use crate::gen_range::Bounds;
use crate::rng::Rng;
use crate::rng::lemma_wy_iter_succ;
use crate::rng::lemma_wy_iter_zero;
use crate::rng::wy_iter;
use crate::rng::wy_out;
use crate::rng::wy_step;

verus! {

/// The values behind a sequence of references.
pub open spec fn deref_seq<T>(s: Seq<&T>) -> Seq<T> {
    s.map_values(|x: &T| *x)
}

/// The sequence selected out of `s` by the index sequence `idx`.
pub open spec fn select_seq<T>(s: Seq<T>, idx: Seq<usize>) -> Seq<T> {
    Seq::new(idx.len(), |k: int| s[idx[k] as int])
}

/// The index array of the partial Fisher-Yates walk from generator state
/// `s0` over `len` indices, after `i` completed steps: step `i` swaps
/// position `i` with a position drawn uniformly in `[i, len)`.
pub open spec fn fy_prefix(s0: u64, len: nat, i: nat) -> Seq<usize>
    decreases i,
{
    if i == 0 {
        Seq::new(len, |k: int| k as usize)
    } else {
        let prev = fy_prefix(s0, len, (i - 1) as nat);
        let k = i - 1;
        let j = k + (wy_out(wy_step(wy_iter(s0, (i - 1) as nat))) as int) % (len - k);
        prev.update(k as int, prev[j]).update(j, prev[k as int])
    }
}

/// `r` consists of the elements of `s` at the pairwise distinct positions
/// `idx`, in draw order.
pub open spec fn picks_distinct<T>(idx: Seq<usize>, s: Seq<T>, r: Seq<T>) -> bool {
    &&& idx.len() == r.len()
    &&& (forall|k: int| 0 <= k < idx.len() ==> (#[trigger] idx[k]) < s.len())
    &&& (forall|k1: int, k2: int|
        0 <= k1 < k2 < idx.len() ==> #[trigger] idx[k1] != #[trigger] idx[k2])
    &&& (forall|k: int| 0 <= k < idx.len() ==> #[trigger] r[k] == s[idx[k] as int])
}

/// An ordered collection whose elements can be sampled at random.
pub trait SampleSlice {
    /// The element type.
    type Item;

    /// The elements the collection holds, in order.
    spec fn contents(&self) -> Seq<Self::Item>;

    /// Returns a reference to one random element of the collection, or
    /// `None` if it is empty. An empty collection consumes no draw; a
    /// non-empty one consumes exactly one, and the element is the one at
    /// the drawn index.
    fn sample(&self, rng: &mut Rng) -> (r: Option<&Self::Item>)
        ensures
            self.contents().len() == 0 ==> r is None && final(rng).state() == old(rng).state(),
            self.contents().len() > 0 ==> {
                &&& final(rng).state() == wy_step(old(rng).state())
                &&& r is Some
                &&& *r.unwrap() == self.contents()[(wy_out(wy_step(old(rng).state())) as int) % (
                self.contents().len() as int)]
            };

    /// Returns a mutable reference to one random element of the
    /// collection, or `None` if it is empty; the draw and the chosen
    /// index are those of [`SampleSlice::sample`].
    fn sample_mut(&mut self, rng: &mut Rng) -> (r: Option<&mut Self::Item>)
        ensures
            old(self).contents().len() == 0 ==> r is None && final(self).contents() == old(
                self,
            ).contents() && final(rng).state() == old(rng).state(),
            old(self).contents().len() > 0 ==> {
                let chosen = (wy_out(wy_step(old(rng).state())) as int) % (
                old(self).contents().len() as int);
                &&& final(rng).state() == wy_step(old(rng).state())
                &&& r is Some
                &&& *r.unwrap() == old(self).contents()[chosen]
                &&& final(self).contents() == old(self).contents().update(
                    chosen,
                    *final(r.unwrap()),
                )
            };

    /// Returns an ordered collection of `amount` distinct elements,
    /// drawn without replacement by a partial Fisher-Yates walk over an
    /// index array: the result is exactly the first `amount` positions
    /// of that walk, so order reflects draw order, not original order.
    /// Requesting all elements returns every element exactly once.
    fn sample_multi<'a>(&'a self, rng: &mut Rng, amount: usize) -> (r: Vec<&'a Self::Item>)
        requires
            amount <= self.contents().len(),
        ensures
            r@.len() == amount,
            final(rng).state() == wy_iter(old(rng).state(), amount as nat),
            deref_seq(r@) == select_seq(
                self.contents(),
                fy_prefix(
                    old(rng).state(),
                    self.contents().len() as nat,
                    amount as nat,
                ).take(amount as int),
            ),
            exists|idx: Seq<usize>| picks_distinct(idx, self.contents(), deref_seq(r@)),
            amount == self.contents().len() ==> deref_seq(r@).to_multiset()
                == self.contents().to_multiset();
}

impl<T> SampleSlice for Vec<T> {
    type Item = T;

    open spec fn contents(&self) -> Seq<T> {
        self@
    }

    fn sample(&self, rng: &mut Rng) -> (r: Option<&T>) {
        if self.len() == 0 {
            None
        } else {
            let i: usize = rng.gen_range(Bounds::range(0usize, self.len()));
            Some(&self[i])
        }
    }

    fn sample_mut(&mut self, rng: &mut Rng) -> (r: Option<&mut T>) {
        if self.len() == 0 {
            None
        } else {
            let i: usize = rng.gen_range(Bounds::range(0usize, self.len()));
            Some(&mut self[i])
        }
    }

    fn sample_multi<'a>(&'a self, rng: &mut Rng, amount: usize) -> (r: Vec<&'a T>) {
        let ghost pre = rng.state();
        let len = self.len();
        let ghost ident = Seq::new(len as nat, |k: int| k as usize);

        let mut indices: Vec<usize> = Vec::new();
        let mut t: usize = 0;
        while t < len
            invariant
                t <= len,
                indices@.len() == t,
                forall|q: int| 0 <= q < t ==> #[trigger] indices@[q] == q as usize,
            decreases len - t,
        {
            indices.push(t);
            t = t + 1;
        }
        proof {
            assert(indices@ =~= ident);
            assert(select_seq(self@, ident) =~= self@);
            assert(fy_prefix(pre, len as nat, 0) =~= ident);
            lemma_wy_iter_zero(pre);
        }

        let mut i: usize = 0;
        while i < amount
            invariant
                i <= amount,
                amount <= len,
                len == self@.len(),
                indices@.len() == len,
                ident == Seq::new(len as nat, |k: int| k as usize),
                rng.state() == wy_iter(pre, i as nat),
                indices@ == fy_prefix(pre, len as nat, i as nat),
                forall|q: int| 0 <= q < len ==> (#[trigger] indices@[q]) < len,
                indices@.to_multiset() == ident.to_multiset(),
                select_seq(self@, indices@).to_multiset() == self@.to_multiset(),
            decreases amount - i,
        {
            proof {
                lemma_wy_iter_succ(pre, i as nat);
            }
            let ghost before = indices@;
            let j: usize = rng.gen_range(Bounds::range(i, len));
            if i != j {
                let vi = indices[i];
                let vj = indices[j];
                indices[i] = vj;
                indices[j] = vi;
                proof {
                    assert(indices@ =~= before.update(i as int, before[j as int]).update(
                        j as int,
                        before[i as int],
                    ));
                    crate::shuffle::lemma_swap_multiset(before, i as int, j as int);
                    assert(select_seq(self@, indices@) =~= select_seq(self@, before).update(
                        i as int,
                        select_seq(self@, before)[j as int],
                    ).update(j as int, select_seq(self@, before)[i as int]));
                    crate::shuffle::lemma_swap_multiset(
                        select_seq(self@, before),
                        i as int,
                        j as int,
                    );
                }
            } else {
                proof {
                    assert(indices@ =~= before.update(i as int, before[j as int]).update(
                        j as int,
                        before[i as int],
                    ));
                }
            }
            proof {
                assert(indices@ == fy_prefix(pre, len as nat, (i + 1) as nat));
            }
            i = i + 1;
        }

        proof {
            assert forall|a: int, b: int| 0 <= a < b < len implies #[trigger] ident[a]
                != #[trigger] ident[b] by {
            }
            assert(ident.no_duplicates());
            ident.lemma_multiset_has_no_duplicates();
            indices@.lemma_multiset_has_no_duplicates_conv();
        }

        let mut out: Vec<&T> = Vec::new();
        let mut k: usize = 0;
        while k < amount
            invariant
                k <= amount,
                amount <= len,
                len == self@.len(),
                indices@.len() == len,
                forall|q: int| 0 <= q < len ==> (#[trigger] indices@[q]) < len,
                out@.len() == k,
                forall|q: int| 0 <= q < k ==> *(#[trigger] out@[q]) == self@[indices@[q] as int],
            decreases amount - k,
        {
            let ik = indices[k];
            out.push(&self[ik]);
            k = k + 1;
        }

        proof {
            let picked = indices@.take(amount as int);
            assert(picks_distinct(picked, self@, deref_seq(out@)));
            assert(deref_seq(out@) =~= select_seq(self@, picked));
            if amount == len {
                assert(picked =~= indices@);
                assert(deref_seq(out@) =~= select_seq(self@, indices@));
            }
        }
        out
    }
}

/// The table entries never decrease from left to right.
pub open spec fn monotone(s: Seq<u64>) -> bool {
    forall|i: int, j: int| 0 <= i <= j < s.len() ==> #[trigger] s[i] <= #[trigger] s[j]
}

/// Resolves a draw `r` against a monotone cumulative table: returns the
/// least index whose entry is at least `r`.
///
/// This is the boundary convention of the weighted sampler: entry `i`
/// owns the half-open span from just above the previous entry up to and
/// including its own, so a draw exactly at a boundary selects the item
/// whose cumulative range ends there.
pub fn cdf_index(table: &Vec<u64>, r: u64) -> (i: usize)
    requires
        table@.len() > 0,
        monotone(table@),
        r <= table@[table@.len() - 1],
    ensures
        i < table@.len(),
        r <= table@[i as int],
        forall|j: int| 0 <= j < i ==> #[trigger] table@[j] < r,
{
    let mut lo: usize = 0;
    let mut hi: usize = table.len() - 1;
    while lo < hi
        invariant
            lo <= hi < table@.len(),
            monotone(table@),
            r <= table@[hi as int],
            forall|j: int| 0 <= j < lo ==> #[trigger] table@[j] < r,
        decreases hi - lo,
    {
        let mid = lo + (hi - lo) / 2;
        if table[mid] < r {
            proof {
                assert forall|j: int| 0 <= j < mid + 1 implies #[trigger] table@[j] < r by {
                    assert(table@[j] <= table@[mid as int]);
                }
            }
            lo = mid + 1;
        } else {
            hi = mid;
        }
    }
    lo
}

} // verus!
