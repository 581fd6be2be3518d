//! In-place shuffling: a full Fisher-Yates walk from the last index down
//! to 1, swapping each position with a uniformly chosen index at or below
//! it.

use vstd::prelude::*;

use crate::gen_range::Bounds;
use crate::rng::Rng;
use crate::rng::lemma_wy_iter_succ;
use crate::rng::lemma_wy_iter_zero;
use crate::rng::wy_iter;
use crate::rng::wy_out;
use crate::rng::wy_step;

verus! {

/// The number of draws one shuffle of a collection of length `l`
/// consumes: one per position from the last down to 1.
pub open spec fn shuffle_draws(l: nat) -> nat {
    if l <= 1 {
        0
    } else {
        (l - 1) as nat
    }
}

/// The exact result of the Fisher-Yates walk over `v` from generator
/// state `s0`, after `c` completed steps: step `c` swaps position
/// `v.len() - c` with a position drawn uniformly at or below it.
pub open spec fn shuffled_seq<T>(s0: u64, v: Seq<T>, c: nat) -> Seq<T>
    decreases c,
{
    if c == 0 {
        v
    } else {
        let prev = shuffled_seq(s0, v, (c - 1) as nat);
        let idx = v.len() - c;
        let j = (wy_out(wy_step(wy_iter(s0, (c - 1) as nat))) as int) % (idx + 1);
        prev.update(idx as int, prev[j]).update(j, prev[idx as int])
    }
}

/// Exchanging the elements at two positions preserves the multiset of
/// elements.
pub proof fn lemma_swap_multiset<T>(s: Seq<T>, i: int, j: int)
    requires
        0 <= i < s.len(),
        0 <= j < s.len(),
        i != j,
    ensures
        s.update(i, s[j]).update(j, s[i]).to_multiset() == s.to_multiset(),
{
    broadcast use vstd::seq_lib::group_to_multiset_ensures;
    broadcast use vstd::multiset::group_multiset_axioms;

    let s1 = s.update(i, s[j]);
    assert(s.contains(s[i]));
    assert(s1.contains(s1[i]));
    assert(s1.update(j, s[i]).to_multiset() =~= s.to_multiset());
}

/// Exchanges the elements at positions `i` and `j`.
fn swap_items<T>(v: &mut Vec<T>, i: usize, j: usize)
    requires
        i < j < old(v)@.len(),
    ensures
        final(v)@ == old(v)@.update(i as int, old(v)@[j as int]).update(
            j as int,
            old(v)@[i as int],
        ),
{
    let x = v.remove(j);
    let y = v.remove(i);
    v.insert(i, x);
    v.insert(j, y);
    proof {
        assert(v@ =~= old(v)@.update(i as int, old(v)@[j as int]).update(
            j as int,
            old(v)@[i as int],
        ));
    }
}

/// A collection whose elements can be rearranged into a random order.
pub trait ShuffleSlice {
    /// The element type.
    type Item;

    /// The elements the collection holds, in order.
    spec fn contents(&self) -> Seq<Self::Item>;

    /// Shuffles the elements into a random order: the result is exactly
    /// the Fisher-Yates walk of the prior generator state, so the
    /// multiset of elements is preserved, a collection of length at most
    /// 1 is left unchanged, and the generator advances by exactly one
    /// draw per position from the last down to 1.
    fn shuffle(&mut self, rng: &mut Rng)
        ensures
            final(self).contents() == shuffled_seq(
                old(rng).state(),
                old(self).contents(),
                shuffle_draws(old(self).contents().len()),
            ),
            final(self).contents().to_multiset() == old(self).contents().to_multiset(),
            final(self).contents().len() == old(self).contents().len(),
            old(self).contents().len() <= 1 ==> final(self).contents() == old(self).contents(),
            final(rng).state() == wy_iter(
                old(rng).state(),
                shuffle_draws(old(self).contents().len()),
            );
}

impl<T> ShuffleSlice for Vec<T> {
    type Item = T;

    open spec fn contents(&self) -> Seq<T> {
        self@
    }

    fn shuffle(&mut self, rng: &mut Rng) {
        let ghost pre = rng.state();
        let ghost orig = self@;
        let len = self.len();
        proof {
            lemma_wy_iter_zero(pre);
        }
        if len <= 1 {
            return ;
        }
        let mut idx: usize = len - 1;
        while 1 <= idx
            invariant
                1 <= len,
                idx <= len - 1,
                self@.len() == len,
                len == orig.len(),
                self@ == shuffled_seq(pre, orig, (len - 1 - idx) as nat),
                self@.to_multiset() == orig.to_multiset(),
                rng.state() == wy_iter(pre, (len - 1 - idx) as nat),
            decreases idx,
        {
            proof {
                lemma_wy_iter_succ(pre, (len - 1 - idx) as nat);
            }
            let ghost before = self@;
            let j: usize = rng.gen_range(Bounds::range_inclusive(0usize, idx));
            if j != idx {
                swap_items(self, j, idx);
                proof {
                    lemma_swap_multiset(before, j as int, idx as int);
                    assert(self@ =~= before.update(idx as int, before[j as int]).update(
                        j as int,
                        before[idx as int],
                    ));
                }
            } else {
                proof {
                    assert(self@ =~= before.update(idx as int, before[j as int]).update(
                        j as int,
                        before[idx as int],
                    ));
                }
            }
            proof {
                assert(self@ == shuffled_seq(pre, orig, (len - idx) as nat));
            }
            idx = idx - 1;
        }
    }
}

} // verus!
