//! [`RandomInstance`] composed recursively over containers and tuples:
//! an optional is absent with a fair coin, a growable sequence draws a
//! length below 512 and generates that many elements, and a tuple
//! generates each component left to right.

use std::collections::VecDeque;

use vstd::prelude::*;

use crate::fuzz::RandomInstance;
use crate::fuzz::gen_chain;
use crate::gen_range::Bounds;
use crate::rng::Rng;
use crate::rng::unit_bits_of;
use crate::rng::wy_out;
use crate::rng::wy_step;

verus! {

/// The exclusive upper bound on the length of a generated collection.
pub const MAX_ELEMENTS: usize = 512;

impl<T: RandomInstance> RandomInstance for Option<T> {
    /// A fair coin decides absence; a present value is generated from
    /// the state after the coin draw.
    open spec fn inst_ens(pre: u64, post: u64, r: Option<T>) -> bool {
        let s1 = wy_step(pre);
        match r {
            None => unit_bits_of(s1) < 0x10000000000000 && post == s1,
            Some(t) => unit_bits_of(s1) >= 0x10000000000000 && T::inst_ens(s1, post, t),
        }
    }

    fn random_instance(rng: &mut Rng) -> (r: Option<T>) {
        let u = rng.next_unit_bits();
        if u < 0x10000000000000 {
            None
        } else {
            Some(T::random_instance(rng))
        }
    }
}

impl<T: RandomInstance> RandomInstance for Vec<T> {
    /// The first draw fixes the length, below [`MAX_ELEMENTS`]; the
    /// elements are generated one after another from the state chain.
    open spec fn inst_ens(pre: u64, post: u64, r: Vec<T>) -> bool {
        let s1 = wy_step(pre);
        &&& r@.len() == (wy_out(s1) as int) % (MAX_ELEMENTS as int)
        &&& exists|sts: Seq<u64>| gen_chain(s1, post, sts, r@)
    }

    fn random_instance(rng: &mut Rng) -> (r: Vec<T>) {
        let len: usize = rng.gen_range(Bounds::range(0usize, MAX_ELEMENTS));
        let ghost s1 = rng.state();
        let mut v: Vec<T> = Vec::new();
        let ghost mut sts: Seq<u64> = seq![s1];
        let mut k: usize = 0;
        while k < len
            invariant
                k <= len,
                v@.len() == k,
                sts.len() == k + 1,
                sts[0] == s1,
                sts[k as int] == rng.state(),
                forall|q: int|
                    0 <= q < k ==> #[trigger] T::inst_ens(sts[q], sts[q + 1], v@[q]),
            decreases len - k,
        {
            let item = T::random_instance(rng);
            v.push(item);
            proof {
                sts = sts.push(rng.state());
            }
            k = k + 1;
        }
        proof {
            assert(gen_chain(s1, rng.state(), sts, v@));
        }
        v
    }
}

impl<T: RandomInstance> RandomInstance for VecDeque<T> {
    /// The first draw fixes the length, below [`MAX_ELEMENTS`]; the
    /// elements are generated one after another from the state chain.
    open spec fn inst_ens(pre: u64, post: u64, r: VecDeque<T>) -> bool {
        let s1 = wy_step(pre);
        &&& r@.len() == (wy_out(s1) as int) % (MAX_ELEMENTS as int)
        &&& exists|sts: Seq<u64>| gen_chain(s1, post, sts, r@)
    }

    fn random_instance(rng: &mut Rng) -> (r: VecDeque<T>) {
        let len: usize = rng.gen_range(Bounds::range(0usize, MAX_ELEMENTS));
        let ghost s1 = rng.state();
        let mut v: VecDeque<T> = VecDeque::new();
        let ghost mut sts: Seq<u64> = seq![s1];
        let mut k: usize = 0;
        while k < len
            invariant
                k <= len,
                v@.len() == k,
                sts.len() == k + 1,
                sts[0] == s1,
                sts[k as int] == rng.state(),
                forall|q: int|
                    0 <= q < k ==> #[trigger] T::inst_ens(sts[q], sts[q + 1], v@[q]),
            decreases len - k,
        {
            let item = T::random_instance(rng);
            v.push_back(item);
            proof {
                sts = sts.push(rng.state());
            }
            k = k + 1;
        }
        proof {
            assert(gen_chain(s1, rng.state(), sts, v@));
        }
        v
    }
}

impl<T1: RandomInstance, T2: RandomInstance> RandomInstance for (T1, T2) {
    /// The components are generated left to right through a chained
    /// intermediate state.
    open spec fn inst_ens(pre: u64, post: u64, r: (T1, T2)) -> bool {
        exists|m1: u64| #[trigger] T1::inst_ens(pre, m1, r.0) && T2::inst_ens(m1, post, r.1)
    }

    fn random_instance(rng: &mut Rng) -> (r: (T1, T2)) {
        let ghost pre = rng.state();
        let a = T1::random_instance(rng);
        let ghost m1 = rng.state();
        let b = T2::random_instance(rng);
        let out = (a, b);
        proof {
            assert(T1::inst_ens(pre, m1, out.0) && T2::inst_ens(m1, rng.state(), out.1));
        }
        out
    }
}

impl<T1: RandomInstance, T2: RandomInstance, T3: RandomInstance> RandomInstance for (T1, T2, T3) {
    /// The components are generated left to right through chained
    /// intermediate states.
    open spec fn inst_ens(pre: u64, post: u64, r: (T1, T2, T3)) -> bool {
        exists|m1: u64, m2: u64|
            #[trigger] T1::inst_ens(pre, m1, r.0) && #[trigger] T2::inst_ens(m1, m2, r.1)
                && T3::inst_ens(m2, post, r.2)
    }

    fn random_instance(rng: &mut Rng) -> (r: (T1, T2, T3)) {
        let ghost pre = rng.state();
        let a = T1::random_instance(rng);
        let ghost m1 = rng.state();
        let b = T2::random_instance(rng);
        let ghost m2 = rng.state();
        let c = T3::random_instance(rng);
        let out = (a, b, c);
        proof {
            assert(T1::inst_ens(pre, m1, out.0) && T2::inst_ens(m1, m2, out.1) && T3::inst_ens(
                m2,
                rng.state(),
                out.2,
            ));
        }
        out
    }
}

impl<
    T1: RandomInstance,
    T2: RandomInstance,
    T3: RandomInstance,
    T4: RandomInstance,
> RandomInstance for (T1, T2, T3, T4) {
    /// The components are generated left to right through chained
    /// intermediate states.
    open spec fn inst_ens(pre: u64, post: u64, r: (T1, T2, T3, T4)) -> bool {
        exists|m1: u64, m2: u64, m3: u64|
            #[trigger] T1::inst_ens(pre, m1, r.0) && #[trigger] T2::inst_ens(m1, m2, r.1)
                && #[trigger] T3::inst_ens(m2, m3, r.2) && T4::inst_ens(m3, post, r.3)
    }

    fn random_instance(rng: &mut Rng) -> (r: (T1, T2, T3, T4)) {
        let ghost pre = rng.state();
        let a = T1::random_instance(rng);
        let ghost m1 = rng.state();
        let b = T2::random_instance(rng);
        let ghost m2 = rng.state();
        let c = T3::random_instance(rng);
        let ghost m3 = rng.state();
        let d = T4::random_instance(rng);
        let out = (a, b, c, d);
        proof {
            assert(T1::inst_ens(pre, m1, out.0) && T2::inst_ens(m1, m2, out.1) && T3::inst_ens(
                m2,
                m3,
                out.2,
            ) && T4::inst_ens(m3, rng.state(), out.3));
        }
        out
    }
}

} // verus!
