//! Recursive random-instance construction: a capability every
//! generatable type implements — "produce one random value of this type
//! given a generator handle" — implemented directly for primitives and
//! composed recursively over containers and tuples.
//!
//! Externally declared composite types take part by implementing
//! [`RandomInstance`] by hand: a record generates each field in
//! declaration order; a tagged union first draws a variant index
//! uniformly and then generates that variant's fields; a unit type
//! produces its single value with no draws.

use vstd::prelude::*;

use crate::rng::Rng;

mod impl_collections;
mod impl_primitives;

pub use impl_collections::MAX_ELEMENTS;

verus! {

/// A type that can produce one random instance of itself from a
/// generator handle.
///
/// Each of the library's implementations fixes, through `inst_ens`, what
/// relates the generator state before the construction, the state after
/// it, and the produced value: draws happen in a fixed left-to-right
/// order, so a fixed seed deterministically reproduces the same
/// composite instance. An externally declared composite type may leave
/// `inst_ens` at its vacuous default.
pub trait RandomInstance: Sized {
    /// Relates the generator state before the construction (`pre`), the
    /// state after it (`post`), and the produced value `r`.
    open spec fn inst_ens(pre: u64, post: u64, r: Self) -> bool {
        true
    }

    /// Produces one random value of `Self`.
    fn random_instance(rng: &mut Rng) -> (r: Self)
        ensures
            Self::inst_ens(old(rng).state(), final(rng).state(), r);
}

/// The elements of `items` were generated one after another: `sts` is
/// the chain of generator states threaded through them, starting at
/// `s_in` and ending at `s_out`.
pub open spec fn gen_chain<T: RandomInstance>(
    s_in: u64,
    s_out: u64,
    sts: Seq<u64>,
    items: Seq<T>,
) -> bool {
    &&& sts.len() == items.len() + 1
    &&& sts[0] == s_in
    &&& sts[items.len() as int] == s_out
    &&& forall|k: int| 0 <= k < items.len() ==> #[trigger] T::inst_ens(sts[k], sts[k + 1], items[k])
}

} // verus!
