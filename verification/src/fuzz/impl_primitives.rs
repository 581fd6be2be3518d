//! Direct [`RandomInstance`] implementations for the primitive types:
//! integers, characters and text delegate to their primitive draw; a
//! boolean is a fair coin.

use vstd::prelude::*;

use crate::fuzz::RandomInstance;
use crate::gen_value::RandomValue;
use crate::rng::Rng;
use crate::rng::unit_bits_of;
use crate::rng::wy_step;

verus! {

impl RandomInstance for u8 {
    open spec fn inst_ens(pre: u64, post: u64, r: u8) -> bool {
        <u8 as RandomValue>::gen_ens(pre, post, r)
    }

    fn random_instance(rng: &mut Rng) -> (r: u8) {
        rng.gen_value()
    }
}

impl RandomInstance for u16 {
    open spec fn inst_ens(pre: u64, post: u64, r: u16) -> bool {
        <u16 as RandomValue>::gen_ens(pre, post, r)
    }

    fn random_instance(rng: &mut Rng) -> (r: u16) {
        rng.gen_value()
    }
}

impl RandomInstance for u32 {
    open spec fn inst_ens(pre: u64, post: u64, r: u32) -> bool {
        <u32 as RandomValue>::gen_ens(pre, post, r)
    }

    fn random_instance(rng: &mut Rng) -> (r: u32) {
        rng.gen_value()
    }
}

impl RandomInstance for u64 {
    open spec fn inst_ens(pre: u64, post: u64, r: u64) -> bool {
        <u64 as RandomValue>::gen_ens(pre, post, r)
    }

    fn random_instance(rng: &mut Rng) -> (r: u64) {
        rng.gen_value()
    }
}

impl RandomInstance for u128 {
    open spec fn inst_ens(pre: u64, post: u64, r: u128) -> bool {
        <u128 as RandomValue>::gen_ens(pre, post, r)
    }

    fn random_instance(rng: &mut Rng) -> (r: u128) {
        rng.gen_value()
    }
}

impl RandomInstance for usize {
    open spec fn inst_ens(pre: u64, post: u64, r: usize) -> bool {
        <usize as RandomValue>::gen_ens(pre, post, r)
    }

    fn random_instance(rng: &mut Rng) -> (r: usize) {
        rng.gen_value()
    }
}

impl RandomInstance for i8 {
    open spec fn inst_ens(pre: u64, post: u64, r: i8) -> bool {
        <i8 as RandomValue>::gen_ens(pre, post, r)
    }

    fn random_instance(rng: &mut Rng) -> (r: i8) {
        rng.gen_value()
    }
}

impl RandomInstance for i16 {
    open spec fn inst_ens(pre: u64, post: u64, r: i16) -> bool {
        <i16 as RandomValue>::gen_ens(pre, post, r)
    }

    fn random_instance(rng: &mut Rng) -> (r: i16) {
        rng.gen_value()
    }
}

impl RandomInstance for i32 {
    open spec fn inst_ens(pre: u64, post: u64, r: i32) -> bool {
        <i32 as RandomValue>::gen_ens(pre, post, r)
    }

    fn random_instance(rng: &mut Rng) -> (r: i32) {
        rng.gen_value()
    }
}

impl RandomInstance for i64 {
    open spec fn inst_ens(pre: u64, post: u64, r: i64) -> bool {
        <i64 as RandomValue>::gen_ens(pre, post, r)
    }

    fn random_instance(rng: &mut Rng) -> (r: i64) {
        rng.gen_value()
    }
}

impl RandomInstance for i128 {
    open spec fn inst_ens(pre: u64, post: u64, r: i128) -> bool {
        <i128 as RandomValue>::gen_ens(pre, post, r)
    }

    fn random_instance(rng: &mut Rng) -> (r: i128) {
        rng.gen_value()
    }
}

impl RandomInstance for isize {
    open spec fn inst_ens(pre: u64, post: u64, r: isize) -> bool {
        <isize as RandomValue>::gen_ens(pre, post, r)
    }

    fn random_instance(rng: &mut Rng) -> (r: isize) {
        rng.gen_value()
    }
}

impl RandomInstance for char {
    open spec fn inst_ens(pre: u64, post: u64, r: char) -> bool {
        <char as RandomValue>::gen_ens(pre, post, r)
    }

    fn random_instance(rng: &mut Rng) -> (r: char) {
        rng.gen_value()
    }
}

impl RandomInstance for String {
    open spec fn inst_ens(pre: u64, post: u64, r: String) -> bool {
        <String as RandomValue>::gen_ens(pre, post, r)
    }

    fn random_instance(rng: &mut Rng) -> (r: String) {
        rng.gen_value()
    }
}

impl RandomInstance for bool {
    /// A fair coin: true exactly when the unit draw falls in the lower
    /// half of the unit interval.
    open spec fn inst_ens(pre: u64, post: u64, r: bool) -> bool {
        &&& post == wy_step(pre)
        &&& r == (unit_bits_of(post) < 0x10000000000000)
    }

    fn random_instance(rng: &mut Rng) -> (r: bool) {
        let u = rng.next_unit_bits();
        u < 0x10000000000000
    }
}

} // verus!
