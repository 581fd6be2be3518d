//! A deterministic, seedable random-data generation library for
//! property-based and fuzz-style testing.
//!
//! A [`Rng`] is a 64-bit WyRand-style generator; everything else derives
//! from its stream: typed primitive values ([`RandomValue`]), bias-bounded
//! range draws ([`RandomRange`]), slice sampling ([`SampleSlice`]),
//! in-place shuffling ([`ShuffleSlice`]), weighted table lookup
//! ([`cdf_index`]) and recursive instance construction ([`RandomInstance`]).

mod fuzz;
mod gen_range;
mod gen_value;
mod rng;
mod sample;
mod shuffle;

pub use fuzz::MAX_ELEMENTS;
pub use fuzz::RandomInstance;
pub use fuzz::gen_chain;
pub use gen_range::Bounds;
pub use gen_range::RandomRange;
pub use gen_range::RangeBound;
pub use gen_value::RandomValue;
pub use gen_value::printable_of;
pub use rng::Rng;
pub use rng::lemma_seed_determines_stream;
pub use rng::nth_draw;
pub use rng::stream_out;
pub use rng::wy_iter;
pub use rng::wy_out;
pub use rng::wy_step;
pub use sample::SampleSlice;
pub use sample::cdf_index;
pub use sample::deref_seq;
pub use sample::monotone;
pub use sample::picks_distinct;
pub use sample::select_seq;
pub use shuffle::ShuffleSlice;
pub use shuffle::shuffle_draws;
