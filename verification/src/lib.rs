//! Bounded integers: unsigned 8-bit counters that wrap around at a boundary.
//!
//! A [`Bint`] holds a value and an exclusive upper bound. Stepping it up from
//! `boundary - 1` gives 0, and stepping it down from 0 gives `boundary - 1`.
//! Every operation returns a fresh `Bint` and leaves its argument untouched.
//!
//! The contracts are stated over [`BintView`], the same counter over the
//! natural numbers; [`cycle`] proves how the steps fit together, and
//! [`decimal`] says what the text of a value is.
pub mod bounded;
pub mod cycle;
pub mod decimal;

pub use bounded::Bint;
pub use bounded::BintView;
