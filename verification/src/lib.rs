//! A bit field abstraction for the atomic integers of `core`.
//!
//! [`AtomicBitField`] treats an atomic integer as a row of flags that can be
//! read, set, reset, toggled and swapped one at a time, each with a single
//! atomic access. The bit logic is verified:
//!
//! * [`word`] describes an integer as a row of flags and the masks that single
//!   out one of them; [`unsigned`] and [`signed`] provide it for every width.
//! * [`step`] names the word that each operation leaves behind, and [`laws`]
//!   proves what holds of those words.
//! * [`field`] holds the trait and its implementations for the atomics.
//! * [`extract`] holds the contracts that are assumed of `bit_field`.

pub mod extract;
pub mod field;
pub mod laws;
pub mod signed;
pub mod step;
pub mod unsigned;
pub mod word;

pub use field::AtomicBitField;
pub use word::BitWord;
