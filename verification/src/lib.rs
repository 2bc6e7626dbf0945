//! Natural ("human") sort ordering of strings.
//!
//! A string is split into alternating runs of text and numbers; text runs are
//! compared as text and number runs as numbers, so that `"file2"` sorts before
//! `"file10"`. The flags ([`Ns`]) choose how numbers are read (integers, signed
//! integers, floating point, signed floating point) and how text is folded
//! (case swap, letter grouping, case-insensitive).
//!
//! Numbers are read from every Unicode decimal digit; digits that are not
//! decimal digits (superscripts, circled digits and the like) are single-digit
//! numbers of their own, and under the float algorithms so are all other numeric
//! characters (fractions, Roman numerals, numeric ideographs). Integers keep
//! their value however many digits they have. Case-insensitive comparison uses
//! full Unicode case folding. Strings are read in their canonical decomposition
//! (Unicode normalization form NFD), so canonically equivalent strings compare equal.
//!
//! Floating point values are not computed here: under the float algorithms the
//! caller parses the texts that [`number_texts`] returns as `f64` and hands their
//! bit patterns (`f64::to_bits`) to [`natsort_key`], [`compare`] or [`natsorted_by`].

pub mod chars;
pub mod cli;
pub mod compare;
pub mod flags;
pub mod key;
pub mod normalize;
pub mod number;
pub mod order;
pub mod scan;
pub mod sort;
pub mod text;
pub mod unicode;

pub use cli::{apply_flag, parse_flags};
pub use compare::compare;
pub use flags::Ns;
pub use key::{natsort_key, natsort_keygen, number_texts, Chunk};
pub use sort::{natsorted, natsorted_by, realsorted};
