//! Indicator cells of the notation, as dot numbers.

use vstd::prelude::*;

verus! {

/// Numeral indicator.
pub const NUMBER_SIGN: usize = 3456;

/// Stands for a character that the notation has no cell for.
pub const PLACEHOLDER: usize = 123456;

pub const SMALL_GREEK_PREFIX: usize = 56;

pub const CAPITAL_GREEK_PREFIX: usize = 456;

pub const SMALL_LATIN_PREFIX: usize = 6;

pub const CAPITAL_LATIN_PREFIX: usize = 46;

pub const SMALL_FRAKTUR_PREFIX: usize = 5;

pub const CAPITAL_FRAKTUR_PREFIX: usize = 45;

pub const BOLD_PREFIX: usize = 1456;

pub const CALLIGRAPHIC_PREFIX: usize = 346;

pub const BOLD_CALLIGRAPHIC_PREFIX: usize = 3456;

pub const DOUBLESTRUCK_PREFIX: usize = 12456;

} // verus!
