//! Classical Attic Greek numerals.
//!
//! A bounded, validated integer type together with a greedy renderer that
//! turns it into the Attic alphabetic numeral notation, in an uppercase or a
//! lowercase glyph set. Two range variants are offered: [`standard`] covers
//! `0..=9_999` and [`extended`] covers `0..=999_999`; both decompose their
//! value against the same descending symbol table.

use vstd::prelude::*;

pub mod extended;
pub mod render;
pub mod standard;
pub mod table;

verus! {

/// Returned as an error if a numeral is constructed with an invalid input:
/// the value is negative, too wide for `u32`, or above the variant's bound.
#[derive(Debug, Clone, Copy, PartialEq, Eq, Structural)]
pub struct OutOfRangeError;

} // verus!
