//! Validation and sheet derivation for a character builder.
//!
//! A character is described by a base block of ability scores plus a tree of
//! grants contributed by its class(es) and race.  This crate flattens that
//! tree into an ordered sequence of grants and folds the sequence into the
//! derived statistics of a character sheet: ability modifiers, armor class,
//! size, languages and proficiencies.

use vstd::prelude::*;

pub mod api;
pub mod assets;
pub mod character;
pub mod character_sheet;

verus! {

/// Validation Error
#[derive(Debug, Clone, Copy)]
pub struct ValidatorError;

} // verus!
