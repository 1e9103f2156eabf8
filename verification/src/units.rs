//! Lengths of musical time.

use vstd::prelude::*;

verus! {

/// A length of musical time, counted in ticks.
///
/// The caller fixes how many ticks make a whole note; nothing here depends on
/// that choice.
#[derive(Copy, Clone, Debug, PartialEq, Eq, Structural)]
pub struct Units(pub u64);

} // verus!
