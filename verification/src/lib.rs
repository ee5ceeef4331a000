//! A small interactive text-editing core: a Unicode-aware line and buffer
//! model, text-space to screen-space coordinate mapping, a scroll viewport,
//! and a command dispatcher. Terminal I/O lives outside this crate.

use vstd::prelude::*;

pub mod buffer;
pub mod editor;
pub mod editorcommand;
pub mod line;
pub mod screen;
pub mod unicode;
pub mod view;

pub use screen::{Position, Size};

verus! {

/// An integer clamped from above to the largest `usize` value: the result of
/// a saturating `usize` addition, seen mathematically.
pub open spec fn cap_usize(x: int) -> int {
    if x > usize::MAX as int {
        usize::MAX as int
    } else {
        x
    }
}

/// An integer clamped from below to zero: the result of a saturating `usize`
/// subtraction, seen mathematically.
pub open spec fn max0(x: int) -> int {
    if x < 0 {
        0
    } else {
        x
    }
}

} // verus!
