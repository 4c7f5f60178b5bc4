//! Focus changes a component is told of.
use vstd::prelude::*;

verus! {

/// Whether a component gained or lost the focus.
#[derive(Debug, Clone, Copy, PartialEq, Eq, Structural)]
pub enum FocusChange {
    Focused,
    Unfocused,
}

} // verus!
