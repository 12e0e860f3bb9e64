//! The cell through which the two sides of a portal share their state.

use vstd::prelude::*;
use vstd::cell::invcell::InvCell;

verus! {

/// The predicate of a cell whose contents are not constrained.
pub struct AnyValue;

impl<T> vstd::predicate::Predicate<T> for AnyValue {
    open spec fn predicate(&self, v: T) -> bool {
        true
    }
}

/// A cell that can be written through a shared reference.
pub struct XRefCell<T> {
    value: InvCell<T, AnyValue>,
}

impl<T> XRefCell<T> {
    /// Creates a cell holding `value`.
    pub fn new(value: T) -> Self {
        XRefCell { value: InvCell::new(value, Ghost(AnyValue)) }
    }

    /// Stores `value` and returns what the cell held before.
    pub fn replace(&self, value: T) -> T {
        self.value.replace(value)
    }
}

/// The cell that both sides of a portal hold a handle to.
pub struct OptimizedRefCell<T>(XRefCell<T>);

impl<T> OptimizedRefCell<T> {
    /// Creates a cell holding `value`.
    pub fn new(value: T) -> Self {
        OptimizedRefCell(XRefCell::new(value))
    }

    /// Stores `value` and returns what the cell held before.
    pub fn replace(&self, value: T) -> T {
        self.0.replace(value)
    }
}

} // verus!
