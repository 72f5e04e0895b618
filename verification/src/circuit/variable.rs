//! Circuit variables: handles into a constraint system.

use crate::circuit::mode::Mode;
use crate::field::Field;
use vstd::prelude::*;
use vstd::std_specs::cmp::PartialEqSpecImpl;

verus! {

/// A variable of a constraint system: its mode, its place in the order of
/// allocation, and the value assigned to it.
#[derive(Clone, Copy, Debug)]
pub struct Variable {
    mode: Mode,
    index: usize,
    value: Field,
}

impl Variable {
    /// The mode that the variable was allocated in.
    pub closed spec fn spec_mode(&self) -> Mode {
        self.mode
    }

    /// The identifier of the variable: its place in the order of allocation.
    pub closed spec fn spec_index(&self) -> usize {
        self.index
    }

    /// The value assigned to the variable.
    pub closed spec fn spec_value(&self) -> Field {
        self.value
    }

    /// The handle of the variable allocated at `index`.
    pub fn new(mode: Mode, index: usize, value: Field) -> (r: Variable)
        ensures
            r.spec_mode() == mode,
            r.spec_index() == index,
            r.spec_value() == value,
    {
        Variable { mode, index, value }
    }

    /// Returns the mode of the variable.
    #[verifier::when_used_as_spec(spec_mode)]
    pub fn mode(&self) -> (r: Mode)
        ensures
            r == self.spec_mode(),
    {
        self.mode
    }

    /// Returns the identifier of the variable.
    #[verifier::when_used_as_spec(spec_index)]
    pub fn index(&self) -> (r: usize)
        ensures
            r == self.spec_index(),
    {
        self.index
    }

    /// Returns the value assigned to the variable.
    #[verifier::when_used_as_spec(spec_value)]
    pub fn value(&self) -> (r: Field)
        ensures
            r == self.spec_value(),
    {
        self.value
    }

    /// Returns `true` if the variable is a constant.
    pub fn is_constant(&self) -> (r: bool)
        ensures
            r == (self.spec_mode() is Constant),
    {
        self.mode.is_constant()
    }

    /// Returns `true` if the variable is a public input.
    pub fn is_public(&self) -> (r: bool)
        ensures
            r == (self.spec_mode() is Public),
    {
        self.mode.is_public()
    }

    /// Returns `true` if the variable is a private witness.
    pub fn is_private(&self) -> (r: bool)
        ensures
            r == (self.spec_mode() is Private),
    {
        self.mode.is_private()
    }
}

impl PartialEq for Variable {
    /// Two handles are equal where they name the same variable.
    fn eq(&self, other: &Variable) -> (r: bool) {
        self.index == other.index
    }
}

impl Eq for Variable {

}

impl PartialEqSpecImpl for Variable {
    open spec fn obeys_eq_spec() -> bool {
        true
    }

    open spec fn eq_spec(&self, other: &Variable) -> bool {
        self.spec_index() == other.spec_index()
    }
}

} // verus!
