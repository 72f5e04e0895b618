//! The mode of a circuit variable.

use vstd::prelude::*;

verus! {

/// Where a circuit variable comes from, and who sees it.
#[derive(Clone, Copy, Debug, PartialEq, Eq, Hash, Structural)]
pub enum Mode {
    /// A value fixed by the circuit.
    Constant,
    /// A public input.
    Public,
    /// A private witness.
    Private,
}

impl Mode {
    /// Returns `true` if the mode is a constant.
    pub fn is_constant(&self) -> (r: bool)
        ensures
            r == (*self is Constant),
    {
        match self {
            Mode::Constant => true,
            _ => false,
        }
    }

    /// Returns `true` if the mode is public.
    pub fn is_public(&self) -> (r: bool)
        ensures
            r == (*self is Public),
    {
        match self {
            Mode::Public => true,
            _ => false,
        }
    }

    /// Returns `true` if the mode is private.
    pub fn is_private(&self) -> (r: bool)
        ensures
            r == (*self is Private),
    {
        match self {
            Mode::Private => true,
            _ => false,
        }
    }
}

} // verus!
