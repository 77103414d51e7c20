use vstd::prelude::*;

verus! {

/// The kind of a dopant species.
#[derive(Debug, Clone, Copy, PartialEq, Eq, Structural)]
pub enum Types {
    Acceptor,
    Donor,
}

impl Types {
    /// The sign of the charge that this kind of dopant carries: an acceptor
    /// contributes `-q·N`, a donor `+q·N`.
    pub fn charge_sign(&self) -> (r: i8)
        ensures
            *self == Types::Acceptor ==> r == -1,
            *self == Types::Donor ==> r == 1,
    {
        match self {
            Types::Acceptor => -1,
            Types::Donor => 1,
        }
    }
}

} // verus!
