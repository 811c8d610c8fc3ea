//! Lifecycle state of a register.

use vstd::prelude::*;

verus! {

/// Whether a register currently holds a gateway session.
#[derive(Clone, Copy, Debug, PartialEq, Eq, Structural)]
pub enum CajasEstadoEnum {
    Cerrado,
    Abierto,
}

impl CajasEstadoEnum {
    /// True exactly for `Abierto`.
    pub fn is_abierto(&self) -> (r: bool)
        ensures
            r == (*self == CajasEstadoEnum::Abierto),
    {
        match self {
            CajasEstadoEnum::Abierto => true,
            CajasEstadoEnum::Cerrado => false,
        }
    }
}

} // verus!
