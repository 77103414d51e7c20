//! Discrete logic of a one-dimensional equilibrium solver for layered
//! semiconductor devices: interpolation index selection, the dimension rules
//! of the tridiagonal primitive, the control decisions of the bisection and
//! Newton–Poisson loops, and the plotting file layout.

pub mod doping;
pub mod error;
pub mod interp;
pub mod pyvi;
pub mod roots;
pub mod steady;
pub mod tridiag;

pub use error::SimError;
