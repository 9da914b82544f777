//! A small motion-controller library: a scalar position advances by a signed
//! step under a fixed-rate timing gate, wrapping around a boundary with a
//! non-negative (signed) modulo.

pub mod modular;
pub mod motion;
