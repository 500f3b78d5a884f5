//! Optimization barriers that leave memory as it is.
//!
//! The functions of [`barrier`] make the optimizer believe that a value has
//! been read and modified in ways it cannot predict, while in fact nothing
//! changes. Code that wipes secrets before a value is dropped uses them so
//! that its stores are not removed as dead.
pub mod barrier;
mod instruction;
