//! A wrapper around one unary function, with lazy and type-safe composition.
//!
//! [`FBox`] owns a callable from an input type to an output type. It can be
//! invoked by reference ([`Apply`]) or by value ([`ApplyDrop`]), and chained
//! with further callables or boxes into a new box. Nothing runs until the
//! box is invoked.
//!
//! What a box does is described by its [`Contract`]: the inputs it admits
//! and the outputs it may give on each of them.
pub mod contract;
pub mod laws;
pub mod wrapper;

pub use contract::Contract;
pub use wrapper::{Apply, ApplyDrop, FBox};
