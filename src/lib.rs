//! Fixed-point numbers over machine integers.
//!
//! A value `Fyx<T, Q>` holds a raw integer of type `T` and stands for
//! `raw / 2^Q`.  Arithmetic works on the raw integers alone; multiplication
//! and division go through the next wider integer type.
pub mod arith;
pub mod fixed;
pub mod integer;
pub mod machine;
pub mod widen;

pub use fixed::Fyx;
pub use integer::Integer;
pub use widen::{Shrink, Widen};
