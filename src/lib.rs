//! A growable sequence container that manages its own buffer, with shared,
//! exclusive and consuming iteration.

pub mod iter;
pub mod laws;
pub mod toy_vec;

pub use iter::{IntoIter, Iter, IterMut};
pub use toy_vec::ToyVec;
