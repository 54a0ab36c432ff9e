//! A singly-linked stack with owning, shared and exclusive traversal.
pub mod laws;
pub mod list;

pub use list::{IntoIter, Iter, IterMut, List};
