//! A generic last-in-first-out container.
//!
//! [`Stack`] owns an ordered sequence of elements whose last element is the
//! top. Besides push, pop, peek, size queries and clearing, it offers three
//! traversals in pop order: a consuming one ([`IntoIter`]), a read-only one
//! ([`Iter`]) and a mutating one ([`IterMut`]).

pub mod laws;
pub mod stack;

pub use stack::IntoIter;
pub use stack::Iter;
pub use stack::IterMut;
pub use stack::Stack;
