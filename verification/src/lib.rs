//! Small iteration utilities that avoid heap-allocated collections.
//!
//! The crate offers two independent pieces:
//!
//! - [`fixed::FixedOwnedIterator`]: an iterator over a fixed list of owned
//!   values, handed out by move, in order, exactly once each.
//! - [`maybe::MaybeMany`]: a three-variant union holding zero, one, or many
//!   values, with a uniform conversion to an iterator.

pub mod fixed;
pub mod maybe;
