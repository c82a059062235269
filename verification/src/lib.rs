//! A collection of small verified components, centred on an arithmetic
//! expression evaluator over a boxed binary tree.

pub mod arrays;
pub mod decimal;
pub mod elevator;
pub mod expr;
pub mod generics;
pub mod geometry;
pub mod logging;
pub mod numbers;
pub mod packages;
pub mod pets;
pub mod race;
