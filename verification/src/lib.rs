//! The edge state of a 3x3 cube, held in its raw encoding.
//!
//! A [`Cube`] owns the raw words that encode where the twelve edge pieces sit
//! and how they are turned. The layout of those words belongs to whoever
//! produced them; this crate carries them, unchanged, and hands out copies.

pub mod cube;
pub mod laws;

pub use cube::Cube;
pub use cube::EDGE_WORDS;
