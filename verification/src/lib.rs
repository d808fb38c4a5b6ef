//! Bounded election and candidate-ranking primitives.
//!
//! The crate provides the value types that cap how much data an election may
//! pull from its data provider, the trait family that orchestrates a pluggable
//! election algorithm against that bounded data, the index compression of
//! identifier-keyed stake assignments, and a continuously ordered candidate
//! list keyed by score.

pub mod bounds;
pub mod npos;
pub mod providers;
pub mod ranked_list;
pub mod solver;
