//! Verified core of a squircle-outline generator: the fixed corner/side
//! adjacency of a rectangle, the order in which corners are processed when
//! edge length is distributed among them, the rule that picks each corner's
//! budget formula, and the fixed walk that assembles the outline path.

pub mod distribute;
pub mod draw;
