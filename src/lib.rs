//! Two small command-line exercises as a verified library: a greedy change
//! counter over a fixed coin set, a two-sided staircase renderer, and the
//! decisions of the interactive readers of an amount and of a height.

pub mod coins;
pub mod pyramid;
pub mod entry;
