//! A fixed-capacity last-in-first-out container with explicit overflow and
//! underflow errors.
pub mod stack;
pub mod laws;
