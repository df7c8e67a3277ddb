//! Board-specific pin assignments.
pub mod brd2601b;
pub mod brd4186c;
