//! Whole-word match validation.
//!
//! Given a text and candidate spans `(start_pos, length)` in character
//! positions, each span is accepted only when it lies in range and both of
//! its flanks (or the text's own start / end) are delimiter characters.
//! Accepted spans yield the matched substring; all others are rejected.

pub mod batch;
pub mod boundary;
pub mod delimiter;
pub mod extract;
pub mod laws;
