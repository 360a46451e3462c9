//! Translation of a live stream of keystrokes into the commands of a modal
//! ("vi-style") editor: repeat counts, operators, motions and text objects.
pub mod grammar;
pub mod laws;
pub mod modes;
