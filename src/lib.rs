//! A keyboard-driven directory browser: the listing of a directory, the
//! viewport and cursor state machine that moves over it, and the parser of
//! vim-style key commands that drives the state machine.
pub mod app;
pub mod laws;
pub mod listing;
pub mod nav;
pub mod position;
