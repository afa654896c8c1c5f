//! A branching-narrative game runtime: a dense graph of stages whose options
//! are gated by conditions over numeric stats, a load-time validator that
//! turns author-chosen identifiers into verified array positions, and a
//! turn-based engine that walks the graph one action at a time.
pub mod game_components;
pub mod game_state;
pub mod laws;
pub mod loader;
pub mod misc;
pub mod navigation;
pub mod validation;
