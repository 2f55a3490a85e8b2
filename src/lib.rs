//! Chat-driven keyboard replay: commands typed in a chat channel become
//! repeatable key-press sequences, replayed one repetition per tick while the
//! target game holds the input focus.
pub mod game;
pub mod model;
