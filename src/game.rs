pub mod ftl;
pub mod nds;
pub mod supported_game;
