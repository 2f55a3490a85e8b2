pub mod app_model;
pub mod bot;
pub mod key;
pub mod text;
