pub mod game;
pub mod settings;
