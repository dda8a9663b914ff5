pub mod text;
pub mod numbers;
pub mod utils;
pub mod jiosaavn;
pub mod config;
pub mod player;
pub mod bot;
pub mod voice_chat;
pub mod session;
pub mod registry;
