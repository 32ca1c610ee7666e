//! Short adventure descriptions assembled from genre, difficulty and length,
//! and the session logic of the terminal program that presents them.

pub mod adventure;
pub mod ai_client;
pub mod game_state;
pub mod random;
pub mod session;
pub mod text;
pub mod ui;
