//! Game logic for the Royal Game of Ur (Finkel rules), with its contracts
//! proved by Verus.

pub mod animation;
pub mod app;
pub mod board;
pub mod dice;
pub mod gameplay;
pub mod input;
pub mod laws;
pub mod navigation;
pub mod panel;
pub mod play_laws;
pub mod player;
pub mod state;
pub mod text;
