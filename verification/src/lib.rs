pub mod coords;
pub mod engine;
pub mod fen;
pub mod game;
pub mod model;
pub mod selector;
