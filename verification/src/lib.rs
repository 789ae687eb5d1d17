pub mod chess;
pub mod utils;
