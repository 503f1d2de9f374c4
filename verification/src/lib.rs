//! The logic of a chess board view: a controller that turns mouse events on
//! the board into board updates and into signals for the user interface,
//! and the model of the interface object that shows those signals.
pub mod chess;
pub mod position;
pub mod signals;
pub mod slots;
pub mod board;
pub mod controller;
pub mod board_con;
pub mod laws;
