//! A tic-tac-toe rule engine: the classic 3×3 board, its N×N "m-in-a-row"
//! generalisation and the nested variant in which every cell of a meta-board
//! is a game of its own, together with the screens that drive them.

pub mod action;
pub mod app;
pub mod components;
pub mod event;
pub mod game;
pub mod line;
