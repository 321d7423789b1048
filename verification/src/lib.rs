//! Core model of a chessboard viewer: a bit-packed piece codec, a 64-square
//! board with a side-to-move flag, and the pointer-to-square mapping used by
//! drag-and-drop. Rendering and input handling live outside this crate.

pub mod board;
pub mod mapping;
pub mod piece;
