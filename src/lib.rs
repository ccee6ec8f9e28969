//! A shogi session controller: it turns board and hand clicks into complete
//! moves, asks the rules engine which moves are legal on throwaway copies of
//! the position, and keeps the position in sync with a shareable URL fragment.
pub mod pieces;
pub mod engine;
pub mod intent;
pub mod codec;
pub mod session;
