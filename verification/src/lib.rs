//! Board representation for a chess engine: squares, compass directions,
//! sixty-four-bit square sets and the aggregate board built from them.

pub mod bitboard;
pub mod board;
pub mod color;
pub mod dir;
pub mod piece;
pub mod square;

pub use bitboard::Bitboard;
pub use board::Board;
pub use color::Color;
pub use dir::Dir;
pub use piece::Piece;
pub use square::Square;
