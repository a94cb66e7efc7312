//! A chess position engine with an audio companion.
//!
//! The heart of the crate is the board engine: it keeps the 8x8 position,
//! resolves algebraic notation into fully specified moves, detects attacked
//! squares, and decides check and checkmate by exhaustive legal-move search.
//! Around it sit small pure helpers: notation parsing, square-to-frequency
//! mapping, WAV header layout, and text rendering of the board.

pub mod audio;
pub mod board;
pub mod chess;
pub mod display;
pub mod freq;
pub mod hint;
pub mod notation;
pub mod tui;
pub mod wav;
pub(crate) mod text;

pub use chess::Color;
pub use chess::Piece;
pub use chess::PieceKind;
pub use chess::Square;
