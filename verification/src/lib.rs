//! Game logic of a chess board application: board squares and pieces, the
//! bookkeeping of the board state, the mouse selection state machine, captures,
//! the engine protocol and the FEN editor.

pub mod piece;
pub mod square;
pub mod text;
pub mod chess_calls;
pub mod fen_fields;
pub mod position;
pub mod board_state;
pub mod game;
pub mod selection;
pub mod moves;
pub mod captures;
pub mod stockfish;
pub mod stockfish_build;
pub mod fen_popup;
pub mod end_game;
pub mod board_ui;
pub mod promotion;
pub mod indicators;
