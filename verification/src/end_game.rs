//! The icons shown on the kings' tiles when a game ends: a winner and a loser icon after a
//! checkmate, a draw icon on each king otherwise.
use vstd::prelude::*;

use crate::board_state::{BoardState, Entity, GameStatus};
use crate::game::MenuState;
use crate::piece::PieceColor;
use crate::square::Square;

verus! {

/// An end-of-game icon.
#[derive(Clone, Copy, Debug, PartialEq, Eq, Structural)]
pub enum EndGameIcon {
    Winner,
    LoserBlack,
    LoserWhite,
    DrawBlack,
    DrawWhite,
}

/// The image of an icon.
pub open spec fn spec_icon_path(icon: EndGameIcon) -> Seq<char> {
    match icon {
        EndGameIcon::Winner => "images/checkmate/winner.png"@,
        EndGameIcon::LoserBlack => "images/checkmate/loser-black.png"@,
        EndGameIcon::LoserWhite => "images/checkmate/loser-white.png"@,
        EndGameIcon::DrawBlack => "images/draw/draw-black.png"@,
        EndGameIcon::DrawWhite => "images/draw/draw-white.png"@,
    }
}

impl EndGameIcon {
    /// The image of the icon.
    pub fn asset_path(self) -> (p: &'static str)
        ensures
            p@ == spec_icon_path(self),
    {
        match self {
            EndGameIcon::Winner => "images/checkmate/winner.png",
            EndGameIcon::LoserBlack => "images/checkmate/loser-black.png",
            EndGameIcon::LoserWhite => "images/checkmate/loser-white.png",
            EndGameIcon::DrawBlack => "images/draw/draw-black.png",
            EndGameIcon::DrawWhite => "images/draw/draw-white.png",
        }
    }

    /// All the icons, in the order they are created at startup.
    pub fn all() -> (v: Vec<EndGameIcon>)
        ensures
            v@ == seq![
                EndGameIcon::Winner,
                EndGameIcon::LoserBlack,
                EndGameIcon::LoserWhite,
                EndGameIcon::DrawBlack,
                EndGameIcon::DrawWhite,
            ],
    {
        let mut v: Vec<EndGameIcon> = Vec::new();
        v.push(EndGameIcon::Winner);
        v.push(EndGameIcon::LoserBlack);
        v.push(EndGameIcon::LoserWhite);
        v.push(EndGameIcon::DrawBlack);
        v.push(EndGameIcon::DrawWhite);
        assert(v@ =~= seq![
            EndGameIcon::Winner,
            EndGameIcon::LoserBlack,
            EndGameIcon::LoserWhite,
            EndGameIcon::DrawBlack,
            EndGameIcon::DrawWhite,
        ]);
        v
    }
}

/// Where an icon is shown: on the tile of a square, at an offset in percent of the tile from
/// its top and from its left.
#[derive(Clone, Copy, Debug, PartialEq, Eq, Structural)]
pub struct IconPlacement {
    pub icon: EndGameIcon,
    pub tile: Entity,
    pub square: Square,
    pub top_percent: i8,
    pub left_percent: i8,
}

/// The offset of an icon on a tile: below the top edge on the eighth rank and above it
/// elsewhere; further left on the h file than elsewhere.
pub open spec fn spec_icon_offsets(square: Square) -> (i8, i8) {
    (if square.rank_idx() == 7 { 3i8 } else { -14i8 }, if square.file_idx() == 7 { 57i8 } else { 74i8 })
}

/// The offset of an icon on the tile of a square, in percent of the tile: from the top, then
/// from the left.
pub fn icon_offsets(square: Square) -> (o: (i8, i8))
    ensures
        o == spec_icon_offsets(square),
{
    let top: i8 = if square.get_rank() == 7 { 3 } else { -14 };
    let left: i8 = if square.get_file() == 7 { 57 } else { 74 };
    (top, left)
}

/// The placement of an icon on the tile of a square.
pub open spec fn spec_placement(icon: EndGameIcon, board: BoardState, square: Square) -> IconPlacement {
    IconPlacement {
        icon,
        tile: board.spec_tiles()[square.idx()]->0,
        square,
        top_percent: spec_icon_offsets(square).0,
        left_percent: spec_icon_offsets(square).1,
    }
}

/// The tiles of both kings are known.
pub open spec fn spec_king_tiles_ready(board: BoardState) -> bool {
    &&& board.spec_tiles()[board.spec_position().white_king.idx()] is Some
    &&& board.spec_tiles()[board.spec_position().black_king.idx()] is Some
}

/// The icons after a checkmate: the loser's icon on the king of the side to move, then the
/// winner's icon on the other king.
pub open spec fn spec_checkmate_icons(board: BoardState) -> Seq<IconPlacement> {
    let loser = board.spec_position().side_to_move;
    let loser_icon = match loser {
        PieceColor::Black => EndGameIcon::LoserBlack,
        PieceColor::White => EndGameIcon::LoserWhite,
    };
    seq![
        spec_placement(loser_icon, board, board.spec_position().spec_king_square(loser)),
        spec_placement(EndGameIcon::Winner, board, board.spec_position().spec_king_square(loser.opponent())),
    ]
}

/// The icons after a draw: a draw icon on Black's king, then one on White's.
pub open spec fn spec_draw_icons(board: BoardState) -> Seq<IconPlacement> {
    seq![
        spec_placement(EndGameIcon::DrawBlack, board, board.spec_position().black_king),
        spec_placement(EndGameIcon::DrawWhite, board, board.spec_position().white_king),
    ]
}

fn place(icon: EndGameIcon, board_state: &BoardState, square: Square) -> (p: IconPlacement)
    requires
        board_state.wf(),
        board_state.spec_tiles()[square.idx()] is Some,
    ensures
        p == spec_placement(icon, *board_state, square),
{
    let (top, left) = icon_offsets(square);
    IconPlacement { icon, tile: board_state.tile(square), square, top_percent: top, left_percent: left }
}

/// The icons after a checkmate: the loser's icon on the king of the side to move, then the
/// winner's icon on the other king.
pub fn checkmate_icons(board_state: &BoardState) -> (v: Vec<IconPlacement>)
    requires
        board_state.wf(),
        spec_king_tiles_ready(*board_state),
    ensures
        v@ == spec_checkmate_icons(*board_state),
{
    let loser = board_state.side_to_move();
    let loser_square = board_state.king_square(loser);
    let winner_square = board_state.king_square(loser.not());
    let loser_icon = match loser {
        PieceColor::Black => EndGameIcon::LoserBlack,
        PieceColor::White => EndGameIcon::LoserWhite,
    };
    let mut v: Vec<IconPlacement> = Vec::new();
    v.push(place(loser_icon, board_state, loser_square));
    v.push(place(EndGameIcon::Winner, board_state, winner_square));
    v
}

/// The icons after a draw: a draw icon on Black's king, then one on White's.
pub fn draw_icons(board_state: &BoardState) -> (v: Vec<IconPlacement>)
    requires
        board_state.wf(),
        spec_king_tiles_ready(*board_state),
    ensures
        v@ == spec_draw_icons(*board_state),
{
    let black_square = board_state.king_square(PieceColor::Black);
    let white_square = board_state.king_square(PieceColor::White);
    let mut v: Vec<IconPlacement> = Vec::new();
    v.push(place(EndGameIcon::DrawBlack, board_state, black_square));
    v.push(place(EndGameIcon::DrawWhite, board_state, white_square));
    v
}

/// The end of a game: the icons to show for its status (none while it is still ongoing), and
/// the screen to go to, always the game-over sequence.
pub fn game_over(board_state: &BoardState) -> (res: (Vec<IconPlacement>, MenuState))
    requires
        board_state.wf(),
        spec_king_tiles_ready(*board_state),
    ensures
        res.1 == MenuState::DoGameOver,
        board_state.spec_status() == GameStatus::GameOverCheckmate ==> res.0@ == spec_checkmate_icons(*board_state),
        (board_state.spec_status() == GameStatus::GameOverStalemate || board_state.spec_status()
            == GameStatus::GameOver50Moves || board_state.spec_status() == GameStatus::GameOverRepetition)
            ==> res.0@ == spec_draw_icons(*board_state),
        board_state.spec_status() == GameStatus::Ongoing ==> res.0@.len() == 0,
{
    let icons = match board_state.status() {
        GameStatus::GameOverCheckmate => checkmate_icons(board_state),
        GameStatus::GameOverStalemate | GameStatus::GameOver50Moves | GameStatus::GameOverRepetition => {
            draw_icons(board_state)
        },
        GameStatus::Ongoing => Vec::new(),
    };
    (icons, MenuState::DoGameOver)
}

} // verus!
