use vstd::prelude::*;

use crate::board_state::{spec_game_status, BoardState, Entity, GameStatus};
use crate::piece::{spec_asset_path, PieceColor, PieceMeta, PieceType};
use crate::chess_calls::board_after_move;
use crate::position::{move_code, BoardMove, CastleRights};
use crate::selection::MovePiece;
use crate::square::Square;

verus! {

/// The sound played for a move. A check is not a variant of its own: when the move gives check,
/// the check sound is played whatever the variant.
#[derive(Clone, Copy, Debug, PartialEq, Eq, Structural)]
pub enum PlayGameAudio {
    Capture,
    Castle,
    MoveOpponent,
    MoveSelf,
    Promote,
}

/// The sound file played: the check sound when the side to move is in check, else the sound of
/// the move.
pub open spec fn spec_audio_path(audio: PlayGameAudio, checkers: u64) -> Seq<char> {
    if checkers != 0 {
        "audio/move-check.flac"@
    } else {
        match audio {
            PlayGameAudio::Capture => "audio/capture.flac"@,
            PlayGameAudio::Castle => "audio/castle.flac"@,
            PlayGameAudio::MoveOpponent => "audio/move-opponent.flac"@,
            PlayGameAudio::MoveSelf => "audio/move-self.flac"@,
            PlayGameAudio::Promote => "audio/promote.flac"@,
        }
    }
}

impl PlayGameAudio {
    /// The sound file to play, given the pieces that check the side to move (one bit per square).
    pub fn asset_path(self, checkers: u64) -> (p: &'static str)
        ensures
            p@ == spec_audio_path(self, checkers),
    {
        if checkers != 0 {
            return "audio/move-check.flac";
        }
        match self {
            PlayGameAudio::Capture => "audio/capture.flac",
            PlayGameAudio::Castle => "audio/castle.flac",
            PlayGameAudio::MoveOpponent => "audio/move-opponent.flac",
            PlayGameAudio::MoveSelf => "audio/move-self.flac",
            PlayGameAudio::Promote => "audio/promote.flac",
        }
    }
}

/// The sound of a move: promotion first, then capture (en passant included), then castling,
/// else the plain move sound of the side that moves.
pub open spec fn spec_move_audio(promotion: bool, capture: bool, castle: bool, color: PieceColor) -> PlayGameAudio {
    if promotion {
        PlayGameAudio::Promote
    } else if capture {
        PlayGameAudio::Capture
    } else if castle {
        PlayGameAudio::Castle
    } else {
        match color {
            PieceColor::Black => PlayGameAudio::MoveOpponent,
            PieceColor::White => PlayGameAudio::MoveSelf,
        }
    }
}

/// The rook move that goes with a king's move, if the move castles: to the g-file with the
/// king-side right (rook from h to f), else to the c-file with the queen-side right (rook from a
/// to d), on the side's first rank.
pub open spec fn spec_castle_rook_move(color: PieceColor, typ: PieceType, rights: CastleRights, to_sq: Square) -> Option<(Square, Square)> {
    let rank = color.my_backrank();
    if typ != PieceType::King {
        None
    } else if rights.spec_has_kingside() && to_sq.idx() == 8 * rank + 6 {
        Some((crate::square::square_at(8 * rank + 7), crate::square::square_at(8 * rank + 5)))
    } else if rights.spec_has_queenside() && to_sq.idx() == 8 * rank + 2 {
        Some((crate::square::square_at(8 * rank), crate::square::square_at(8 * rank + 3)))
    } else {
        None
    }
}

/// How a requested move is carried out.
pub enum MovePlan {
    /// A pawn reaches the last rank with no promotion chosen yet: ask for one first.
    StartPromotion { from_sq: Square, to_sq: Square },
    /// Make the move.
    Move(MoveSteps),
}

/// The steps of a move, beyond moving the piece itself.
pub struct MoveSteps {
    /// The new image of a promoted piece.
    pub new_asset_path: Option<&'static str>,
    /// The rook that castles along: its entity, its square and its destination.
    pub rook_move: Option<(Entity, Square, Square)>,
    /// A piece stands on the destination.
    pub is_capture: bool,
    /// The move takes a pawn en passant.
    pub is_en_passant: bool,
    /// The sound to play.
    pub audio: PlayGameAudio,
}

/// The plan is the right one for moving a piece of the given color and kind.
pub open spec fn spec_move_plan(plan: MovePlan, board: BoardState, mp: MovePiece, meta: PieceMeta) -> bool {
    if mp.promotion is None && meta.typ == PieceType::Pawn && mp.to_sq.rank_idx() == meta.color.opponent().my_backrank() {
        plan == MovePlan::StartPromotion { from_sq: mp.from_sq, to_sq: mp.to_sq }
    } else {
        plan matches MovePlan::Move(steps) && {
            let rook = spec_castle_rook_move(
                meta.color,
                meta.typ,
                board.spec_position().spec_castle_rights(board.spec_position().side_to_move),
                mp.to_sq,
            );
            &&& match mp.promotion {
                Some(p) => steps.new_asset_path matches Some(path) && path@ == spec_asset_path(meta.color, p),
                None => steps.new_asset_path is None,
            }
            &&& match rook {
                Some((from, to)) => steps.rook_move == Some((board.spec_pieces()[from.idx()].unwrap(), from, to)),
                None => steps.rook_move is None,
            }
            &&& steps.is_capture == board.spec_pieces()[mp.to_sq.idx()] is Some
            &&& steps.is_en_passant == board.spec_is_en_passant(meta.color, mp.to_sq)
            &&& steps.audio == spec_move_audio(
                mp.promotion is Some,
                steps.is_capture || steps.is_en_passant,
                rook is Some,
                meta.color,
            )
        }
    }
}

/// The castling rook, where the move castles, has a piece entity on its square.
pub open spec fn spec_castle_rook_present(board: BoardState, mp: MovePiece, meta: PieceMeta) -> bool {
    spec_castle_rook_move(
        meta.color,
        meta.typ,
        board.spec_position().spec_castle_rights(board.spec_position().side_to_move),
        mp.to_sq,
    ) matches Some((from, _)) ==> board.spec_pieces()[from.idx()] is Some
}

/// Decides how to carry out a requested move of a piece of the given color and kind.
pub fn plan_move(board_state: &BoardState, mp: MovePiece, meta: PieceMeta) -> (plan: MovePlan)
    requires
        board_state.wf(),
        spec_castle_rook_present(*board_state, mp, meta),
    ensures
        spec_move_plan(plan, *board_state, mp, meta),
        ({
            let rank: int = if meta.color == PieceColor::White { 0 } else { 7 };
            let rights = board_state.spec_position().spec_castle_rights(board_state.spec_position().side_to_move);
            (meta.typ == PieceType::King && mp.to_sq.rank_idx() == rank && mp.to_sq.file_idx() == 6
                && rights.spec_has_kingside()) ==> (plan matches MovePlan::Move(steps) && steps.rook_move matches Some(
                (_, from, to),
            ) && from.rank_idx() == rank && from.file_idx() == 7 && to.rank_idx() == rank && to.file_idx() == 5)
        }),
        ({
            let rank: int = if meta.color == PieceColor::White { 0 } else { 7 };
            let rights = board_state.spec_position().spec_castle_rights(board_state.spec_position().side_to_move);
            (meta.typ == PieceType::King && mp.to_sq.rank_idx() == rank && mp.to_sq.file_idx() == 2
                && rights.spec_has_queenside()) ==> (plan matches MovePlan::Move(steps) && steps.rook_move matches Some(
                (_, from, to),
            ) && from.rank_idx() == rank && from.file_idx() == 0 && to.rank_idx() == rank && to.file_idx() == 3)
        }),
{
    broadcast use crate::square::lemma_square_idx_range;

    let ghost board_before = *board_state;

    let color = meta.color;
    let typ = meta.typ;
    let new_asset_path = match mp.promotion {
        Some(p) => Some(PieceMeta::new(color, p).asset_path()),
        None => {
            if typ == PieceType::Pawn && mp.to_sq.get_rank() == color.to_their_backrank() {
                return MovePlan::StartPromotion { from_sq: mp.from_sq, to_sq: mp.to_sq };
            }
            None
        },
    };
    let is_capture = board_state.has_piece_at(mp.to_sq);
    let is_en_passant = board_state.move_is_en_passant(color, mp.to_sq);
    let mut rook_move: Option<(Entity, Square, Square)> = None;
    if typ == PieceType::King {
        let castle_rights = board_state.my_castle_rights();
        let back_rank = color.to_my_backrank();
        let kingside_sq = Square::from_coords(back_rank, 6);
        let queenside_sq = Square::from_coords(back_rank, 2);
        if castle_rights.has_kingside() && mp.to_sq == kingside_sq {
            let from_sq = Square::from_coords(back_rank, 7);
            let to_sq = Square::from_coords(back_rank, 5);
            rook_move = Some((board_state.piece(from_sq), from_sq, to_sq));
        } else if castle_rights.has_queenside() && mp.to_sq == queenside_sq {
            let from_sq = Square::from_coords(back_rank, 0);
            let to_sq = Square::from_coords(back_rank, 3);
            rook_move = Some((board_state.piece(from_sq), from_sq, to_sq));
        }
    }
    let is_castle = rook_move.is_some();
    let audio = if mp.promotion.is_some() {
        PlayGameAudio::Promote
    } else if is_capture || is_en_passant {
        PlayGameAudio::Capture
    } else if is_castle {
        PlayGameAudio::Castle
    } else {
        match color {
            PieceColor::Black => PlayGameAudio::MoveOpponent,
            PieceColor::White => PlayGameAudio::MoveSelf,
        }
    };
    let plan = MovePlan::Move(MoveSteps { new_asset_path, rook_move, is_capture, is_en_passant, audio });
    proof {
        let rank: int = if meta.color == PieceColor::White { 0 } else { 7 };
        let rights = board_before.spec_position().spec_castle_rights(board_before.spec_position().side_to_move);
        if meta.typ == PieceType::King && mp.to_sq.rank_idx() == rank && (mp.to_sq.file_idx() == 6
            && rights.spec_has_kingside() || mp.to_sq.file_idx() == 2 && rights.spec_has_queenside()) {
            lemma_castling_moves_the_rook(plan, board_before, mp, meta);
        }
    }
    plan
}


/// The half-move clock after a move: back to zero after a pawn move or a capture, else one more.
pub open spec fn spec_next_half_move_clock(clock: u8, typ: PieceType, is_capture: bool) -> u8 {
    if typ == PieceType::Pawn || is_capture {
        0
    } else {
        (clock + 1) as u8
    }
}

/// The full-move count after a move: one more after black's move.
pub open spec fn spec_next_full_move_count(count: u16, color: PieceColor) -> u16 {
    if color == PieceColor::Black {
        (count + 1) as u16
    } else {
        count
    }
}

/// Records a move on the board state: makes it on the chess board (which counts the new
/// position), sets the half-move clock back to zero after a pawn move or a capture and advances
/// it otherwise, advances the full-move count after black's move, and updates the status.
/// Returns whether the game is over.
pub fn update_board_state(
    board_state: &mut BoardState,
    from_sq: Square,
    to_sq: Square,
    color: PieceColor,
    typ: PieceType,
    promotion: Option<PieceType>,
    is_capture: bool,
) -> (game_over: bool)
    requires
        old(board_state).wf(),
        old(board_state).spec_move_makeable(from_sq, to_sq, promotion),
        typ == PieceType::Pawn || is_capture || old(board_state).spec_half_move_clock() < 255,
        color == PieceColor::Black ==> old(board_state).spec_full_move_count() < 65535,
    ensures
        final(board_state).wf(),
        final(board_state).spec_half_move_clock() == spec_next_half_move_clock(
            old(board_state).spec_half_move_clock(),
            typ,
            is_capture,
        ),
        is_capture ==> final(board_state).spec_half_move_clock() == 0,
        typ == PieceType::Pawn ==> final(board_state).spec_half_move_clock() == 0,
        !is_capture && typ != PieceType::Pawn ==> final(board_state).spec_half_move_clock()
            == old(board_state).spec_half_move_clock() + 1,
        color == PieceColor::Black ==> final(board_state).spec_full_move_count() == old(board_state).spec_full_move_count() + 1,
        color == PieceColor::White ==> final(board_state).spec_full_move_count() == old(board_state).spec_full_move_count(),
        final(board_state).spec_full_move_count() == spec_next_full_move_count(
            old(board_state).spec_full_move_count(),
            color,
        ),
        final(board_state).spec_counters() == old(board_state).spec_counters().insert(
            final(board_state).spec_position().hash,
            if old(board_state).spec_counters().contains_key(final(board_state).spec_position().hash) {
                crate::board_state::spec_next_count(
                    old(board_state).spec_counters()[final(board_state).spec_position().hash],
                )
            } else {
                1u8
            },
        ),
        final(board_state).spec_status() == spec_game_status(
            final(board_state).spec_position().status,
            final(board_state).spec_half_move_clock(),
            final(board_state).spec_counters(),
        ),
        game_over == (final(board_state).spec_status() != GameStatus::Ongoing),
        final(board_state).spec_tiles() == old(board_state).spec_tiles(),
        final(board_state).spec_pieces() == old(board_state).spec_pieces(),
        final(board_state).spec_highlights() == old(board_state).spec_highlights(),
        final(board_state).spec_tile_hints() == old(board_state).spec_tile_hints(),
        final(board_state).spec_board() == board_after_move(
            old(board_state).spec_board(),
            move_code(BoardMove { from: from_sq, to: to_sq, promotion }),
        ),
        final(board_state).spec_position().side_to_move == old(board_state).spec_position().side_to_move.opponent(),
        final(board_state).spec_position().piece_at(from_sq) is None,
        final(board_state).spec_position().piece_at(to_sq) == match promotion {
            Some(t) => Some(PieceMeta { color: old(board_state).spec_position().side_to_move, typ: t }),
            None => old(board_state).spec_position().piece_at(from_sq),
        },
{
    board_state.make_board_move(from_sq, to_sq, promotion);
    if typ == PieceType::Pawn || is_capture {
        board_state.reset_half_move_clock();
    } else {
        board_state.inc_half_move_clock();
    }
    if color == PieceColor::Black {
        board_state.inc_full_move_count();
    }
    board_state.sync_status();
    board_state.is_game_over()
}


/// The half-move clock counts the moves since the last capture or pawn move: a capture or a pawn
/// move, whatever else it is, sets it to zero; any other move adds one (within the byte).
pub proof fn lemma_half_move_clock_rule(clock: u8, typ: PieceType, is_capture: bool)
    ensures
        is_capture ==> spec_next_half_move_clock(clock, typ, is_capture) == 0,
        typ == PieceType::Pawn ==> spec_next_half_move_clock(clock, typ, is_capture) == 0,
        !is_capture && typ != PieceType::Pawn && clock < 255 ==> spec_next_half_move_clock(clock, typ, is_capture)
            == clock + 1,
{
}

/// The full-move count grows by one after each move of Black and stays after White's.
pub proof fn lemma_full_move_count_rule(count: u16, color: PieceColor)
    ensures
        color == PieceColor::White ==> spec_next_full_move_count(count, color) == count,
        color == PieceColor::Black && count < 65535 ==> spec_next_full_move_count(count, color) == count + 1,
{
}

/// Castling moves the rook along on the king's own first rank (the first rank for White, the
/// eighth for Black): a king going to the g-file of that rank with the king-side right takes the
/// rook from the h-file to the f-file, one going to the c-file with the queen-side right takes it
/// from the a-file to the d-file, and the move sounds as a castle unless it captures.
pub proof fn lemma_castling_moves_the_rook(plan: MovePlan, board: BoardState, mp: MovePiece, meta: PieceMeta)
    requires
        spec_move_plan(plan, board, mp, meta),
        meta.typ == PieceType::King,
        mp.to_sq.rank_idx() == (if meta.color == PieceColor::White { 0int } else { 7int }),
        ({
            let rights = board.spec_position().spec_castle_rights(board.spec_position().side_to_move);
            ||| mp.to_sq.file_idx() == 6 && rights.spec_has_kingside()
            ||| mp.to_sq.file_idx() == 2 && rights.spec_has_queenside()
        }),
    ensures
        plan matches MovePlan::Move(steps) && steps.rook_move matches Some((_, from, to)) && {
            let rank: int = if meta.color == PieceColor::White { 0 } else { 7 };
            &&& from.rank_idx() == rank
            &&& to.rank_idx() == rank
            &&& mp.to_sq.file_idx() == 6 ==> from.file_idx() == 7 && to.file_idx() == 5
            &&& mp.to_sq.file_idx() == 2 ==> from.file_idx() == 0 && to.file_idx() == 3
            &&& (mp.promotion is None && !steps.is_capture && !steps.is_en_passant) ==> steps.audio
                == PlayGameAudio::Castle
        },
{
    broadcast use crate::square::lemma_square_idx_range;

    let rank: int = if meta.color == PieceColor::White { 0 } else { 7 };
    assert(mp.to_sq.idx() == 8 * rank + mp.to_sq.file_idx());
    crate::square::lemma_square_at_idx(8 * rank + 7);
    crate::square::lemma_square_at_idx(8 * rank + 5);
    crate::square::lemma_square_at_idx(8 * rank);
    crate::square::lemma_square_at_idx(8 * rank + 3);
}
} // verus!
