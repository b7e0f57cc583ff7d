//! Choosing the piece a pawn is promoted to: the promoter's buttons, reading a click, and what
//! a choice or a cancellation does.
use vstd::prelude::*;

use crate::board_state::{BoardState, Entity};
use crate::piece::{spec_asset_path, PieceColor, PieceMeta, PieceType};
use crate::selection::MovePiece;
use crate::square::Square;

verus! {

/// The kinds a pawn can be promoted to, in the order of the promoter's buttons.
pub open spec fn spec_promotion_choices() -> Seq<PieceType> {
    seq![PieceType::Queen, PieceType::Knight, PieceType::Rook, PieceType::Bishop]
}

/// The promoter of one side: its buttons run downwards for White and upwards for Black, from
/// the top of the tile for White and from its bottom for Black; each button shows a kind.
#[derive(Debug)]
pub struct PromoterLayout {
    pub color: PieceColor,
    pub reversed: bool,
    pub anchored_top: bool,
    pub buttons: Vec<(PieceType, &'static str)>,
}

/// The layout of a side's promoter.
pub fn promoter_layout(color: PieceColor) -> (l: PromoterLayout)
    ensures
        l.color == color,
        l.reversed == (color == PieceColor::Black),
        l.anchored_top == (color == PieceColor::White),
        l.buttons@.len() == 4,
        forall|i: int| 0 <= i < 4 ==> {
            &&& (#[trigger] l.buttons@[i]).0 == spec_promotion_choices()[i]
            &&& l.buttons@[i].1@ == spec_asset_path(color, spec_promotion_choices()[i])
        },
{
    let kinds = [PieceType::Queen, PieceType::Knight, PieceType::Rook, PieceType::Bishop];
    let mut buttons: Vec<(PieceType, &'static str)> = Vec::new();
    let mut i: usize = 0;
    while i < 4
        invariant
            i <= 4,
            kinds@ == spec_promotion_choices(),
            buttons@.len() == i,
            forall|j: int| 0 <= j < i ==> {
                &&& (#[trigger] buttons@[j]).0 == spec_promotion_choices()[j]
                &&& buttons@[j].1@ == spec_asset_path(color, spec_promotion_choices()[j])
            },
        decreases 4 - i,
    {
        let typ = kinds[i];
        buttons.push((typ, PieceMeta::new(color, typ).asset_path()));
        i = i + 1;
    }
    PromoterLayout {
        color,
        reversed: color == PieceColor::Black,
        anchored_top: color == PieceColor::White,
        buttons,
    }
}

/// A pawn waiting for its promotion: the move that brings it to the last rank.
#[derive(Clone, Copy, Debug, PartialEq, Eq, Structural)]
pub struct PromotingPiece {
    pub from_sq: Square,
    pub to_sq: Square,
}

impl PromotingPiece {
    pub fn new(from_sq: Square, to_sq: Square) -> (p: PromotingPiece)
        ensures
            p == (PromotingPiece { from_sq, to_sq }),
    {
        PromotingPiece { from_sq, to_sq }
    }
}

/// The answer of the promoter.
#[derive(Clone, Copy, Debug, PartialEq, Eq, Structural)]
pub enum PromotionResult {
    Promote(PieceType),
    Cancel,
}

/// Reads the promoter from this frame's input: a pressed kind button promotes to its kind;
/// otherwise the cancel button, or a left click anywhere else, cancels. The mouse buttons are
/// reset whenever there is an answer.
pub open spec fn spec_promotion_click(pressed: Option<PieceType>, cancel_pressed: bool, left_clicked: bool) -> Option<
    PromotionResult,
> {
    match pressed {
        Some(t) => Some(PromotionResult::Promote(t)),
        None => if cancel_pressed || left_clicked {
            Some(PromotionResult::Cancel)
        } else {
            None
        },
    }
}

/// Reads the promoter from this frame's input: the kind of the first pressed kind button, if
/// any, whether the cancel button is pressed, and whether the left mouse button was just
/// pressed.
pub fn promotion_click_handler(pressed: Option<PieceType>, cancel_pressed: bool, left_clicked: bool) -> (r: Option<
    PromotionResult,
>)
    ensures
        r == spec_promotion_click(pressed, cancel_pressed, left_clicked),
{
    match pressed {
        Some(t) => Some(PromotionResult::Promote(t)),
        None => {
            if cancel_pressed {
                Some(PromotionResult::Cancel)
            } else if left_clicked {
                Some(PromotionResult::Cancel)
            } else {
                None
            }
        },
    }
}

/// What an answer of the promoter does.
#[derive(Clone, Copy, Debug, PartialEq, Eq, Structural)]
pub enum PromotionOutcome {
    /// No answer this frame.
    Nothing,
    /// An answer came while no piece, or more than one, was waiting; it is ignored.
    Ignored,
    /// The pawn stops waiting and moves, promoted, without animation.
    Promote { piece: Entity, move_piece: MovePiece },
    /// The pawn stops waiting and goes back to the tile of its square.
    Cancel { piece: Entity, tile: Entity },
}

/// Handles an answer of the promoter for the piece waiting for its promotion, if exactly one
/// is (the caller passes `None` otherwise).
pub fn promotion_result_handler(
    result: Option<PromotionResult>,
    waiting: Option<(Entity, PromotingPiece)>,
    board_state: &BoardState,
) -> (o: PromotionOutcome)
    requires
        board_state.wf(),
        waiting matches Some((_, p)) ==> board_state.spec_tiles()[p.from_sq.idx()] is Some,
    ensures
        result is None ==> o == PromotionOutcome::Nothing,
        result is Some && waiting is None ==> o == PromotionOutcome::Ignored,
        result matches Some(PromotionResult::Promote(t)) ==> (waiting matches Some((e, p)) ==> o
            == (PromotionOutcome::Promote {
            piece: e,
            move_piece: MovePiece { from_sq: p.from_sq, to_sq: p.to_sq, promotion: Some(t), animate: false },
        })),
        result matches Some(PromotionResult::Cancel) ==> (waiting matches Some((e, p)) ==> o
            == (PromotionOutcome::Cancel { piece: e, tile: board_state.spec_tiles()[p.from_sq.idx()]->0 })),
{
    let r = match result {
        Some(r) => r,
        None => return PromotionOutcome::Nothing,
    };
    let (entity, promoting) = match waiting {
        Some(w) => w,
        None => return PromotionOutcome::Ignored,
    };
    match r {
        PromotionResult::Promote(t) => PromotionOutcome::Promote {
            piece: entity,
            move_piece: MovePiece::new(promoting.from_sq, promoting.to_sq, Some(t), false),
        },
        PromotionResult::Cancel => PromotionOutcome::Cancel { piece: entity, tile: board_state.tile(promoting.from_sq) },
    }
}

} // verus!
