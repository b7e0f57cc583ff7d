//! The look of the board: the shade of each tile, the coordinate labels along the edges, and
//! the pieces to show for a position.
use vstd::prelude::*;

use crate::piece::{spec_asset_path, PieceMeta};
use crate::position::Position;
use crate::square::{file_char_of, rank_char_of, square_at, Square};

verus! {

/// The image of a move hint.
pub const MOVE_HINT_IMAGE: &'static str = "images/hints/move.png";

/// The image of a capture hint.
pub const CAPTURE_HINT_IMAGE: &'static str = "images/hints/capture.png";

/// The two tile colors.
#[derive(Clone, Copy, Debug, PartialEq, Eq, Structural)]
pub enum TileShade {
    Dark,
    Light,
}

/// How a tile is drawn: its shade, the shade of its labels (the other one), and the labels it
/// carries: the file letter on the first rank, the rank digit on the a file.
#[derive(Clone, Copy, Debug, PartialEq, Eq, Structural)]
pub struct TileLayout {
    pub shade: TileShade,
    pub label_shade: TileShade,
    pub file_label: Option<char>,
    pub rank_label: Option<char>,
}

/// The layout of the tile of a square: dark where the rank and file indices add up to an even
/// number, so that a1 is dark.
pub open spec fn spec_tile_layout(square: Square) -> TileLayout {
    let dark = (square.rank_idx() + square.file_idx()) % 2 == 0;
    TileLayout {
        shade: if dark { TileShade::Dark } else { TileShade::Light },
        label_shade: if dark { TileShade::Light } else { TileShade::Dark },
        file_label: if square.rank_idx() == 0 { Some(file_char_of(square.file_idx())) } else { None },
        rank_label: if square.file_idx() == 0 { Some(rank_char_of(square.rank_idx())) } else { None },
    }
}

/// The layout of the tile of a square.
pub fn tile_layout(square: Square) -> (t: TileLayout)
    ensures
        t == spec_tile_layout(square),
{
    let rank = square.get_rank();
    let file = square.get_file();
    let dark = (rank + file) % 2 == 0;
    TileLayout {
        shade: if dark { TileShade::Dark } else { TileShade::Light },
        label_shade: if dark { TileShade::Light } else { TileShade::Dark },
        file_label: if rank == 0 { Some(square.file_char()) } else { None },
        rank_label: if file == 0 { Some(square.rank_char()) } else { None },
    }
}

/// A piece to show: its square, its color and kind, and its image.
#[derive(Clone, Copy, Debug)]
pub struct PieceSprite {
    pub square: Square,
    pub meta: PieceMeta,
    pub image: &'static str,
}

/// The indices of the squares below `n` that hold a piece, in order.
pub open spec fn spec_occupied(squares: Seq<Option<PieceMeta>>, n: int) -> Seq<int>
    decreases n,
{
    if n <= 0 {
        Seq::empty()
    } else if squares[n - 1] is Some {
        spec_occupied(squares, n - 1).push(n - 1)
    } else {
        spec_occupied(squares, n - 1)
    }
}

/// The pieces of a position, one for each occupied square, by square index.
pub fn pieces_to_spawn(position: &Position) -> (v: Vec<PieceSprite>)
    requires
        position.wf(),
    ensures
        v@.len() == spec_occupied(position.squares@, 64).len(),
        forall|k: int| 0 <= k < v@.len() ==> {
            let i = #[trigger] spec_occupied(position.squares@, 64)[k];
            &&& v@[k].square == square_at(i)
            &&& Some(v@[k].meta) == position.squares@[i]
            &&& v@[k].image@ == spec_asset_path(v@[k].meta.color, v@[k].meta.typ)
        },
{
    let mut v: Vec<PieceSprite> = Vec::new();
    let mut i: u8 = 0;
    while i < 64
        invariant
            i <= 64,
            position.wf(),
            v@.len() == spec_occupied(position.squares@, i as int).len(),
            forall|k: int| 0 <= k < v@.len() ==> {
                let j = #[trigger] spec_occupied(position.squares@, i as int)[k];
                &&& v@[k].square == square_at(j)
                &&& Some(v@[k].meta) == position.squares@[j]
                &&& v@[k].image@ == spec_asset_path(v@[k].meta.color, v@[k].meta.typ)
            },
        decreases 64 - i,
    {
        let ghost prev = spec_occupied(position.squares@, i as int);
        match position.squares[i as usize] {
            Some(meta) => {
                let sq = Square::from_index(i);
                v.push(PieceSprite { square: sq, meta, image: meta.asset_path() });
                assert(spec_occupied(position.squares@, i + 1) == prev.push(i as int));
            },
            None => {
                assert(spec_occupied(position.squares@, i + 1) == prev);
            },
        }
        i = i + 1;
    }
    v
}

} // verus!
