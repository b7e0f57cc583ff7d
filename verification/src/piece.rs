use vstd::prelude::*;

verus! {

/// The color of a piece, which is also the side of a player.
#[derive(Clone, Copy, Debug, PartialEq, Eq, Structural)]
pub enum PieceColor {
    White,
    Black,
}

impl PieceColor {
    pub const WHITE: PieceColor = PieceColor::White;
    pub const BLACK: PieceColor = PieceColor::Black;

    /// The other color.
    pub open spec fn opponent(self) -> PieceColor {
        match self {
            PieceColor::White => PieceColor::Black,
            PieceColor::Black => PieceColor::White,
        }
    }

    /// The other color.
    pub fn not(self) -> (c: PieceColor)
        ensures
            c == self.opponent(),
    {
        match self {
            PieceColor::White => PieceColor::Black,
            PieceColor::Black => PieceColor::White,
        }
    }

    /// The index of the color: 0 for white, 1 for black.
    pub open spec fn idx(self) -> int {
        match self {
            PieceColor::White => 0,
            PieceColor::Black => 1,
        }
    }

    /// The rank on which this side's pieces start: the first rank for white, the eighth for black.
    pub open spec fn my_backrank(self) -> int {
        match self {
            PieceColor::White => 0,
            PieceColor::Black => 7,
        }
    }

    /// The rank on which this side's pieces start (0 is the first rank).
    pub fn to_my_backrank(self) -> (rank: u8)
        ensures
            rank == self.my_backrank(),
    {
        match self {
            PieceColor::White => 0,
            PieceColor::Black => 7,
        }
    }

    /// The rank on which the opponent's pieces start (0 is the first rank).
    pub fn to_their_backrank(self) -> (rank: u8)
        ensures
            rank == self.opponent().my_backrank(),
    {
        match self {
            PieceColor::White => 7,
            PieceColor::Black => 0,
        }
    }
}

/// The opponent of the opponent is the side itself, and a side is never its own opponent.
pub proof fn lemma_opponent_involution(c: PieceColor)
    ensures
        c.opponent().opponent() == c,
        c.opponent() != c,
{
}

/// The kind of a piece.
#[derive(Clone, Copy, Debug, PartialEq, Eq, Structural)]
pub enum PieceType {
    Pawn,
    Knight,
    Bishop,
    Rook,
    Queen,
    King,
}

impl PieceType {
    pub const PAWN: PieceType = PieceType::Pawn;
    pub const KNIGHT: PieceType = PieceType::Knight;
    pub const BISHOP: PieceType = PieceType::Bishop;
    pub const ROOK: PieceType = PieceType::Rook;
    pub const QUEEN: PieceType = PieceType::Queen;
    pub const KING: PieceType = PieceType::King;

    /// The index of the kind: pawn 0, knight 1, bishop 2, rook 3, queen 4, king 5.
    pub open spec fn idx(self) -> int {
        match self {
            PieceType::Pawn => 0,
            PieceType::Knight => 1,
            PieceType::Bishop => 2,
            PieceType::Rook => 3,
            PieceType::Queen => 4,
            PieceType::King => 5,
        }
    }

    /// How many pieces of this kind each side has at the start of a game.
    pub open spec fn spec_num_pieces(self) -> int {
        match self {
            PieceType::Pawn => 8,
            PieceType::Knight | PieceType::Bishop | PieceType::Rook => 2,
            PieceType::Queen | PieceType::King => 1,
        }
    }

    /// How many pieces of this kind each side has at the start of a game.
    pub fn num_pieces(self) -> (n: u8)
        ensures
            n == self.spec_num_pieces(),
    {
        match self {
            PieceType::Pawn => 8,
            PieceType::Knight | PieceType::Bishop | PieceType::Rook => 2,
            PieceType::Queen | PieceType::King => 1,
        }
    }

    /// The material value of a piece of this kind; the king has none.
    pub open spec fn spec_value(self) -> int {
        match self {
            PieceType::Pawn => 1,
            PieceType::Knight | PieceType::Bishop => 3,
            PieceType::Rook => 5,
            PieceType::Queen => 9,
            PieceType::King => 0,
        }
    }

    /// The material value of a piece of this kind. The king has no value, as it cannot be
    /// captured.
    pub fn value(self) -> (v: u8)
        requires
            self != PieceType::King,
        ensures
            v == self.spec_value(),
    {
        match self {
            PieceType::Pawn => 1,
            PieceType::Knight | PieceType::Bishop => 3,
            PieceType::Rook => 5,
            PieceType::Queen => 9,
            PieceType::King => 0,
        }
    }
}

/// The color and kind of a piece.
#[derive(Clone, Copy, Debug, PartialEq, Eq, Structural)]
pub struct PieceMeta {
    pub color: PieceColor,
    pub typ: PieceType,
}

impl PieceMeta {
    pub fn new(color: PieceColor, typ: PieceType) -> (m: PieceMeta)
        ensures
            m.color == color,
            m.typ == typ,
    {
        PieceMeta { color, typ }
    }

    /// The image of the piece, such as "images/pieces/white-queen.png".
    pub fn asset_path(self) -> (p: &'static str)
        ensures
            p@ == spec_asset_path(self.color, self.typ),
    {
        asset_path_of(self.color, self.typ)
    }
}

/// The image of a piece of the given color and kind.
pub trait PieceColorAndTypeAssetPath {
    fn asset_path(self) -> &'static str;
}

impl PieceColorAndTypeAssetPath for (PieceColor, PieceType) {
    fn asset_path(self) -> (p: &'static str)
        ensures
            p@ == spec_asset_path(self.0, self.1),
    {
        asset_path_of(self.0, self.1)
    }
}

/// The image of a piece: "images/pieces/", then the color, a hyphen, the kind, and ".png".
pub open spec fn spec_asset_path(color: PieceColor, typ: PieceType) -> Seq<char> {
    "images/pieces/"@ + color_name(color) + "-"@ + kind_name(typ) + ".png"@
}

/// The lower-case name of a color.
pub open spec fn color_name(color: PieceColor) -> Seq<char> {
    match color {
        PieceColor::White => "white"@,
        PieceColor::Black => "black"@,
    }
}

/// The lower-case name of a kind of piece.
pub open spec fn kind_name(typ: PieceType) -> Seq<char> {
    match typ {
        PieceType::Pawn => "pawn"@,
        PieceType::Knight => "knight"@,
        PieceType::Bishop => "bishop"@,
        PieceType::Rook => "rook"@,
        PieceType::Queen => "queen"@,
        PieceType::King => "king"@,
    }
}

fn asset_path_of(color: PieceColor, typ: PieceType) -> (p: &'static str)
    ensures
        p@ == spec_asset_path(color, typ),
{
    proof {
        reveal_strlit("images/pieces/");
        reveal_strlit("white");
        reveal_strlit("black");
        reveal_strlit("-");
        reveal_strlit(".png");
    }
    match (color, typ) {
        (PieceColor::Black, PieceType::Bishop) => {
            proof { reveal_strlit("bishop"); reveal_strlit("images/pieces/black-bishop.png"); }
            "images/pieces/black-bishop.png"
        },
        (PieceColor::Black, PieceType::King) => {
            proof { reveal_strlit("king"); reveal_strlit("images/pieces/black-king.png"); }
            "images/pieces/black-king.png"
        },
        (PieceColor::Black, PieceType::Knight) => {
            proof { reveal_strlit("knight"); reveal_strlit("images/pieces/black-knight.png"); }
            "images/pieces/black-knight.png"
        },
        (PieceColor::Black, PieceType::Pawn) => {
            proof { reveal_strlit("pawn"); reveal_strlit("images/pieces/black-pawn.png"); }
            "images/pieces/black-pawn.png"
        },
        (PieceColor::Black, PieceType::Queen) => {
            proof { reveal_strlit("queen"); reveal_strlit("images/pieces/black-queen.png"); }
            "images/pieces/black-queen.png"
        },
        (PieceColor::Black, PieceType::Rook) => {
            proof { reveal_strlit("rook"); reveal_strlit("images/pieces/black-rook.png"); }
            "images/pieces/black-rook.png"
        },
        (PieceColor::White, PieceType::Bishop) => {
            proof { reveal_strlit("bishop"); reveal_strlit("images/pieces/white-bishop.png"); }
            "images/pieces/white-bishop.png"
        },
        (PieceColor::White, PieceType::King) => {
            proof { reveal_strlit("king"); reveal_strlit("images/pieces/white-king.png"); }
            "images/pieces/white-king.png"
        },
        (PieceColor::White, PieceType::Knight) => {
            proof { reveal_strlit("knight"); reveal_strlit("images/pieces/white-knight.png"); }
            "images/pieces/white-knight.png"
        },
        (PieceColor::White, PieceType::Pawn) => {
            proof { reveal_strlit("pawn"); reveal_strlit("images/pieces/white-pawn.png"); }
            "images/pieces/white-pawn.png"
        },
        (PieceColor::White, PieceType::Queen) => {
            proof { reveal_strlit("queen"); reveal_strlit("images/pieces/white-queen.png"); }
            "images/pieces/white-queen.png"
        },
        (PieceColor::White, PieceType::Rook) => {
            proof { reveal_strlit("rook"); reveal_strlit("images/pieces/white-rook.png"); }
            "images/pieces/white-rook.png"
        },
    }
}

} // verus!
