use vstd::prelude::*;

use crate::piece::PieceColor;

verus! {

/// A square of the chess board. The squares are listed by rank, from a1 to h8,
/// so that the index of a square is `8 * rank + file`.
#[derive(Clone, Copy, Debug, PartialEq, Eq, Structural)]
pub enum Square {
    A1,
    B1,
    C1,
    D1,
    E1,
    F1,
    G1,
    H1,
    A2,
    B2,
    C2,
    D2,
    E2,
    F2,
    G2,
    H2,
    A3,
    B3,
    C3,
    D3,
    E3,
    F3,
    G3,
    H3,
    A4,
    B4,
    C4,
    D4,
    E4,
    F4,
    G4,
    H4,
    A5,
    B5,
    C5,
    D5,
    E5,
    F5,
    G5,
    H5,
    A6,
    B6,
    C6,
    D6,
    E6,
    F6,
    G6,
    H6,
    A7,
    B7,
    C7,
    D7,
    E7,
    F7,
    G7,
    H7,
    A8,
    B8,
    C8,
    D8,
    E8,
    F8,
    G8,
    H8,
}

impl Square {
    /// The index of the square, from 0 (a1) to 63 (h8).
    pub open spec fn idx(self) -> int {
        self as int
    }

    pub fn to_index(self) -> (i: u8)
        ensures
            i == self.idx(),
            i < 64,
    {
        self as u8
    }

    /// The square with the given index.
    pub fn from_index(i: u8) -> (sq: Square)
        requires
            i < 64,
        ensures
            sq.idx() == i,
            sq == square_at(i as int),
    {
        match i {
            0 => Square::A1,
            1 => Square::B1,
            2 => Square::C1,
            3 => Square::D1,
            4 => Square::E1,
            5 => Square::F1,
            6 => Square::G1,
            7 => Square::H1,
            8 => Square::A2,
            9 => Square::B2,
            10 => Square::C2,
            11 => Square::D2,
            12 => Square::E2,
            13 => Square::F2,
            14 => Square::G2,
            15 => Square::H2,
            16 => Square::A3,
            17 => Square::B3,
            18 => Square::C3,
            19 => Square::D3,
            20 => Square::E3,
            21 => Square::F3,
            22 => Square::G3,
            23 => Square::H3,
            24 => Square::A4,
            25 => Square::B4,
            26 => Square::C4,
            27 => Square::D4,
            28 => Square::E4,
            29 => Square::F4,
            30 => Square::G4,
            31 => Square::H4,
            32 => Square::A5,
            33 => Square::B5,
            34 => Square::C5,
            35 => Square::D5,
            36 => Square::E5,
            37 => Square::F5,
            38 => Square::G5,
            39 => Square::H5,
            40 => Square::A6,
            41 => Square::B6,
            42 => Square::C6,
            43 => Square::D6,
            44 => Square::E6,
            45 => Square::F6,
            46 => Square::G6,
            47 => Square::H6,
            48 => Square::A7,
            49 => Square::B7,
            50 => Square::C7,
            51 => Square::D7,
            52 => Square::E7,
            53 => Square::F7,
            54 => Square::G7,
            55 => Square::H7,
            56 => Square::A8,
            57 => Square::B8,
            58 => Square::C8,
            59 => Square::D8,
            60 => Square::E8,
            61 => Square::F8,
            62 => Square::G8,
            _ => Square::H8,
        }
    }
}


impl Square {
    /// The first square, a1.
    pub const DEFAULT: Square = Square::A1;

    /// The file of the square, from 0 (the a-file) to 7 (the h-file).
    pub open spec fn file_idx(self) -> int {
        self.idx() % 8
    }

    /// The rank of the square, from 0 (the first rank) to 7 (the eighth rank).
    pub open spec fn rank_idx(self) -> int {
        self.idx() / 8
    }

    /// The square on the given rank and file (both from 0 to 7).
    pub fn from_coords(rank: u8, file: u8) -> (sq: Square)
        requires
            rank < 8,
            file < 8,
        ensures
            sq.idx() == 8 * rank + file,
            sq.rank_idx() == rank,
            sq.file_idx() == file,
    {
        Square::from_index(rank * 8 + file)
    }

    /// The file of the square, from 0 (the a-file) to 7 (the h-file).
    pub fn get_file(self) -> (file: u8)
        ensures
            file == self.file_idx(),
            file < 8,
    {
        self.to_index() % 8
    }

    /// The rank of the square, from 0 (the first rank) to 7 (the eighth rank).
    pub fn get_rank(self) -> (rank: u8)
        ensures
            rank == self.rank_idx(),
            rank < 8,
    {
        self.to_index() / 8
    }

    /// The letter of a file: 'a' for the first file up to 'h' for the last.
    pub fn file_to_char(file: u8) -> (c: char)
        requires
            file < 8,
        ensures
            c == file_char_of(file as int),
    {
        (97u8 + file) as char
    }

    /// The digit of a rank: '1' for the first rank up to '8' for the last.
    pub fn rank_to_char(rank: u8) -> (c: char)
        requires
            rank < 8,
        ensures
            c == rank_char_of(rank as int),
    {
        (48u8 + rank + 1) as char
    }

    pub fn file_char(self) -> (c: char)
        ensures
            c == file_char_of(self.file_idx()),
    {
        Self::file_to_char(self.get_file())
    }

    pub fn rank_char(self) -> (c: char)
        ensures
            c == rank_char_of(self.rank_idx()),
    {
        Self::rank_to_char(self.get_rank())
    }

    /// The square one rank further from the given side's first rank, if there is one.
    pub open spec fn spec_forward(self, color: PieceColor) -> Option<Square> {
        match color {
            PieceColor::White => if self.rank_idx() == 7 {
                None
            } else {
                Some(square_at(self.idx() + 8))
            },
            PieceColor::Black => if self.rank_idx() == 0 {
                None
            } else {
                Some(square_at(self.idx() - 8))
            },
        }
    }

    /// The square one rank further from the given side's first rank, if there is one.
    pub fn forward(self, color: PieceColor) -> (res: Option<Square>)
        ensures
            res == self.spec_forward(color),
    {
        let i = self.to_index();
        match color {
            PieceColor::White => if i >= 56 {
                None
            } else {
                Some(Square::from_index(i + 8))
            },
            PieceColor::Black => if i < 8 {
                None
            } else {
                Some(Square::from_index(i - 8))
            },
        }
    }

    /// The square one rank closer to the given side's first rank, if there is one.
    pub open spec fn spec_backward(self, color: PieceColor) -> Option<Square> {
        self.spec_forward(color.opponent())
    }

    /// The square one rank closer to the given side's first rank, if there is one.
    pub fn backward(self, color: PieceColor) -> (res: Option<Square>)
        ensures
            res == self.spec_backward(color),
    {
        self.forward(color.not())
    }

    /// Moves this square to another one.
    pub fn move_to(&mut self, other: Square)
        ensures
            *final(self) == other,
    {
        *self = other;
    }

    /// The algebraic name of the square, such as "e4".
    pub open spec fn spec_name(self) -> Seq<char> {
        seq![file_char_of(self.file_idx()), rank_char_of(self.rank_idx())]
    }

    /// The algebraic name of the square, such as "e4".
    pub fn name(self) -> (s: Vec<char>)
        ensures
            s@ == self.spec_name(),
    {
        let mut v: Vec<char> = Vec::new();
        v.push(self.file_char());
        v.push(self.rank_char());
        v
    }

    /// Reads a square from the first two characters of its algebraic name, such as "e4";
    /// characters after the second are ignored.
    pub fn from_chars(s: &[char]) -> (res: Option<Square>)
        ensures
            res == spec_square_from_chars(s@),
    {
        if s.len() < 2 {
            return None;
        }
        let f = s[0];
        let r = s[1];
        if 'a' <= f && f <= 'h' && '1' <= r && r <= '8' {
            let file = (f as u32 - 97) as u8;
            let rank = (r as u32 - 49) as u8;
            Some(Square::from_coords(rank, file))
        } else {
            None
        }
    }
}

/// The square with the given index (from 0 to 63).
pub open spec fn square_at(i: int) -> Square {
    match i as u8 {
        0 => Square::A1,
        1 => Square::B1,
        2 => Square::C1,
        3 => Square::D1,
        4 => Square::E1,
        5 => Square::F1,
        6 => Square::G1,
        7 => Square::H1,
        8 => Square::A2,
        9 => Square::B2,
        10 => Square::C2,
        11 => Square::D2,
        12 => Square::E2,
        13 => Square::F2,
        14 => Square::G2,
        15 => Square::H2,
        16 => Square::A3,
        17 => Square::B3,
        18 => Square::C3,
        19 => Square::D3,
        20 => Square::E3,
        21 => Square::F3,
        22 => Square::G3,
        23 => Square::H3,
        24 => Square::A4,
        25 => Square::B4,
        26 => Square::C4,
        27 => Square::D4,
        28 => Square::E4,
        29 => Square::F4,
        30 => Square::G4,
        31 => Square::H4,
        32 => Square::A5,
        33 => Square::B5,
        34 => Square::C5,
        35 => Square::D5,
        36 => Square::E5,
        37 => Square::F5,
        38 => Square::G5,
        39 => Square::H5,
        40 => Square::A6,
        41 => Square::B6,
        42 => Square::C6,
        43 => Square::D6,
        44 => Square::E6,
        45 => Square::F6,
        46 => Square::G6,
        47 => Square::H6,
        48 => Square::A7,
        49 => Square::B7,
        50 => Square::C7,
        51 => Square::D7,
        52 => Square::E7,
        53 => Square::F7,
        54 => Square::G7,
        55 => Square::H7,
        56 => Square::A8,
        57 => Square::B8,
        58 => Square::C8,
        59 => Square::D8,
        60 => Square::E8,
        61 => Square::F8,
        62 => Square::G8,
        _ => Square::H8,
    }
}

/// A square's index is one of 0 to 63.
pub broadcast proof fn lemma_square_idx_range(sq: Square)
    ensures
        0 <= #[trigger] sq.idx() < 64,
{
}

/// The letter of a file.
pub open spec fn file_char_of(file: int) -> char {
    (97 + file) as char
}

/// The digit of a rank.
pub open spec fn rank_char_of(rank: int) -> char {
    (49 + rank) as char
}

/// The square named by the first two characters of `s`, if they name one.
pub open spec fn spec_square_from_chars(s: Seq<char>) -> Option<Square> {
    if s.len() >= 2 && 'a' <= s[0] <= 'h' && '1' <= s[1] <= '8' {
        Some(square_at(8 * (s[1] as int - 49) + (s[0] as int - 97)))
    } else {
        None
    }
}

/// The square at an index has that index.
pub proof fn lemma_square_at_idx(i: int)
    requires
        0 <= i < 64,
    ensures
        square_at(i).idx() == i,
{
    assert(i as u8 == i);
}

/// Reading a square's name gives the square back.
pub proof fn lemma_square_name_round_trip(sq: Square)
    ensures
        spec_square_from_chars(sq.spec_name()) == Some(sq),
        square_at(sq.idx()) == sq,
{
    broadcast use lemma_square_idx_range;

    match sq {
        Square::A1 => {},
        Square::B1 => {},
        Square::C1 => {},
        Square::D1 => {},
        Square::E1 => {},
        Square::F1 => {},
        Square::G1 => {},
        Square::H1 => {},
        Square::A2 => {},
        Square::B2 => {},
        Square::C2 => {},
        Square::D2 => {},
        Square::E2 => {},
        Square::F2 => {},
        Square::G2 => {},
        Square::H2 => {},
        Square::A3 => {},
        Square::B3 => {},
        Square::C3 => {},
        Square::D3 => {},
        Square::E3 => {},
        Square::F3 => {},
        Square::G3 => {},
        Square::H3 => {},
        Square::A4 => {},
        Square::B4 => {},
        Square::C4 => {},
        Square::D4 => {},
        Square::E4 => {},
        Square::F4 => {},
        Square::G4 => {},
        Square::H4 => {},
        Square::A5 => {},
        Square::B5 => {},
        Square::C5 => {},
        Square::D5 => {},
        Square::E5 => {},
        Square::F5 => {},
        Square::G5 => {},
        Square::H5 => {},
        Square::A6 => {},
        Square::B6 => {},
        Square::C6 => {},
        Square::D6 => {},
        Square::E6 => {},
        Square::F6 => {},
        Square::G6 => {},
        Square::H6 => {},
        Square::A7 => {},
        Square::B7 => {},
        Square::C7 => {},
        Square::D7 => {},
        Square::E7 => {},
        Square::F7 => {},
        Square::G7 => {},
        Square::H7 => {},
        Square::A8 => {},
        Square::B8 => {},
        Square::C8 => {},
        Square::D8 => {},
        Square::E8 => {},
        Square::F8 => {},
        Square::G8 => {},
        Square::H8 => {},
    }
}

} // verus!
