//! The calls into the `chess` crate. Each item below is trusted: Verus believes its contract.
//! A `chess::Board` and a `chess::BoardBuilder` are opaque to Verus; what they hold is named by
//! the spec functions below, and what the library reads from them comes back as plain values.
use vstd::prelude::*;

use crate::piece::{PieceColor, PieceType};
use crate::position::{move_code, BoardMove, BoardStatus, CastleRights};
use crate::square::{file_char_of, spec_square_from_chars, Square};
use crate::text::split_on;

verus! {

#[verifier::external_type_specification]
#[verifier::external_body]
pub struct ExBoard(chess::Board);

#[verifier::external_type_specification]
#[verifier::external_body]
pub struct ExBoardBuilder(chess::BoardBuilder);

#[verifier::external_type_specification]
#[verifier::external_body]
pub struct ExChessError(chess::Error);

/// `chess::Board::from_str` accepts a text whose first four space-separated fields (placement,
/// side, castle rights, en passant square) are these: the fields are well formed and the position
/// passes the crate's sanity checks. It reads no other field.
pub uninterp spec fn fields_accepted(fields: Seq<Seq<char>>) -> bool;

/// The board that `chess::Board::from_str` makes of a text with these first four fields.
pub uninterp spec fn fields_board(fields: Seq<Seq<char>>) -> chess::Board;

/// `chess::Board::from_str` accepts the text: it has at least four space-separated fields and
/// the first four are accepted.
pub open spec fn board_fen_accepted(fen: Seq<char>) -> bool {
    split_on(fen, ' ').len() >= 4 && fields_accepted(split_on(fen, ' ').take(4))
}

/// The squares of a `chess::Board`: for each square index, the piece on it as a number, as
/// `builder_piece_code` numbers them (0 for none, 1 plus the kind's index, plus 6 for Black).
pub uninterp spec fn board_squares(b: chess::Board) -> Seq<int>;

/// The other fields of a `chess::Board`, as numbers: the side to move (0 White, 1 Black),
/// White's and Black's castle rights (as `rights_code`), the index of the square of the pawn
/// that can be taken en passant (-1 for none), the indices of White's and Black's king squares,
/// the position hash, the status (0 ongoing, 1 stalemate, 2 checkmate), the squares of the
/// pieces that check the side to move (one bit per square index), and whether
/// `chess::Board::is_sane` holds (1) or not (0).
pub uninterp spec fn board_fields(b: chess::Board) -> Seq<int>;

/// The board that `chess::Board::from_str` makes of a text it accepts.
pub open spec fn parsed_board(fen: Seq<char>) -> chess::Board {
    fields_board(split_on(fen, ' ').take(4))
}

/// The text that the `Display` of `chess::Board` writes for a board (see `board_to_fen`).
pub open spec fn board_written(b: chess::Board) -> Seq<char> {
    builder_placement(board_squares(b)) + spec_builder_tail(spec_board_builder_fields(b))
}

/// Reading the text the board writes gives the board back: `chess::Board::from_str` accepts
/// it and makes this very board.
pub open spec fn spec_reads_back(b: chess::Board) -> bool {
    board_fen_accepted(board_written(b)) && parsed_board(board_written(b)) == b
}

/// The board that `chess::Board::make_move_new` gives for a board and a move, the move given as
/// the indices of its source and destination squares and of its promotion kind.
pub uninterp spec fn board_after_move(b: chess::Board, m: (u8, u8, Option<u8>)) -> chess::Board;

/// The board is the one `chess::Board::from_str` reads from the text: it holds the squares the
/// text's placement gives, and the side to move and castle rights the text gives.
pub open spec fn spec_read_from(b: chess::Board, fen: Seq<char>) -> bool {
    &&& b == parsed_board(fen)
    &&& board_squares(b) == fen_builder_squares(fen)
    &&& board_fields(b)[0] == spec_builder_fields_of(fen)[0]
    &&& board_fields(b)[1] == spec_builder_fields_of(fen)[1]
    &&& board_fields(b)[2] == spec_builder_fields_of(fen)[2]
}

/// The FEN of the starting position, as `chess::Board::default` reads it.
pub open spec fn spec_start_fen() -> Seq<char> {
    "rnbqkbnr/pppppppp/8/8/8/8/PPPPPPPP/RNBQKBNR w KQkq - 0 1"@
}

/// The legal moves that `chess::MoveGen::new_legal` yields for a board, in its order, each as
/// the indices of its source and destination squares and of the promotion kind.
pub uninterp spec fn board_legal(b: chess::Board) -> Seq<(u8, u8, Option<u8>)>;

/// The board is sane (`chess::Board::is_sane`): no square holds two pieces, each side has
/// exactly one king, the en passant pawn is in place, the side not to move is not in check, and
/// castle rights match unmoved kings and rooks.
pub open spec fn board_sane(b: chess::Board) -> bool {
    board_fields(b)[9] == 1
}

/// The color of a piece number.
pub open spec fn code_color(c: int) -> Option<PieceColor> {
    if 1 <= c <= 6 {
        Some(PieceColor::White)
    } else if 7 <= c <= 12 {
        Some(PieceColor::Black)
    } else {
        None
    }
}

/// The kind index of a piece number.
pub open spec fn code_kind(c: int) -> Option<u8> {
    if 1 <= c <= 12 {
        Some(((c - 1) % 6) as u8)
    } else {
        None
    }
}

/// The number of a status.
pub open spec fn status_code(s: BoardStatus) -> int {
    match s {
        BoardStatus::Ongoing => 0,
        BoardStatus::Stalemate => 1,
        BoardStatus::Checkmate => 2,
    }
}

/// The builder fields (see `builder_fields`) of the builder a board converts to: its side, its
/// castle rights, and the file of its en passant pawn.
pub open spec fn spec_board_builder_fields(b: chess::Board) -> Seq<int> {
    let f = board_fields(b);
    seq![f[0], f[1], f[2], if f[3] < 0 { -1 } else { f[3] % 8 }]
}

/// `chess::Board::default`: `chess::Board::from_str` of the starting position's FEN, which it
/// accepts (else it panics, which it does not), so the board holds the squares and fields read
/// from that text and is sane. Like every board `from_str` makes, it reads back from the text it
/// writes (see `board_from_str`).
#[verifier::external_body]
pub(crate) fn board_default() -> (b: chess::Board)
    ensures
        b == parsed_board(spec_start_fen()),
        spec_reads_back(b),
        board_sane(b),
        board_squares(b) == fen_builder_squares(spec_start_fen()),
        board_fields(b)[0] == spec_builder_fields_of(spec_start_fen())[0],
        board_fields(b)[1] == spec_builder_fields_of(spec_start_fen())[1],
        board_fields(b)[2] == spec_builder_fields_of(spec_start_fen())[2],
        board_fields(b)[3] == -1,
{
    chess::Board::default()
}

/// `chess::Board::from_str`: `BoardBuilder::from_str`, then the conversion to a board, which
/// copies the builder's squares, side to move and castle rights, sets the en passant pawn only
/// when it can be taken, and succeeds when the board is sane. It succeeds exactly when the text
/// is accepted. The conversion reads the square of the king of the side to move before it checks
/// that there is one, and with none it reads out of its move tables (undefined behaviour; an
/// abort where the standard library checks it). `requires` leaves those texts out: those that
/// the board builder accepts and whose squares hold no king of the side to move. Which en passant
/// pawn the board keeps is stated only in part: when it keeps one, the text named a square on
/// its file, and the pawn stands on the fifth rank when White is to move, on the fourth when
/// Black is; whether it keeps it depends on the pawns beside it. Only the first four fields are
/// read. The board it makes reads back from the text it writes: that text holds the board's
/// squares, side, castle rights and en passant file, and reading it builds the board the same way.
#[verifier::external_body]
pub(crate) fn board_from_str(fen: &str) -> (res: Result<chess::Board, chess::Error>)
    requires
        spec_board_parse_safe(fen@),
    ensures
        res.is_ok() == (split_on(fen@, ' ').len() >= 4 && fields_accepted(split_on(fen@, ' ').take(4))),
        res is Ok ==> spec_builder_accepts(fen@),
        res matches Ok(b) ==> {
            &&& b == fields_board(split_on(fen@, ' ').take(4))
            &&& spec_reads_back(b)
            &&& board_sane(b)
            &&& board_fields(b)[3] != -1 ==> {
                &&& 0 <= spec_builder_fields_of(fen@)[3]
                &&& board_fields(b)[3] % 8 == spec_builder_fields_of(fen@)[3]
                &&& board_fields(b)[3] / 8 == (if board_fields(b)[0] == 0 { 4int } else { 3int })
            }
            &&& board_squares(b) == fen_builder_squares(fen@)
            &&& board_fields(b)[0] == spec_builder_fields_of(fen@)[0]
            &&& board_fields(b)[1] == spec_builder_fields_of(fen@)[1]
            &&& board_fields(b)[2] == spec_builder_fields_of(fen@)[2]
        },
{
    <chess::Board as std::str::FromStr>::from_str(fen)
}

/// `chess::Board::side_to_move`: the side field.
#[verifier::external_body]
pub(crate) fn board_side_to_move(board: &chess::Board) -> (c: PieceColor)
    ensures
        color_code(c) == board_fields(*board)[0],
{
    match board.side_to_move() {
        chess::Color::White => PieceColor::White,
        chess::Color::Black => PieceColor::Black,
    }
}

/// `chess::Board::color_on`: the color of the piece on a square, if any.
#[verifier::external_body]
pub(crate) fn board_color_on(board: &chess::Board, sq: Square) -> (res: Option<PieceColor>)
    ensures
        res == code_color(board_squares(*board)[sq.idx()]),
{
    match board.color_on(chess::ALL_SQUARES[sq as usize]) {
        Some(chess::Color::White) => Some(PieceColor::White),
        Some(chess::Color::Black) => Some(PieceColor::Black),
        None => None,
    }
}

/// `chess::Board::piece_on`: the index of the kind of the piece on a square, if any
/// (`Piece::to_index`, below 6).
#[verifier::external_body]
pub(crate) fn board_piece_on(board: &chess::Board, sq: Square) -> (res: Option<u8>)
    ensures
        res == code_kind(board_squares(*board)[sq.idx()]),
        res matches Some(t) ==> t < 6,
{
    match board.piece_on(chess::ALL_SQUARES[sq as usize]) {
        Some(p) => Some(p.to_index() as u8),
        None => None,
    }
}

/// `chess::Board::castle_rights` of one side.
#[verifier::external_body]
pub(crate) fn board_castle_rights(board: &chess::Board, color: PieceColor) -> (r: CastleRights)
    ensures
        rights_code(r) == board_fields(*board)[1 + color_code(color)],
{
    match board.castle_rights(match color {
        PieceColor::White => chess::Color::White,
        PieceColor::Black => chess::Color::Black,
    }) {
        chess::CastleRights::NoRights => CastleRights::NoRights,
        chess::CastleRights::KingSide => CastleRights::KingSide,
        chess::CastleRights::QueenSide => CastleRights::QueenSide,
        chess::CastleRights::Both => CastleRights::Both,
    }
}

/// `chess::Board::en_passant`: the index of the square of the pawn that can be taken en
/// passant, if any (`Square::to_index`, below 64).
#[verifier::external_body]
pub(crate) fn board_en_passant(board: &chess::Board) -> (res: Option<u8>)
    ensures
        match res {
            Some(s) => s < 64 && board_fields(*board)[3] == s,
            None => board_fields(*board)[3] == -1,
        },
{
    match board.en_passant() {
        Some(s) => Some(s.to_index() as u8),
        None => None,
    }
}

/// `chess::Board::king_square`: the index of the square of a side's king, below 64 on a sane
/// board, which has a king of each side (without one the crate gives 64).
#[verifier::external_body]
pub(crate) fn board_king_square(board: &chess::Board, color: PieceColor) -> (res: u8)
    requires
        board_sane(*board),
    ensures
        res < 64,
        res == board_fields(*board)[4 + color_code(color)],
        board_squares(*board)[res as int] == king_code(color),
{
    board.king_square(match color {
        PieceColor::White => chess::Color::White,
        PieceColor::Black => chess::Color::Black,
    }).to_index() as u8
}

/// `chess::Board::get_hash`: the Zobrist hash of the position.
#[verifier::external_body]
pub(crate) fn board_hash(board: &chess::Board) -> (h: u64)
    ensures
        h == board_fields(*board)[6],
{
    board.get_hash()
}

/// `chess::Board::status`: ongoing, stalemate or checkmate. It generates the legal moves, which
/// needs the king of the side to move: the board is sane.
#[verifier::external_body]
pub(crate) fn board_status(board: &chess::Board) -> (s: BoardStatus)
    requires
        board_sane(*board),
    ensures
        status_code(s) == board_fields(*board)[7],
{
    match board.status() {
        chess::BoardStatus::Ongoing => BoardStatus::Ongoing,
        chess::BoardStatus::Stalemate => BoardStatus::Stalemate,
        chess::BoardStatus::Checkmate => BoardStatus::Checkmate,
    }
}

/// `chess::Board::checkers`: the squares of the pieces that check the side to move, one bit
/// per square index.
#[verifier::external_body]
pub(crate) fn board_checkers(board: &chess::Board) -> (c: u64)
    ensures
        c == board_fields(*board)[8],
{
    board.checkers().0
}

/// `chess::MoveGen::new_legal`: the legal moves of the position, as the generator yields them,
/// each as the indices of its source and destination squares and of the promotion kind
/// (`board_legal`); the indices are in range. The generator needs the king of the side to
/// move: the board is sane.
#[verifier::external_body]
pub(crate) fn board_legal_moves(board: &chess::Board) -> (res: Vec<(u8, u8, Option<u8>)>)
    requires
        board_sane(*board),
    ensures
        res@ == board_legal(*board),
        forall|k: int| 0 <= k < res@.len() ==> #[trigger] res@[k].0 < 64 && res@[k].1 < 64 && (
        res@[k].2 matches Some(t) ==> t < 6),
{
    chess::MoveGen::new_legal(board).map(
        |m| (
            m.get_source().to_index() as u8,
            m.get_dest().to_index() as u8,
            m.get_promotion().map(|p| p.to_index() as u8),
        ),
    ).collect()
}

/// `Display` of `chess::Board`: the board converts to a `BoardBuilder` with the same squares,
/// side to move and castle rights, and the file of its en passant pawn, and that builder is
/// written (see `builder_to_string`). The placement it writes is made of piece letters, digits
/// for runs of empty squares and `/` between ranks, holds no space, and `BoardBuilder::from_str`
/// reads the same squares back from it.
#[verifier::external_body]
pub(crate) fn board_to_fen(board: &chess::Board) -> (s: String)
    ensures
        s@ == builder_placement(board_squares(*board)) + spec_builder_tail(spec_board_builder_fields(*board)),
        !s@.take(builder_placement(board_squares(*board)).len() as int).contains(' '),
        forall|i: int|
            0 <= i < builder_placement(board_squares(*board)).len() ==> placement_char(#[trigger] s@[i]),
        placement_squares(s@.take(builder_placement(board_squares(*board)).len() as int)) == board_squares(
            *board,
        ),
{
    board.to_string()
}

/// `chess::Board::make_move_new`: the board after the move, which is sane, with the other side
/// to move, the source square empty and the moved piece (or the promoted one) on the
/// destination. The crate makes any move it is given and panics, or reads out of its tables, on
/// some that are not legal (an empty source square, a king taken); `requires` admits the legal
/// moves of a sane board only. The board after a legal move reads back from the text it writes
/// when the board before did: the move keeps the piece hash, castle rights and en passant pawn in
/// step with the squares, and finds the same checkers and pinned pieces that reading the text
/// computes. The other squares (a rook that castles, a pawn taken en passant)
/// and fields are not stated.
#[verifier::external_body]
pub(crate) fn board_make_move(board: &chess::Board, mv: BoardMove) -> (res: chess::Board)
    requires
        board_sane(*board),
        board_legal(*board).contains(move_code(mv)),
    ensures
        res == board_after_move(*board, move_code(mv)),
        spec_reads_back(*board) ==> spec_reads_back(res),
        board_sane(res),
        board_fields(res)[0] == 1 - board_fields(*board)[0],
        board_squares(res)[mv.from.idx()] == 0,
        board_squares(res)[mv.to.idx()] == match mv.promotion {
            Some(t) => 1 + t.idx() + 6 * board_fields(*board)[0],
            None => board_squares(*board)[mv.from.idx()],
        },
{
    let promotion = match mv.promotion {
        Some(t) => Some(chess::ALL_PIECES[t as usize]),
        None => None,
    };
    let m = chess::ChessMove::new(
        chess::ALL_SQUARES[mv.from as usize],
        chess::ALL_SQUARES[mv.to as usize],
        promotion,
    );
    board.make_move_new(m)
}


/// The squares of a `chess::BoardBuilder`: for each square index, the piece the builder holds
/// there, as a number.
pub uninterp spec fn builder_squares(b: chess::BoardBuilder) -> Seq<int>;

/// The other fields of a `chess::BoardBuilder`, as numbers: the side to move (0 White, 1 Black),
/// White's and Black's castle rights (0 none, 1 king's side, 2 queen's side, 3 both) and the
/// file of the en passant pawn (0 to 7, or -1 for none).
pub uninterp spec fn builder_fields(b: chess::BoardBuilder) -> Seq<int>;

/// The squares that `chess::BoardBuilder::from_str` reads from a placement field.
pub uninterp spec fn placement_squares(field: Seq<char>) -> Seq<int>;

/// The squares that `chess::BoardBuilder::from_str` reads from a FEN: those of its first field,
/// the placement.
pub open spec fn fen_builder_squares(fen: Seq<char>) -> Seq<int> {
    placement_squares(split_on(fen, ' ')[0])
}

/// The placement field that the `Display` of `chess::BoardBuilder` writes for the squares.
pub uninterp spec fn builder_placement(squares: Seq<int>) -> Seq<char>;

/// The number of a side.
pub open spec fn color_code(c: PieceColor) -> int {
    match c {
        PieceColor::White => 0,
        PieceColor::Black => 1,
    }
}

/// The number of castle rights (`chess::CastleRights::to_index`).
pub open spec fn rights_code(r: CastleRights) -> int {
    match r {
        CastleRights::NoRights => 0,
        CastleRights::KingSide => 1,
        CastleRights::QueenSide => 2,
        CastleRights::Both => 3,
    }
}

/// A character `chess::BoardBuilder::from_str` accepts in the placement field.
pub open spec fn placement_char(c: char) -> bool {
    c == '/' || ('1' <= c <= '8') || c == 'r' || c == 'R' || c == 'n' || c == 'N' || c == 'b'
        || c == 'B' || c == 'p' || c == 'P' || c == 'q' || c == 'Q' || c == 'k' || c == 'K'
}

/// `chess::BoardBuilder::from_str` accepts the text: it has at least four space-separated
/// fields, the first made of placement characters and the second one of `w`, `W`, `b`, `B`.
pub open spec fn spec_builder_accepts(fen: Seq<char>) -> bool {
    let t = split_on(fen, ' ');
    &&& t.len() >= 4
    &&& forall|i: int| 0 <= i < t[0].len() ==> placement_char(#[trigger] t[0][i])
    &&& (t[1] == "w"@ || t[1] == "W"@ || t[1] == "b"@ || t[1] == "B"@)
}

/// The castle rights read from the castling field: king's side when the field holds `king`,
/// queen's side when it holds `queen`.
pub open spec fn spec_rights_in(field: Seq<char>, king: char, queen: char) -> CastleRights {
    CastleRights::spec_from_flags(field.contains(king), field.contains(queen))
}

/// The fields `chess::BoardBuilder::from_str` sets from an accepted text: the side from the
/// second field, the castle rights from the third, and the en passant file from the fourth when
/// that names a square.
pub open spec fn spec_builder_fields_of(fen: Seq<char>) -> Seq<int> {
    let t = split_on(fen, ' ');
    seq![
        if t[1] == "w"@ || t[1] == "W"@ { 0 } else { 1 },
        rights_code(spec_rights_in(t[2], 'K', 'Q')),
        rights_code(spec_rights_in(t[2], 'k', 'q')),
        match spec_square_from_chars(t[3]) {
            Some(sq) => sq.file_idx(),
            None => -1,
        },
    ]
}

/// What `CastleRights::to_string` writes: `K` and `Q` for the rights held, upper case for
/// White and lower case for Black.
pub open spec fn spec_rights_text(code: int, white: bool) -> Seq<char> {
    let k = if white { 'K' } else { 'k' };
    let q = if white { 'Q' } else { 'q' };
    if code == 1 {
        seq![k]
    } else if code == 2 {
        seq![q]
    } else if code == 3 {
        seq![k, q]
    } else {
        Seq::empty()
    }
}

/// The text that the `Display` of `chess::BoardBuilder` writes for its fields between the
/// placement and the counters: the side, the castle rights (`-` when neither side has any), the
/// square of the en passant pawn (on the fifth rank when White is to move, on the fourth
/// otherwise; `-` when none), each after a space, and a last space.
pub open spec fn spec_builder_fields_text(f: Seq<int>) -> Seq<char> {
    " "@ + (if f[0] == 0 { "w "@ } else { "b "@ }) + spec_rights_text(f[1], true)
        + spec_rights_text(f[2], false) + (if f[1] == 0 && f[2] == 0 { "-"@ } else { Seq::empty() })
        + " "@ + (if f[3] < 0 { "-"@ } else { seq![file_char_of(f[3]), if f[0] == 0 { '5' } else { '4' }] })
        + " "@
}

/// The text after the placement that the `Display` of `chess::BoardBuilder` writes: the fields,
/// then the counters, always "0 1".
pub open spec fn spec_builder_tail(f: Seq<int>) -> Seq<char> {
    spec_builder_fields_text(f) + "0 1"@
}

/// `chess::BoardBuilder::from_str`. Its source accepts exactly the texts described by
/// `spec_builder_accepts` (it never panics); the builder it returns holds the squares read from
/// the placement field and the fields described by `spec_builder_fields_of`.
#[verifier::external_body]
pub(crate) fn builder_from_str(fen: &str) -> (res: Result<chess::BoardBuilder, chess::Error>)
    ensures
        res is Ok <==> spec_builder_accepts(fen@),
        res matches Ok(b) ==> builder_squares(b) == fen_builder_squares(fen@) && builder_fields(b)
            == spec_builder_fields_of(fen@) && builder_squares(b).len() == 64,
{
    <chess::BoardBuilder as std::str::FromStr>::from_str(fen)
}

/// `chess::BoardBuilder::get_side_to_move`: the side field.
#[verifier::external_body]
pub(crate) fn builder_side_to_move(b: &chess::BoardBuilder) -> (c: PieceColor)
    ensures
        builder_fields(*b)[0] == color_code(c),
{
    match b.get_side_to_move() {
        chess::Color::White => PieceColor::White,
        chess::Color::Black => PieceColor::Black,
    }
}

/// `chess::BoardBuilder::side_to_move`: sets the side field and nothing else.
#[verifier::external_body]
pub(crate) fn builder_set_side_to_move(b: &mut chess::BoardBuilder, c: PieceColor)
    ensures
        builder_squares(*final(b)) == builder_squares(*old(b)),
        builder_fields(*final(b)) == builder_fields(*old(b)).update(0, color_code(c)),
{
    b.side_to_move(match c {
        PieceColor::White => chess::Color::White,
        PieceColor::Black => chess::Color::Black,
    });
}

/// `chess::BoardBuilder::castle_rights`: sets the castle rights of one side and nothing else.
#[verifier::external_body]
pub(crate) fn builder_set_castle_rights(b: &mut chess::BoardBuilder, color: PieceColor, rights: CastleRights)
    ensures
        builder_squares(*final(b)) == builder_squares(*old(b)),
        builder_fields(*final(b)) == builder_fields(*old(b)).update(
            1 + color_code(color),
            rights_code(rights),
        ),
{
    let r = match rights {
        CastleRights::NoRights => chess::CastleRights::NoRights,
        CastleRights::KingSide => chess::CastleRights::KingSide,
        CastleRights::QueenSide => chess::CastleRights::QueenSide,
        CastleRights::Both => chess::CastleRights::Both,
    };
    match color {
        PieceColor::White => b.castle_rights(chess::Color::White, r),
        PieceColor::Black => b.castle_rights(chess::Color::Black, r),
    };
}

/// `chess::BoardBuilder::en_passant`: sets the en passant file (a file index below 8) or clears
/// it, and nothing else.
#[verifier::external_body]
pub(crate) fn builder_set_en_passant(b: &mut chess::BoardBuilder, file: Option<u8>)
    requires
        file matches Some(f) ==> f < 8,
    ensures
        builder_squares(*final(b)) == builder_squares(*old(b)),
        builder_fields(*final(b)) == builder_fields(*old(b)).update(
            3,
            match file {
                Some(f) => f as int,
                None => -1,
            },
        ),
{
    b.en_passant(match file {
        Some(f) => Some(chess::ALL_FILES[f as usize]),
        None => None,
    });
}

/// `Display` of `chess::BoardBuilder`: the placement field written from its squares, followed
/// by the text `spec_builder_tail` of its fields. The placement is made of piece letters, digits
/// and `/`, so it holds no space.
#[verifier::external_body]
pub(crate) fn builder_to_string(b: &chess::BoardBuilder) -> (s: String)
    ensures
        s@ == builder_placement(builder_squares(*b)) + spec_builder_tail(builder_fields(*b)),
        forall|i: int| 0 <= i < builder_placement(builder_squares(*b)).len() ==> s@[i] != ' ',
{
    b.to_string()
}

/// The number of a piece on a builder's square (see `builder_piece_code`) for the king of a
/// side.
pub open spec fn king_code(c: PieceColor) -> int {
    6 + 6 * color_code(c)
}

/// `chess::Board::from_str` can read the text safely: when the board builder accepts it, its
/// squares hold a king of the side to move.
pub open spec fn spec_board_parse_safe(fen: Seq<char>) -> bool {
    spec_builder_accepts(fen) ==> exists|i: int|
        0 <= i < 64 && #[trigger] fen_builder_squares(fen)[i] == king_code(
            if spec_builder_fields_of(fen)[0] == 0 {
                PieceColor::White
            } else {
                PieceColor::Black
            },
        )
}

/// `Index<Square>` of `chess::BoardBuilder`: the piece on a square, as the index of its kind
/// (`Piece::to_index`, pawn 0 up to king 5) and of its color (`Color::to_index`, White 0, Black
/// 1); the square's number (see `builder_squares`) is 0 for none, else 1 plus the kind's index,
/// plus 6 for Black.
#[verifier::external_body]
pub(crate) fn builder_piece_on(b: &chess::BoardBuilder, sq: Square) -> (res: Option<(u8, u8)>)
    ensures
        match res {
            None => builder_squares(*b)[sq.idx()] == 0,
            Some((kind, color)) => kind < 6 && color < 2 && builder_squares(*b)[sq.idx()] == 1 + kind + 6
                * color,
        },
{
    match b[chess::ALL_SQUARES[sq as usize]] {
        None => None,
        Some((piece, color)) => Some((piece.to_index() as u8, color.to_index() as u8)),
    }
}

/// The number of the piece on a builder's square: 0 for none, else 1 plus the kind's index,
/// plus 6 for Black.
pub(crate) fn builder_piece_code(b: &chess::BoardBuilder, sq: Square) -> (c: u8)
    ensures
        c as int == builder_squares(*b)[sq.idx()],
        c <= 12,
{
    match builder_piece_on(b, sq) {
        None => 0,
        Some((kind, color)) => 1 + kind + 6 * color,
    }
}

} // verus!
