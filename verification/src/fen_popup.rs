//! The FEN editor: a FEN text and controls for the side to move, the castle rights, the en
//! passant file and the move counters, each kept in step with the other.
use std::collections::hash_map::DefaultHasher;
use std::hash::{BuildHasher, BuildHasherDefault, Hash, Hasher};

use vstd::prelude::*;

use crate::chess_calls::{
    board_castle_rights, board_en_passant, board_fen_accepted, board_fields, board_from_str, board_sane,
    board_side_to_move, parsed_board, spec_read_from, spec_reads_back,
    builder_fields, builder_from_str, builder_placement, builder_set_castle_rights,
    builder_set_en_passant, builder_set_side_to_move, builder_side_to_move, builder_squares,
    builder_to_string, fen_builder_squares, rights_code,
    spec_board_parse_safe, spec_builder_accepts, spec_builder_fields_of, spec_builder_fields_text,
};
use crate::game::{board_error, board_parse_safe, spec_board_error, ChessError, LoadGame, MenuState};
use crate::piece::PieceColor;
use crate::position::CastleRights;
use crate::square::Square;
use crate::fen_fields::{lemma_castles_field, lemma_fen_text_read, spec_fen_text};
use crate::text::{
    decimal, parse_unsigned, parse_unsigned_chars,
    push_decimal, split_chars, split_on, str_chars, string_from_chars,
};

verus! {

/// The FEN of the starting position.
pub const DEFAULT_FEN: &'static str = "rnbqkbnr/pppppppp/8/8/8/8/PPPPPPPP/RNBQKBNR w KQkq - 0 1";

/// `Hash::hash` of the value into the hasher. What it writes depends on the type's `Hash`
/// impl and is not stated.
#[verifier::external_body]
fn hash_into<T: Hash>(value: &T, hasher: &mut DefaultHasher) {
    value.hash(hasher)
}

/// A hash of the value, by a fresh `DefaultHasher`; the editor compares hashes to notice edits.
pub fn compute_hash<T: Hash>(value: &T) -> u64 {
    let mut hasher = DefaultHasher::new();
    hash_into(value, &mut hasher);
    hasher.finish()
}

/// The hash that the standard library's default hasher (`DefaultHasher::new`, whose keys are
/// fixed) gives for a text. The value depends on the standard library's release; within one
/// program, the same text always gives the same hash.
pub uninterp spec fn fen_text_hash(text: Seq<char>) -> u64;

/// The hash that the standard library's default hasher gives for the controls, by their derived
/// `Hash`. The value depends on the standard library's release and on the machine's byte order;
/// within one program, the same controls always give the same hash.
pub uninterp spec fn model_hash(m: PopupModel) -> u64;

/// `BuildHasher::hash_one` with the default hasher: the hash of the text (`fen_text_hash`).
#[verifier::external_body]
fn hash_fen_text(text: &String) -> (h: u64)
    ensures
        h == fen_text_hash(text@),
{
    BuildHasherDefault::<DefaultHasher>::default().hash_one(text)
}

/// `BuildHasher::hash_one` with the default hasher: the hash of the controls (`model_hash`).
#[verifier::external_body]
fn hash_model(m: &PopupModel) -> (h: u64)
    ensures
        h == model_hash(*m),
{
    BuildHasherDefault::<DefaultHasher>::default().hash_one(m)
}

/// The castle rights made of a king's side flag and a queen's side flag.
pub fn castle_rights(kingside: bool, queenside: bool) -> (r: CastleRights)
    ensures
        r == CastleRights::spec_from_flags(kingside, queenside),
{
    match (kingside, queenside) {
        (true, true) => CastleRights::Both,
        (true, false) => CastleRights::KingSide,
        (false, true) => CastleRights::QueenSide,
        (false, false) => CastleRights::NoRights,
    }
}

/// The values of the editor's controls.
#[derive(Clone, Copy, Debug, PartialEq, Eq, Hash, Structural)]
pub struct PopupModel {
    pub black_to_move: bool,
    pub castle_rights_white_kingside: bool,
    pub castle_rights_white_queenside: bool,
    pub castle_rights_black_kingside: bool,
    pub castle_rights_black_queenside: bool,
    pub has_en_passant_target: bool,
    /// The file of the en passant pawn, from 0 (file a) to 7 (file h).
    pub en_passant_target_file: u8,
    pub halfmove_clock: u8,
    pub fullmove_count: u16,
}

impl PopupModel {
    /// The en passant file names a file.
    pub open spec fn wf(&self) -> bool {
        self.en_passant_target_file < 8
    }

    /// The fields of a FEN board builder that the controls describe, as numbers (see
    /// `builder_fields`).
    pub open spec fn spec_fields(&self) -> Seq<int> {
        seq![
            if self.black_to_move { 1 } else { 0 },
            rights_code(CastleRights::spec_from_flags(self.castle_rights_white_kingside, self.castle_rights_white_queenside)),
            rights_code(CastleRights::spec_from_flags(self.castle_rights_black_kingside, self.castle_rights_black_queenside)),
            if self.has_en_passant_target { self.en_passant_target_file as int } else { -1 },
        ]
    }

    /// White's castle rights.
    pub fn white_castle_rights(&self) -> (r: CastleRights)
        ensures
            r == CastleRights::spec_from_flags(self.castle_rights_white_kingside, self.castle_rights_white_queenside),
    {
        castle_rights(self.castle_rights_white_kingside, self.castle_rights_white_queenside)
    }

    /// Black's castle rights.
    pub fn black_castle_rights(&self) -> (r: CastleRights)
        ensures
            r == CastleRights::spec_from_flags(self.castle_rights_black_kingside, self.castle_rights_black_queenside),
    {
        castle_rights(self.castle_rights_black_kingside, self.castle_rights_black_queenside)
    }
}

/// The controls of the starting position: White to move, all castle rights, no en passant
/// pawn, the half-move clock at 0 and the full-move count at 1.
pub open spec fn spec_default_model() -> PopupModel {
    PopupModel {
        black_to_move: false,
        castle_rights_white_kingside: true,
        castle_rights_white_queenside: true,
        castle_rights_black_kingside: true,
        castle_rights_black_queenside: true,
        has_en_passant_target: false,
        en_passant_target_file: 0,
        halfmove_clock: 0,
        fullmove_count: 1,
    }
}

impl Default for PopupModel {
    fn default() -> (m: PopupModel)
        ensures
            m == spec_default_model(),
    {
        PopupModel {
            black_to_move: false,
            castle_rights_white_kingside: true,
            castle_rights_white_queenside: true,
            castle_rights_black_kingside: true,
            castle_rights_black_queenside: true,
            has_en_passant_target: false,
            en_passant_target_file: 0,
            halfmove_clock: 0,
            fullmove_count: 1,
        }
    }
}

/// The number in the `k`-th space-separated field of a FEN, when that field is a number of at
/// most `max`.
pub open spec fn spec_fen_number(fen: Seq<char>, k: int, max: nat) -> Option<nat> {
    let t = split_on(fen, ' ');
    if t.len() > k {
        parse_unsigned(t[k], max)
    } else {
        None
    }
}

/// The controls after reading a text the chess engine accepts: the side to move and the castle
/// rights that the text gives, and each move counter that the text holds in range; there is an
/// en passant target exactly when the board read from the text has an en passant pawn, and then
/// its file is the one the text names; else the file stays.
pub open spec fn spec_controls_read(old: PopupModel, new: PopupModel, fen: Seq<char>) -> bool {
    let castles = split_on(fen, ' ')[2];
    &&& new.black_to_move == (spec_builder_fields_of(fen)[0] == 1)
    &&& new.castle_rights_white_kingside == castles.contains('K')
    &&& new.castle_rights_white_queenside == castles.contains('Q')
    &&& new.castle_rights_black_kingside == castles.contains('k')
    &&& new.castle_rights_black_queenside == castles.contains('q')
    &&& new.halfmove_clock == match spec_fen_number(fen, 4, 255) {
        Some(h) => h as u8,
        None => old.halfmove_clock,
    }
    &&& new.fullmove_count == match spec_fen_number(fen, 5, 65535) {
        Some(f) => f as u16,
        None => old.fullmove_count,
    }
    &&& new.has_en_passant_target == (board_fields(parsed_board(fen))[3] != -1)
    &&& new.has_en_passant_target ==> new.en_passant_target_file == spec_builder_fields_of(fen)[3]
    &&& !new.has_en_passant_target ==> new.en_passant_target_file == old.en_passant_target_file
}

/// Reads the fifth and sixth fields of a FEN as the half-move clock and the full-move count,
/// each when it is a number in range.
fn fen_move_numbers(fen: &str) -> (res: (Option<u8>, Option<u16>))
    ensures
        res.0 matches Some(h) ==> spec_fen_number(fen@, 4, 255) == Some(h as nat),
        res.0 is None ==> spec_fen_number(fen@, 4, 255) is None,
        res.1 matches Some(f) ==> spec_fen_number(fen@, 5, 65535) == Some(f as nat),
        res.1 is None ==> spec_fen_number(fen@, 5, 65535) is None,
{
    let chars = str_chars(fen);
    let fields = split_chars(chars.as_slice(), ' ');
    let half = if fields.len() > 4 {
        match parse_unsigned_chars(fields[4].as_slice(), 255) {
            Some(h) => Some(h as u8),
            None => None,
        }
    } else {
        None
    };
    let full = if fields.len() > 5 {
        match parse_unsigned_chars(fields[5].as_slice(), 65535) {
            Some(f) => Some(f as u16),
            None => None,
        }
    } else {
        None
    };
    (half, full)
}

/// The text the editor writes from its controls: the placement written by the board builder,
/// the builder's fields set from the controls, then the half-move clock and the full-move count.
pub open spec fn spec_fen_from_controls(placement: Seq<char>, m: PopupModel) -> Seq<char> {
    placement + spec_builder_fields_text(m.spec_fields()) + decimal(m.halfmove_clock as nat) + " "@
        + decimal(m.fullmove_count as nat)
}

/// The text the controls are written into: the editor's text, or the starting position's FEN
/// when the text is empty.
pub open spec fn spec_fen_base(fen: Seq<char>) -> Seq<char> {
    if fen.len() == 0 {
        DEFAULT_FEN@
    } else {
        fen
    }
}

/// Sets the side to move, the castle rights and the en passant file of a board builder from
/// the controls; its squares stay.
fn set_builder_fields(b: &mut chess::BoardBuilder, m: &PopupModel)
    requires
        m.wf(),
        builder_fields(*old(b)).len() == 4,
    ensures
        builder_squares(*final(b)) == builder_squares(*old(b)),
        builder_fields(*final(b)) == m.spec_fields(),
{
    let side = builder_side_to_move(b);
    let fen_black_to_move = side == PieceColor::Black;
    if fen_black_to_move != m.black_to_move {
        builder_set_side_to_move(b, side.not());
    }
    assert(builder_fields(*b)[0] == if m.black_to_move { 1int } else { 0int });
    let white = m.white_castle_rights();
    builder_set_castle_rights(b, PieceColor::White, white);
    let black = m.black_castle_rights();
    builder_set_castle_rights(b, PieceColor::Black, black);
    let en_passant = if m.has_en_passant_target {
        Some(m.en_passant_target_file)
    } else {
        None
    };
    builder_set_en_passant(b, en_passant);
    assert(builder_fields(*b) =~= m.spec_fields());
}

/// The text without its last three characters, then the half-move clock, a space and the
/// full-move count.
fn replace_counters(text: &Vec<char>, half: u8, full: u16) -> (v: Vec<char>)
    requires
        text@.len() >= 3,
    ensures
        v@ == text@.take(text@.len() - 3) + decimal(half as nat) + " "@ + decimal(full as nat),
{
    let keep = text.len() - 3;
    let mut v: Vec<char> = Vec::new();
    let mut i: usize = 0;
    while i < keep
        invariant
            keep == text@.len() - 3,
            i <= keep,
            v@ == text@.take(i as int),
        decreases keep - i,
    {
        v.push(text[i]);
        i = i + 1;
        assert(v@ =~= text@.take(i as int));
    }
    push_decimal(&mut v, half as u64);
    v.push(' ');
    push_decimal(&mut v, full as u64);
    proof {
        reveal_strlit(" ");
    }
    assert(v@ =~= text@.take(text@.len() - 3) + decimal(half as nat) + " "@ + decimal(full as nat));
    v
}

/// The FEN editor: the text, whether it has the focus and whether it was rejected, and the
/// controls; the hashes of the text and of the controls at the last synchronisation tell which
/// of them was edited since.
pub struct PopupState {
    pub focus_fen: bool,
    pub fen: String,
    pub fen_hash: u64,
    pub invalid_fen: bool,
    pub controls: PopupModel,
    pub controls_hash: u64,
}

/// The editor after bringing its text and controls in step, given the hashes they have now:
/// when the text's hash differs from the recorded one, the controls are read from the text
/// (when the chess engine accepts it) and the text's hash is recorded; otherwise, when the
/// controls' hash differs, the text is written from the controls and their hash is recorded;
/// otherwise nothing changes. The focus never changes.
pub open spec fn spec_synced(before: PopupState, after: PopupState, fen_hash: u64, controls_hash: u64) -> bool {
    &&& after.focus_fen == before.focus_fen
    &&& fen_hash != before.fen_hash ==> {
        &&& after.invalid_fen == !board_fen_accepted(before.fen@)
        &&& after.fen == before.fen
        &&& !board_fen_accepted(before.fen@) ==> after.controls == before.controls
        &&& board_fen_accepted(before.fen@) ==> spec_controls_read(before.controls, after.controls, before.fen@)
        &&& after.fen_hash == fen_hash
    }
    &&& fen_hash == before.fen_hash && controls_hash != before.controls_hash ==> {
        &&& after.invalid_fen == !spec_builder_accepts(spec_fen_base(before.fen@))
        &&& !spec_builder_accepts(spec_fen_base(before.fen@)) ==> after.fen@ == spec_fen_base(before.fen@)
        &&& spec_builder_accepts(spec_fen_base(before.fen@)) ==> after.fen@ == spec_fen_from_controls(
            builder_placement(fen_builder_squares(spec_fen_base(before.fen@))),
            before.controls,
        )
        &&& after.controls == before.controls
        &&& after.controls_hash == controls_hash
    }
    &&& fen_hash == before.fen_hash && controls_hash == before.controls_hash ==> after == before
}

impl PopupState {
    /// The recorded hashes are those of the text and of the controls: nothing was edited since
    /// the last synchronisation.
    pub open spec fn spec_in_step(&self) -> bool {
        &&& self.fen_hash == fen_text_hash(self.fen@)
        &&& self.controls_hash == model_hash(self.controls)
    }
}

/// Synchronising twice is synchronising once: an editor whose recorded hashes are those of its
/// text and controls is left as it is by the next synchronisation.
pub proof fn lemma_sync_settles(p: PopupState, q: PopupState)
    requires
        p.spec_in_step(),
        spec_synced(p, q, fen_text_hash(p.fen@), model_hash(p.controls)),
    ensures
        q == p,
{
}

/// Equal texts have equal hashes, and so do equal controls.
pub proof fn lemma_hashes_deterministic(a: Seq<char>, b: Seq<char>, m: PopupModel, n: PopupModel)
    requires
        a == b,
        m == n,
    ensures
        fen_text_hash(a) == fen_text_hash(b),
        model_hash(m) == model_hash(n),
{
}

impl Default for PopupState {
    fn default() -> (s: PopupState)
        ensures
            s.focus_fen,
            s.fen@ == Seq::<char>::empty(),
            !s.invalid_fen,
            s.controls == spec_default_model(),
            s.spec_in_step(),
    {
        let controls = PopupModel::default();
        let fen = String::new();
        PopupState {
            focus_fen: true,
            fen_hash: hash_fen_text(&fen),
            fen,
            invalid_fen: false,
            controls_hash: hash_model(&controls),
            controls,
        }
    }
}

impl PopupState {
    /// Back to an empty text with the focus and the starting position's controls.
    pub fn reset(&mut self)
        ensures
            final(self).fen@ == Seq::<char>::empty(),
            final(self).focus_fen,
            final(self).controls == spec_default_model(),
            !final(self).invalid_fen,
            final(self).spec_in_step(),
    {
        self.fen = String::new();
        self.fen_hash = hash_fen_text(&self.fen);
        self.focus_fen = true;
        self.controls = PopupModel::default();
        self.controls_hash = hash_model(&self.controls);
        self.invalid_fen = false;
    }

    /// Sets the controls from the text, when the chess engine accepts it as a board: the side
    /// to move, the castle rights and the en passant file as the board has them, and each move
    /// counter that the text holds in range. Records whether the text was rejected.
    pub fn update_controls_from_fen(&mut self)
        requires
            spec_board_parse_safe(old(self).fen@),
        ensures
            final(self).invalid_fen == !board_fen_accepted(old(self).fen@),
            final(self).fen == old(self).fen,
            final(self).focus_fen == old(self).focus_fen,
            final(self).fen_hash == old(self).fen_hash,
            final(self).controls_hash == old(self).controls_hash,
            !board_fen_accepted(old(self).fen@) ==> final(self).controls == old(self).controls,
            board_fen_accepted(old(self).fen@) ==> spec_controls_read(old(self).controls, final(self).controls, old(self).fen@),
            old(self).controls.wf() ==> final(self).controls.wf(),
    {
        let board = board_from_str(self.fen.as_str());
        self.invalid_fen = board.is_err();
        match board {
            Ok(board) => {
                self.controls.black_to_move = board_side_to_move(&board) == PieceColor::Black;
                let white = board_castle_rights(&board, PieceColor::White);
                self.controls.castle_rights_white_kingside = white.has_kingside();
                self.controls.castle_rights_white_queenside = white.has_queenside();
                let black = board_castle_rights(&board, PieceColor::Black);
                self.controls.castle_rights_black_kingside = black.has_kingside();
                self.controls.castle_rights_black_queenside = black.has_queenside();
                match board_en_passant(&board) {
                    Some(s) => {
                        self.controls.has_en_passant_target = true;
                        self.controls.en_passant_target_file = Square::from_index(s).get_file();
                    },
                    None => {
                        self.controls.has_en_passant_target = false;
                    },
                }
                let (half, full) = fen_move_numbers(self.fen.as_str());
                match half {
                    Some(h) => {
                        self.controls.halfmove_clock = h;
                    },
                    None => {},
                }
                match full {
                    Some(f) => {
                        self.controls.fullmove_count = f;
                    },
                    None => {},
                }
            },
            Err(_) => {},
        }
    }

    /// Writes the controls into the text: the text (the starting position's FEN when it is
    /// empty) is read by the board builder; when it is accepted, the side to move, the castle
    /// rights and the en passant file are set from the controls, and the builder's FEN, with
    /// the controls' move counters in place of its own, becomes the text. Records whether the
    /// text was rejected.
    pub fn update_fen_from_controls(&mut self)
        requires
            old(self).controls.wf(),
        ensures
            final(self).invalid_fen == !spec_builder_accepts(spec_fen_base(old(self).fen@)),
            !spec_builder_accepts(spec_fen_base(old(self).fen@)) ==> final(self).fen@ == spec_fen_base(
                old(self).fen@,
            ),
            spec_builder_accepts(spec_fen_base(old(self).fen@)) ==> final(self).fen@
                == spec_fen_from_controls(
                builder_placement(fen_builder_squares(spec_fen_base(old(self).fen@))),
                old(self).controls,
            ) && !builder_placement(fen_builder_squares(spec_fen_base(old(self).fen@))).contains(' '),
            final(self).controls == old(self).controls,
            final(self).focus_fen == old(self).focus_fen,
            final(self).fen_hash == old(self).fen_hash,
            final(self).controls_hash == old(self).controls_hash,
    {
        if self.fen.as_str().is_empty() {
            self.fen = DEFAULT_FEN.to_string();
        }
        let ghost base = self.fen@;
        let board = builder_from_str(self.fen.as_str());
        self.invalid_fen = board.is_err();
        match board {
            Ok(mut b) => {
                set_builder_fields(&mut b, &self.controls);
                let written = builder_to_string(&b);
                let text = str_chars(written.as_str());
                proof {
                    let placement = builder_placement(fen_builder_squares(base));
                    if placement.contains(' ') {
                        let j = choose|j: int| 0 <= j < placement.len() && placement[j] == ' ';
                        assert(written@[j] != ' ');
                    }
                }
                proof {
                    reveal_strlit("0 1");
                }
                let ghost placement = builder_placement(fen_builder_squares(base));
                let ghost fields = spec_builder_fields_text(self.controls.spec_fields());
                assert(text@ =~= (placement + fields) + "0 1"@);
                let v = replace_counters(&text, self.controls.halfmove_clock, self.controls.fullmove_count);
                assert(text@.take(text@.len() - 3) =~= placement + fields);
                assert(v@ =~= spec_fen_from_controls(placement, self.controls));
                self.fen = string_from_chars(v.as_slice());
            },
            Err(_) => {},
        }
    }

    /// Brings the text and the controls in step, given the hashes they have now: when the text
    /// was edited, the controls are set from it; otherwise, when the controls were edited, the
    /// text is written from them. The hashes of both are recorded.
    pub fn sync_with_hashes(&mut self, fen_hash: u64, controls_hash: u64)
        requires
            old(self).controls.wf(),
            fen_hash != old(self).fen_hash ==> spec_board_parse_safe(old(self).fen@),
        ensures
            final(self).controls.wf(),
            fen_hash != old(self).fen_hash ==> {
                &&& final(self).invalid_fen == !board_fen_accepted(old(self).fen@)
                &&& final(self).fen == old(self).fen
                &&& !board_fen_accepted(old(self).fen@) ==> final(self).controls == old(self).controls
                &&& board_fen_accepted(old(self).fen@) ==> spec_controls_read(old(self).controls, final(self).controls, old(self).fen@)
                &&& final(self).fen_hash == fen_hash
            },
            fen_hash == old(self).fen_hash && controls_hash != old(self).controls_hash ==> {
                &&& final(self).invalid_fen == !spec_builder_accepts(spec_fen_base(old(self).fen@))
                &&& !spec_builder_accepts(spec_fen_base(old(self).fen@)) ==> final(self).fen@
                    == spec_fen_base(old(self).fen@)
                &&& spec_builder_accepts(spec_fen_base(old(self).fen@)) ==> final(self).fen@
                    == spec_fen_from_controls(
                    builder_placement(fen_builder_squares(spec_fen_base(old(self).fen@))),
                    old(self).controls,
                )
                &&& final(self).controls == old(self).controls
                &&& final(self).controls_hash == controls_hash
            },
            fen_hash == old(self).fen_hash && controls_hash == old(self).controls_hash
                ==> *final(self) == *old(self),
            final(self).focus_fen == old(self).focus_fen,
            fen_hash != old(self).fen_hash ==> final(self).controls_hash == model_hash(final(self).controls),
            fen_hash == old(self).fen_hash && controls_hash != old(self).controls_hash ==> final(self).fen_hash
                == fen_text_hash(final(self).fen@),
    {
        if fen_hash != self.fen_hash {
            self.update_controls_from_fen();
            self.fen_hash = fen_hash;
            self.controls_hash = hash_model(&self.controls);
        } else if controls_hash != self.controls_hash {
            self.update_fen_from_controls();
            self.fen_hash = hash_fen_text(&self.fen);
            self.controls_hash = controls_hash;
        }
    }

    /// Brings the text and the controls in step after edits: `sync_with_hashes` with the hashes
    /// that the text and the controls have now (see `spec_synced`). Afterwards the recorded
    /// hashes are those of the text and the controls.
    pub fn sync(&mut self)
        requires
            old(self).controls.wf(),
            fen_text_hash(old(self).fen@) != old(self).fen_hash ==> spec_board_parse_safe(old(self).fen@),
        ensures
            final(self).controls.wf(),
            final(self).focus_fen == old(self).focus_fen,
            spec_synced(*old(self), *final(self), fen_text_hash(old(self).fen@), model_hash(old(self).controls)),
            final(self).spec_in_step(),
    {
        let ghost before = *self;
        let fen_hash = hash_fen_text(&self.fen);
        let controls_hash = hash_model(&self.controls);
        self.sync_with_hashes(fen_hash, controls_hash);
        assert(spec_synced(before, *self, fen_hash, controls_hash));
    }

    /// The game the text describes, to be played with the controls' move counters; the chess
    /// engine's error when it rejects the text.
    pub fn submit(&self) -> (res: Result<LoadGame, ChessError>)
        requires
            spec_board_parse_safe(self.fen@),
        ensures
            res is Ok <==> board_fen_accepted(self.fen@),
            res matches Err(e) ==> spec_board_error(self.fen@, e),
            res matches Ok(g) ==> g.menu_state == MenuState::Game && g.half_move_clock
                == self.controls.halfmove_clock && g.full_move_count == self.controls.fullmove_count
                && board_sane(g.board) && spec_read_from(g.board, self.fen@) && spec_reads_back(g.board),
    {
        match board_from_str(self.fen.as_str()) {
            Ok(board) => Ok(LoadGame::in_game(board, self.controls.halfmove_clock, self.controls.fullmove_count)),
            Err(_) => Err(board_error(self.fen.as_str())),
        }
    }
}

impl PopupState {
    /// Brings the text and the controls in step (see `sync`) and returns `true`, unless the text
    /// was edited since the last synchronisation and the chess engine cannot read it safely (see
    /// `board_parse_safe`): then it returns `false` and changes nothing.
    pub fn sync_checked(&mut self) -> (done: bool)
        requires
            old(self).controls.wf(),
        ensures
            done == (fen_text_hash(old(self).fen@) != old(self).fen_hash ==> spec_board_parse_safe(old(self).fen@)),
            !done ==> *final(self) == *old(self),
            done ==> spec_synced(*old(self), *final(self), fen_text_hash(old(self).fen@), model_hash(old(self).controls)),
            done ==> final(self).spec_in_step(),
            final(self).controls.wf(),
            final(self).focus_fen == old(self).focus_fen,
    {
        if hash_fen_text(&self.fen) != self.fen_hash && !board_parse_safe(self.fen.as_str()) {
            return false;
        }
        self.sync();
        true
    }

    /// The game the text describes (see `submit`) when the chess engine can read the text
    /// safely; `None` when it cannot (see `board_parse_safe`).
    pub fn submit_checked(&self) -> (res: Option<Result<LoadGame, ChessError>>)
        ensures
            res is None <==> !spec_board_parse_safe(self.fen@),
            res matches Some(r) ==> (r is Ok <==> board_fen_accepted(self.fen@)),
            res matches Some(Ok(g)) ==> g.menu_state == MenuState::Game && g.half_move_clock
                == self.controls.halfmove_clock && g.full_move_count == self.controls.fullmove_count
                && spec_read_from(g.board, self.fen@),
    {
        if !board_parse_safe(self.fen.as_str()) {
            return None;
        }
        Some(self.submit())
    }
}

/// The name of the square of the en passant pawn that the editor shows for a file: on the
/// fourth rank when Black is to move, on the fifth when White is.
pub open spec fn spec_en_passant_label(black_to_move: bool, file: u8) -> Seq<char> {
    seq![(97 + file) as char, if black_to_move { '4' } else { '5' }]
}

/// The label of an en passant file in the editor, such as "e5".
pub fn en_passant_label(black_to_move: bool, file: u8) -> (s: String)
    requires
        file < 8,
    ensures
        s@ == spec_en_passant_label(black_to_move, file),
{
    let mut v: Vec<char> = Vec::new();
    v.push(Square::file_to_char(file));
    v.push(if black_to_move { '4' } else { '5' });
    string_from_chars(v.as_slice())
}

/// The controls written into the text read back as the same controls: reading the text written
/// from the controls (see `update_fen_from_controls`), once the chess engine accepts it (see
/// `update_controls_from_fen`), sets the same side to move, castle rights and move counters, and
/// an en passant target only where the controls had one, on the same file.
pub proof fn lemma_controls_round_trip(placement: Seq<char>, m: PopupModel, old: PopupModel, new: PopupModel)
    requires
        m.wf(),
        !placement.contains(' '),
        spec_controls_read(old, new, spec_fen_from_controls(placement, m)),
    ensures
        new.has_en_passant_target ==> m.has_en_passant_target && new.en_passant_target_file
            == m.en_passant_target_file,
        new.black_to_move == m.black_to_move,
        new.castle_rights_white_kingside == m.castle_rights_white_kingside,
        new.castle_rights_white_queenside == m.castle_rights_white_queenside,
        new.castle_rights_black_kingside == m.castle_rights_black_kingside,
        new.castle_rights_black_queenside == m.castle_rights_black_queenside,
        new.halfmove_clock == m.halfmove_clock,
        new.fullmove_count == m.fullmove_count,
{
    let f = m.spec_fields();
    let half = m.halfmove_clock as nat;
    let full = m.fullmove_count as nat;
    assert(spec_fen_from_controls(placement, m) == spec_fen_text(placement, f, half, full));
    lemma_fen_text_read(placement, f, half, full);
    lemma_castles_field(f[1], f[2]);
}

} // verus!
