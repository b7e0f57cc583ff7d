//! The fields of a FEN as the board builder writes them, and what reading such a text gives
//! back: the fields split at single spaces, the side, the castle rights, the en passant file and
//! the move counters.
use vstd::prelude::*;

use crate::chess_calls::{spec_builder_fields_of, spec_builder_fields_text, spec_rights_text};
use crate::game::spec_fen_counters;
use crate::square::{file_char_of, lemma_square_at_idx, spec_square_from_chars, square_at};
use crate::text::{decimal, lemma_decimal_parses, lemma_split_on_join, lemma_split_on_single, parse_unsigned, split_on};

verus! {

/// Builder fields (see `builder_fields`) in range: the side 0 or 1, each side's castle rights
/// from 0 to 3, and the en passant file from 0 to 7, or -1 for none.
pub open spec fn fields_in_range(f: Seq<int>) -> bool {
    &&& f.len() == 4
    &&& 0 <= f[0] <= 1
    &&& 0 <= f[1] <= 3
    &&& 0 <= f[2] <= 3
    &&& -1 <= f[3] < 8
}

/// A FEN written from a placement, builder fields and move counters.
pub open spec fn spec_fen_text(placement: Seq<char>, f: Seq<int>, half: nat, full: nat) -> Seq<char> {
    placement + spec_builder_fields_text(f) + decimal(half) + " "@ + decimal(full)
}

/// The side field written for a side.
pub open spec fn side_field(side: int) -> Seq<char> {
    if side == 0 {
        seq!['w']
    } else {
        seq!['b']
    }
}

/// The castling field written for the two sides' castle rights.
pub open spec fn castles_field(white: int, black: int) -> Seq<char> {
    spec_rights_text(white, true) + spec_rights_text(black, false) + (if white == 0 && black == 0 {
        "-"@
    } else {
        Seq::empty()
    })
}

/// The en passant field written for a side and an en passant file.
pub open spec fn ep_field(side: int, file: int) -> Seq<char> {
    if file < 0 {
        seq!['-']
    } else {
        seq![file_char_of(file), if side == 0 { '5' } else { '4' }]
    }
}

/// A character occurs in two texts joined when it occurs in either.
proof fn lemma_contains_join(a: Seq<char>, b: Seq<char>, c: char)
    ensures
        (a + b).contains(c) == (a.contains(c) || b.contains(c)),
{
    if a.contains(c) {
        let j = choose|j: int| 0 <= j < a.len() && a[j] == c;
        assert((a + b)[j] == c);
    }
    if b.contains(c) {
        let j = choose|j: int| 0 <= j < b.len() && b[j] == c;
        assert((a + b)[a.len() + j] == c);
    }
    if (a + b).contains(c) {
        let j = choose|j: int| 0 <= j < (a + b).len() && (a + b)[j] == c;
        if j < a.len() {
            assert(a[j] == c);
        } else {
            assert(b[j - a.len()] == c);
        }
    }
}

/// A short text holds a character when one of its characters is it.
proof fn lemma_contains_small(s: Seq<char>, c: char)
    requires
        s.len() <= 2,
    ensures
        s.contains(c) == (exists|i: int| 0 <= i < s.len() && s[i] == c),
{
}

/// The letters written for one side's castle rights: the king's side letter exactly for the
/// rights 1 and 3, the queen's side letter exactly for 2 and 3, nothing else.
proof fn lemma_rights_text(code: int, white: bool)
    requires
        0 <= code <= 3,
    ensures
        ({
            let t = spec_rights_text(code, white);
            &&& t.len() <= 2
            &&& t.contains(if white { 'K' } else { 'k' }) == (code == 1 || code == 3)
            &&& t.contains(if white { 'Q' } else { 'q' }) == (code == 2 || code == 3)
            &&& !t.contains(if white { 'k' } else { 'K' })
            &&& !t.contains(if white { 'q' } else { 'Q' })
            &&& !t.contains(' ')
        }),
{
    let t = spec_rights_text(code, white);
    let k = if white { 'K' } else { 'k' };
    let q = if white { 'Q' } else { 'q' };
    if code == 3 {
        assert(t =~= seq![k, q]);
        assert(t[0] == k && t[1] == q);
    } else if code == 1 {
        assert(t =~= seq![k]);
        assert(t[0] == k);
    } else if code == 2 {
        assert(t =~= seq![q]);
        assert(t[0] == q);
    } else {
        assert(t =~= Seq::<char>::empty());
    }
}

/// The castling field holds each right's letter exactly when the rights grant it, and no space.
pub proof fn lemma_castles_field(white: int, black: int)
    requires
        0 <= white <= 3,
        0 <= black <= 3,
    ensures
        castles_field(white, black).contains('K') == (white == 1 || white == 3),
        castles_field(white, black).contains('Q') == (white == 2 || white == 3),
        castles_field(white, black).contains('k') == (black == 1 || black == 3),
        castles_field(white, black).contains('q') == (black == 2 || black == 3),
        !castles_field(white, black).contains(' '),
{
    reveal_strlit("-");
    let w = spec_rights_text(white, true);
    let b = spec_rights_text(black, false);
    let d: Seq<char> = if white == 0 && black == 0 {
        "-"@
    } else {
        Seq::empty()
    };
    lemma_rights_text(white, true);
    lemma_rights_text(black, false);
    assert(d.len() <= 1 && (d.len() == 1 ==> d[0] == '-'));
    lemma_contains_small(d, 'K');
    lemma_contains_small(d, 'Q');
    lemma_contains_small(d, 'k');
    lemma_contains_small(d, 'q');
    lemma_contains_small(d, ' ');
    lemma_contains_join(w + b, d, 'K');
    lemma_contains_join(w, b, 'K');
    lemma_contains_join(w + b, d, 'Q');
    lemma_contains_join(w, b, 'Q');
    lemma_contains_join(w + b, d, 'k');
    lemma_contains_join(w, b, 'k');
    lemma_contains_join(w + b, d, 'q');
    lemma_contains_join(w, b, 'q');
    lemma_contains_join(w + b, d, ' ');
    lemma_contains_join(w, b, ' ');
}

/// Regrouping the pieces of the written text as its fields joined by spaces.
proof fn lemma_regroup(
    p: Seq<char>,
    sp: Seq<char>,
    side: Seq<char>,
    r1: Seq<char>,
    r2: Seq<char>,
    d: Seq<char>,
    ep: Seq<char>,
    half: Seq<char>,
    full: Seq<char>,
)
    ensures
        p + (sp + (side + sp) + r1 + r2 + d + sp + ep + sp) + half + sp + full =~= p + sp + (side + sp + (
        (r1 + r2 + d) + sp + (ep + sp + (half + sp + full)))),
{
}

/// The written text, as its six fields joined by single spaces.
proof fn lemma_fen_joined(placement: Seq<char>, f: Seq<int>, half: nat, full: nat)
    requires
        f.len() == 4,
    ensures
        spec_fen_text(placement, f, half, full) =~= placement + seq![' '] + (side_field(f[0]) + seq![' '] + (
        castles_field(f[1], f[2]) + seq![' '] + (ep_field(f[0], f[3]) + seq![' '] + (decimal(half) + seq![' ']
            + decimal(full))))),
{
    reveal_strlit("w ");
    reveal_strlit("b ");
    reveal_strlit(" ");
    reveal_strlit("-");
    let sp = seq![' '];
    let side = side_field(f[0]);
    let castles = castles_field(f[1], f[2]);
    let ep = ep_field(f[0], f[3]);
    assert(" "@ =~= sp);
    assert((if f[0] == 0 { "w "@ } else { "b "@ }) =~= side + sp);
    let ep_text: Seq<char> = if f[3] < 0 { "-"@ } else { seq![file_char_of(f[3]), if f[0] == 0 { '5' } else { '4' }] };
    assert(ep_text =~= ep);
    let r1 = spec_rights_text(f[1], true);
    let r2 = spec_rights_text(f[2], false);
    let d: Seq<char> = if f[1] == 0 && f[2] == 0 { "-"@ } else { Seq::empty() };
    assert(castles == r1 + r2 + d);
    assert(spec_builder_fields_text(f) == sp + (side + sp) + r1 + r2 + d + sp + ep + sp);
    lemma_regroup(placement, sp, side, r1, r2, d, ep, decimal(half), decimal(full));
}

/// Splitting six texts joined by single spaces, none of which holds a space, gives them back.
proof fn lemma_split_six(a: Seq<char>, b: Seq<char>, c: Seq<char>, d: Seq<char>, e: Seq<char>, g: Seq<char>)
    requires
        !a.contains(' '),
        !b.contains(' '),
        !c.contains(' '),
        !d.contains(' '),
        !e.contains(' '),
        !g.contains(' '),
    ensures
        split_on(a + seq![' '] + (b + seq![' '] + (c + seq![' '] + (d + seq![' '] + (e + seq![' '] + g)))), ' ')
            =~= seq![a, b, c, d, e, g],
{
    let sp = seq![' '];
    lemma_split_on_single(a, ' ');
    lemma_split_on_single(b, ' ');
    lemma_split_on_single(c, ' ');
    lemma_split_on_single(d, ' ');
    lemma_split_on_single(e, ' ');
    lemma_split_on_single(g, ' ');
    lemma_split_on_join(e, g, ' ');
    let t4 = e + sp + g;
    assert(split_on(t4, ' ') =~= seq![e, g]);
    lemma_split_on_join(d, t4, ' ');
    let t3 = d + sp + t4;
    assert(split_on(t3, ' ') =~= seq![d, e, g]);
    lemma_split_on_join(c, t3, ' ');
    let t2 = c + sp + t3;
    assert(split_on(t2, ' ') =~= seq![c, d, e, g]);
    lemma_split_on_join(b, t2, ' ');
    let t1 = b + sp + t2;
    assert(split_on(t1, ' ') =~= seq![b, c, d, e, g]);
    lemma_split_on_join(a, t1, ' ');
}

/// The fields of a written text: the placement, the side, the castling field, the en passant
/// field, the half-move clock and the full-move count.
pub proof fn lemma_fen_text_fields(placement: Seq<char>, f: Seq<int>, half: nat, full: nat)
    requires
        !placement.contains(' '),
        fields_in_range(f),
    ensures
        split_on(spec_fen_text(placement, f, half, full), ' ') == seq![
            placement,
            side_field(f[0]),
            castles_field(f[1], f[2]),
            ep_field(f[0], f[3]),
            decimal(half),
            decimal(full),
        ],
{
    let side = side_field(f[0]);
    let ep = ep_field(f[0], f[3]);
    lemma_fen_joined(placement, f, half, full);
    lemma_castles_field(f[1], f[2]);
    lemma_decimal_parses(half, half);
    lemma_decimal_parses(full, full);
    assert(!side.contains(' ')) by {
        assert(side.len() == 1 && side[0] != ' ');
    }
    assert(!ep.contains(' ')) by {
        assert(ep.len() <= 2);
        assert(forall|i: int| 0 <= i < ep.len() ==> ep[i] != ' ');
    }
    lemma_split_six(placement, side, castles_field(f[1], f[2]), ep, decimal(half), decimal(full));
}

/// Reading a written text gives back what was written: the builder fields, and the move
/// counters when they fit a byte and 16 bits.
pub proof fn lemma_fen_text_read(placement: Seq<char>, f: Seq<int>, half: nat, full: nat)
    requires
        !placement.contains(' '),
        fields_in_range(f),
    ensures
        spec_builder_fields_of(spec_fen_text(placement, f, half, full)) == f,
        split_on(spec_fen_text(placement, f, half, full), ' ')[0] == placement,
        split_on(spec_fen_text(placement, f, half, full), ' ')[1] == side_field(f[0]),
        split_on(spec_fen_text(placement, f, half, full), ' ')[2] == castles_field(f[1], f[2]),
        half <= 255 && full <= 65535 ==> spec_fen_counters(spec_fen_text(placement, f, half, full)) == Some(
            (half as u8, full as u16),
        ),
        half <= 255 ==> parse_unsigned(split_on(spec_fen_text(placement, f, half, full), ' ')[4], 255) == Some(
            half,
        ),
        full <= 65535 ==> parse_unsigned(split_on(spec_fen_text(placement, f, half, full), ' ')[5], 65535)
            == Some(full),
{
    reveal_strlit("w");
    reveal_strlit("W");
    reveal_strlit("b");
    reveal_strlit("B");
    let text = spec_fen_text(placement, f, half, full);
    lemma_fen_text_fields(placement, f, half, full);
    lemma_castles_field(f[1], f[2]);
    if half <= 255 {
        lemma_decimal_parses(half, 255);
    }
    if full <= 65535 {
        lemma_decimal_parses(full, 65535);
    }
    let t = split_on(text, ' ');
    assert(t[1] == side_field(f[0]));
    if f[0] == 1 {
        assert(t[1][0] == 'b');
        assert(t[1] != "w"@ && t[1] != "W"@) by {
            assert("w"@[0] == 'w' && "W"@[0] == 'W');
        }
    } else {
        assert(t[1] =~= "w"@);
    }
    if f[3] >= 0 {
        let r: int = if f[0] == 0 { 4 } else { 3 };
        lemma_square_at_idx(8 * r + f[3]);
        assert(spec_square_from_chars(t[3]) == Some(square_at(8 * r + f[3])));
        assert((8 * r + f[3]) % 8 == f[3]);
    } else {
        assert(spec_square_from_chars(t[3]) is None);
    }
    assert(spec_builder_fields_of(text) =~= f);
}

} // verus!
