use vstd::prelude::*;

use crate::board_state::{BoardState, Entity};
use crate::piece::{PieceColor, PieceMeta, PieceType};
use crate::position::Position;
use crate::square::Square;

verus! {

/// The placeholder entity of a capture image that has not been spawned yet.
pub const PLACEHOLDER_ENTITY: Entity = 0xffff_ffff_ffff_ffffu64;

/// The kinds of piece that can be captured, in the order of their indices.
pub open spec fn spec_capturable(i: int) -> PieceType {
    if i == 0 {
        PieceType::Pawn
    } else if i == 1 {
        PieceType::Knight
    } else if i == 2 {
        PieceType::Bishop
    } else if i == 3 {
        PieceType::Rook
    } else {
        PieceType::Queen
    }
}

/// The captures of one kind of piece by one side: the images for each count (the first, for no
/// capture, is the empty default), the entity that shows the image, and the count.
#[derive(Clone, Debug)]
pub struct CapState {
    pub image_handles: Vec<Option<&'static str>>,
    pub image_entity: Entity,
    pub count: u8,
}

impl CapState {
    /// No images, a placeholder entity and no capture.
    pub fn default() -> (c: CapState)
        ensures
            c.image_handles@.len() == 0,
            c.image_entity == PLACEHOLDER_ENTITY,
            c.count == 0,
    {
        CapState { image_handles: Vec::new(), image_entity: PLACEHOLDER_ENTITY, count: 0 }
    }

    /// The image for the current count.
    pub fn handle(&self) -> (h: Option<&'static str>)
        requires
            self.count < self.image_handles@.len(),
        ensures
            h == self.image_handles@[self.count as int],
    {
        self.image_handles[self.count as usize]
    }

    /// Applies a change of the count: one more, wrapping to zero after the last image, or a
    /// given count. Returns the image for the new count, which must have one.
    pub fn patch(&mut self, diff: CapStateDiff) -> (h: Option<&'static str>)
        requires
            diff is Increment ==> 0 < old(self).image_handles@.len() < 256 && old(self).count < 255,
            spec_patched_count(old(self).count, old(self).image_handles@.len(), diff) < old(
                self,
            ).image_handles@.len(),
        ensures
            final(self).count == spec_patched_count(old(self).count, old(self).image_handles@.len(), diff),
            final(self).image_handles == old(self).image_handles,
            final(self).image_entity == old(self).image_entity,
            h == final(self).image_handles@[final(self).count as int],
    {
        match diff {
            CapStateDiff::Increment => {
                let len = self.image_handles.len() as u8;
                self.count = (self.count + 1) % len;
            },
            CapStateDiff::SetCount(count) => self.count = count,
        }
        self.handle()
    }
}

/// The count after a change.
pub open spec fn spec_patched_count(count: u8, images: nat, diff: CapStateDiff) -> u8 {
    match diff {
        CapStateDiff::Increment => ((count + 1) % (images as int)) as u8,
        CapStateDiff::SetCount(c) => c,
    }
}

/// How a capture count changes.
#[derive(Clone, Copy, Debug, PartialEq, Eq, Structural)]
pub enum CapStateDiff {
    Increment,
    SetCount(u8),
}

/// A change of the capture count of one kind of piece, for the side that captured.
#[derive(Clone, Copy, Debug, PartialEq, Eq, Structural)]
pub struct CapStateUpdate {
    pub color: PieceColor,
    pub typ: PieceType,
    pub diff: CapStateDiff,
}

impl CapStateUpdate {
    pub fn new(color: PieceColor, typ: PieceType, diff: CapStateDiff) -> (u: CapStateUpdate)
        ensures
            u == (CapStateUpdate { color, typ, diff }),
    {
        CapStateUpdate { color, typ, diff }
    }
}

/// The captures of one side: one entry per capturable kind, by the kind's index, and the
/// material score of what it has captured.
#[derive(Clone, Debug)]
pub struct ColorCaptures {
    pub piece_captures: Vec<CapState>,
    pub score: u8,
}

/// The material value of a side's captures: the sum over the capturable kinds of value times
/// count, over the first `n` kinds.
pub open spec fn spec_score(caps: Seq<CapState>, n: int) -> int
    decreases n,
{
    if n <= 0 {
        0
    } else {
        spec_score(caps, n - 1) + spec_capturable(n - 1).spec_value() * caps[n - 1].count
    }
}

impl ColorCaptures {
    pub open spec fn wf(&self) -> bool {
        self.piece_captures@.len() == 5
    }

    pub fn default() -> (c: ColorCaptures)
        ensures
            c.wf(),
            c.score == 0,
            forall|i: int| 0 <= i < 5 ==> #[trigger] c.piece_captures@[i].count == 0
                && c.piece_captures@[i].image_handles@.len() == 0 && c.piece_captures@[i].image_entity
                == PLACEHOLDER_ENTITY,
    {
        let mut v: Vec<CapState> = Vec::new();
        let mut i: usize = 0;
        while i < 5
            invariant
                i <= 5,
                v@.len() == i,
                forall|j: int| 0 <= j < i ==> #[trigger] v@[j].count == 0 && v@[j].image_handles@.len() == 0
                    && v@[j].image_entity == PLACEHOLDER_ENTITY,
            decreases 5 - i,
        {
            let c = CapState::default();
            v.push(c);
            assert(v@[i as int] == c);
            i = i + 1;
        }
        ColorCaptures { piece_captures: v, score: 0 }
    }
}

/// The captures of both sides.
pub struct CaptureState {
    pub white: ColorCaptures,
    pub black: ColorCaptures,
}

/// The entries of a kind's capture state: the index of a capturable kind.
pub open spec fn spec_cap_index(typ: PieceType) -> int {
    typ.idx()
}

impl CaptureState {
    pub open spec fn wf(&self) -> bool {
        self.white.wf() && self.black.wf()
    }

    /// The captures of a side.
    pub open spec fn side(&self, color: PieceColor) -> ColorCaptures {
        match color {
            PieceColor::White => self.white,
            PieceColor::Black => self.black,
        }
    }

    /// No capture and no image for either side.
    pub fn new() -> (s: CaptureState)
        ensures
            s.wf(),
            s.white.score == 0,
            s.black.score == 0,
            forall|i: int| 0 <= i < 5 ==> #[trigger] s.white.piece_captures@[i].count == 0
                && s.black.piece_captures@[i].count == 0,
    {
        CaptureState { white: ColorCaptures::default(), black: ColorCaptures::default() }
    }

    /// The side ahead in captured material and by how much, or `None` when the scores are equal.
    pub open spec fn spec_advantage(&self) -> Option<(PieceColor, u8)> {
        if self.black.score > self.white.score {
            Some((PieceColor::Black, (self.black.score - self.white.score) as u8))
        } else if self.white.score > self.black.score {
            Some((PieceColor::White, (self.white.score - self.black.score) as u8))
        } else {
            None
        }
    }

    /// The side ahead in captured material and by how much, or `None` when the scores are equal.
    pub fn get_advantage(&self) -> (a: Option<(PieceColor, u8)>)
        ensures
            a == self.spec_advantage(),
    {
        let black_score = self.black.score;
        let white_score = self.white.score;
        if black_score > white_score {
            Some((PieceColor::Black, black_score - white_score))
        } else if white_score > black_score {
            Some((PieceColor::White, white_score - black_score))
        } else {
            None
        }
    }

    /// The capture state of one kind for one side.
    pub fn get(&self, color: PieceColor, typ: PieceType) -> (c: &CapState)
        requires
            self.wf(),
            typ != PieceType::King,
        ensures
            *c == self.side(color).piece_captures@[typ.idx()],
    {
        match color {
            PieceColor::White => &self.white.piece_captures[typ_index(typ)],
            PieceColor::Black => &self.black.piece_captures[typ_index(typ)],
        }
    }
}

fn typ_index(typ: PieceType) -> (i: usize)
    ensures
        i == typ.idx(),
{
    match typ {
        PieceType::Pawn => 0,
        PieceType::Knight => 1,
        PieceType::Bishop => 2,
        PieceType::Rook => 3,
        PieceType::Queen => 4,
        PieceType::King => 5,
    }
}


/// Applies a count change to one kind of one side's captures and recomputes that side's score.
fn patch_color(cc: &mut ColorCaptures, i: usize, diff: CapStateDiff)
    requires
        old(cc).wf(),
        i < 5,
        diff is Increment ==> 0 < old(cc).piece_captures@[i as int].image_handles@.len() < 256
            && old(cc).piece_captures@[i as int].count < 255,
        spec_patched_count(
            old(cc).piece_captures@[i as int].count,
            old(cc).piece_captures@[i as int].image_handles@.len(),
            diff,
        ) < old(cc).piece_captures@[i as int].image_handles@.len(),
        spec_score(spec_patched_caps(old(cc).piece_captures@, i as int, diff), 5) <= 255,
    ensures
        final(cc).wf(),
        final(cc).piece_captures@ == spec_patched_caps(old(cc).piece_captures@, i as int, diff),
        final(cc).score == spec_score(final(cc).piece_captures@, 5),
{
    let mut c = cc.piece_captures.remove(i);
    let _ = c.patch(diff);
    cc.piece_captures.insert(i, c);
    assert(cc.piece_captures@ =~= spec_patched_caps(old(cc).piece_captures@, i as int, diff));
    let mut score: u8 = 0;
    let mut k: usize = 0;
    while k < 5
        invariant
            k <= 5,
            cc.piece_captures@.len() == 5,
            score == spec_score(cc.piece_captures@, k as int),
            spec_score(cc.piece_captures@, 5) <= 255,
        decreases 5 - k,
    {
        proof {
            lemma_score_monotone(cc.piece_captures@, k as int + 1, 5);
        }
        let typ = capturable_at(k);
        let v = typ.value() * cc.piece_captures[k].count;
        score = score + v;
        k = k + 1;
    }
    cc.score = score;
}

/// The captures after a count change of the entry `i`.
pub open spec fn spec_patched_caps(caps: Seq<CapState>, i: int, diff: CapStateDiff) -> Seq<CapState> {
    caps.update(
        i,
        CapState {
            count: spec_patched_count(caps[i].count, caps[i].image_handles@.len(), diff),
            ..caps[i]
        },
    )
}

proof fn lemma_score_monotone(caps: Seq<CapState>, a: int, b: int)
    requires
        0 <= a <= b <= 5,
    ensures
        spec_score(caps, a) <= spec_score(caps, b),
    decreases b - a,
{
    if a < b {
        lemma_score_monotone(caps, a, b - 1);
        assert(spec_capturable(b - 1).spec_value() * caps[b - 1].count >= 0) by (nonlinear_arith)
            requires
                spec_capturable(b - 1).spec_value() >= 0,
                caps[b - 1].count >= 0,
        ;
    }
}

/// The capturable kind with the given index.
fn capturable_at(k: usize) -> (t: PieceType)
    requires
        k < 5,
    ensures
        t == spec_capturable(k as int),
        t.idx() == k,
{
    if k == 0 {
        PieceType::Pawn
    } else if k == 1 {
        PieceType::Knight
    } else if k == 2 {
        PieceType::Bishop
    } else if k == 3 {
        PieceType::Rook
    } else {
        PieceType::Queen
    }
}

/// Records the entities that show one side's capture images, one per capturable kind in the
/// order of the kinds; the images and the counts stay.
fn record_image_entities(cc: &mut ColorCaptures, entities: &Vec<Entity>)
    requires
        old(cc).wf(),
        entities@.len() == 5,
    ensures
        final(cc).wf(),
        final(cc).score == old(cc).score,
        forall|i: int| 0 <= i < 5 ==> {
            &&& (#[trigger] final(cc).piece_captures@[i]).image_entity == entities@[i]
            &&& final(cc).piece_captures@[i].image_handles == old(cc).piece_captures@[i].image_handles
            &&& final(cc).piece_captures@[i].count == old(cc).piece_captures@[i].count
        },
{
    let mut i: usize = 0;
    while i < 5
        invariant
            i <= 5,
            cc.wf(),
            entities@.len() == 5,
            cc.score == old(cc).score,
            forall|j: int| 0 <= j < 5 ==> {
                &&& (#[trigger] cc.piece_captures@[j]).image_handles == old(cc).piece_captures@[j].image_handles
                &&& cc.piece_captures@[j].count == old(cc).piece_captures@[j].count
                &&& cc.piece_captures@[j].image_entity == if j < i {
                    entities@[j]
                } else {
                    old(cc).piece_captures@[j].image_entity
                }
            },
        decreases 5 - i,
    {
        let mut c = cc.piece_captures.remove(i);
        c.image_entity = entities[i];
        cc.piece_captures.insert(i, c);
        i = i + 1;
    }
}

impl CaptureState {
    /// Records the entities that show a side's capture images, one per capturable kind in the
    /// order of the kinds (pawn, knight, bishop, rook, queen); the images, counts and scores
    /// stay, and the other side is unchanged.
    pub fn set_image_entities(&mut self, color: PieceColor, entities: &Vec<Entity>)
        requires
            old(self).wf(),
            entities@.len() == 5,
        ensures
            final(self).wf(),
            final(self).side(color).score == old(self).side(color).score,
            forall|i: int| 0 <= i < 5 ==> {
                &&& (#[trigger] final(self).side(color).piece_captures@[i]).image_entity == entities@[i]
                &&& final(self).side(color).piece_captures@[i].image_handles == old(self).side(
                    color,
                ).piece_captures@[i].image_handles
                &&& final(self).side(color).piece_captures@[i].count == old(self).side(color).piece_captures@[i].count
            },
            final(self).side(color.opponent()) == old(self).side(color.opponent()),
    {
        match color {
            PieceColor::White => record_image_entities(&mut self.white, entities),
            PieceColor::Black => record_image_entities(&mut self.black, entities),
        }
    }
}

impl CaptureState {
    /// The capture state after an update of one side: that side's entry for the kind gets the
    /// new count and the side's score is recomputed.
    pub open spec fn spec_patch_ok(&self, update: CapStateUpdate) -> bool {
        let caps = self.side(update.color).piece_captures@;
        let i = update.typ.idx();
        &&& update.typ != PieceType::King
        &&& (update.diff is Increment ==> 0 < caps[i].image_handles@.len() < 256 && caps[i].count < 255)
        &&& spec_patched_count(caps[i].count, caps[i].image_handles@.len(), update.diff) < caps[i].image_handles@.len()
        &&& spec_score(spec_patched_caps(caps, i, update.diff), 5) <= 255
    }

    /// Applies an update to the captures of one side.
    pub fn patch(&mut self, update: CapStateUpdate)
        requires
            old(self).wf(),
            old(self).spec_patch_ok(update),
        ensures
            final(self).wf(),
            final(self).side(update.color).piece_captures@ == spec_patched_caps(
                old(self).side(update.color).piece_captures@,
                update.typ.idx(),
                update.diff,
            ),
            final(self).side(update.color).score == spec_score(final(self).side(update.color).piece_captures@, 5),
            final(self).side(update.color.opponent()) == old(self).side(update.color.opponent()),
    {
        let i = typ_index(update.typ);
        match update.color {
            PieceColor::White => patch_color(&mut self.white, i, update.diff),
            PieceColor::Black => patch_color(&mut self.black, i, update.diff),
        }
    }

    /// Sets every count back to zero and returns the image entities, white's first, each side in
    /// the order of the kinds. The scores are left as they are.
    pub fn reset_counts(&mut self) -> (entities: Vec<Entity>)
        requires
            old(self).wf(),
        ensures
            final(self).wf(),
            entities@.len() == 10,
            forall|i: int| 0 <= i < 5 ==> #[trigger] entities@[i] == old(self).white.piece_captures@[i].image_entity
                && entities@[i + 5] == old(self).black.piece_captures@[i].image_entity,
            forall|i: int| 0 <= i < 5 ==> (#[trigger] final(self).white.piece_captures@[i]).count == 0
                && final(self).black.piece_captures@[i].count == 0,
            forall|i: int| 0 <= i < 5 ==> (#[trigger] final(self).white.piece_captures@[i]).image_handles
                == old(self).white.piece_captures@[i].image_handles
                && final(self).black.piece_captures@[i].image_handles == old(self).black.piece_captures@[i].image_handles,
            final(self).white.score == old(self).white.score,
            final(self).black.score == old(self).black.score,
    {
        let mut entities: Vec<Entity> = Vec::new();
        reset_color(&mut self.white, &mut entities);
        reset_color(&mut self.black, &mut entities);
        entities
    }
}

fn reset_color(cc: &mut ColorCaptures, out: &mut Vec<Entity>)
    requires
        old(cc).wf(),
    ensures
        final(cc).wf(),
        final(out)@ == old(out)@ + Seq::new(5, |i: int| old(cc).piece_captures@[i].image_entity),
        forall|i: int| 0 <= i < 5 ==> (#[trigger] final(cc).piece_captures@[i]).count == 0
            && final(cc).piece_captures@[i].image_handles == old(cc).piece_captures@[i].image_handles
            && final(cc).piece_captures@[i].image_entity == old(cc).piece_captures@[i].image_entity,
        final(cc).score == old(cc).score,
{
    let ghost start = out@;
    let mut k: usize = 0;
    while k < 5
        invariant
            k <= 5,
            cc.piece_captures@.len() == 5,
            cc.score == old(cc).score,
            out@ == start + Seq::new(k as nat, |i: int| old(cc).piece_captures@[i].image_entity),
            forall|i: int| 0 <= i < k ==> (#[trigger] cc.piece_captures@[i]).count == 0
                && cc.piece_captures@[i].image_handles == old(cc).piece_captures@[i].image_handles
                && cc.piece_captures@[i].image_entity == old(cc).piece_captures@[i].image_entity,
            forall|i: int| k <= i < 5 ==> #[trigger] cc.piece_captures@[i] == old(cc).piece_captures@[i],
        decreases 5 - k,
    {
        let mut c = cc.piece_captures.remove(k);
        out.push(c.image_entity);
        c.count = 0;
        cc.piece_captures.insert(k, c);
        k = k + 1;
        assert(out@ =~= start + Seq::new(k as nat, |i: int| old(cc).piece_captures@[i].image_entity));
    }
}

/// The image that shows `n` captured pieces of a kind, for the side that captured them (whose
/// images show the opponent's pieces); the first image, for none, is the empty default.
pub open spec fn spec_capture_image(captor: PieceColor, typ: PieceType, n: int) -> Option<Seq<char>> {
    match (captor, typ) {
        (PieceColor::Black, PieceType::Pawn) => if n == 1 { Some("images/captures/white-pawns-1.png"@) } else if n == 2 { Some("images/captures/white-pawns-2.png"@) } else if n == 3 { Some("images/captures/white-pawns-3.png"@) } else if n == 4 { Some("images/captures/white-pawns-4.png"@) } else if n == 5 { Some("images/captures/white-pawns-5.png"@) } else if n == 6 { Some("images/captures/white-pawns-6.png"@) } else if n == 7 { Some("images/captures/white-pawns-7.png"@) } else if n == 8 { Some("images/captures/white-pawns-8.png"@) } else { None },
        (PieceColor::Black, PieceType::Knight) => if n == 1 { Some("images/captures/white-knights-1.png"@) } else if n == 2 { Some("images/captures/white-knights-2.png"@) } else { None },
        (PieceColor::Black, PieceType::Bishop) => if n == 1 { Some("images/captures/white-bishops-1.png"@) } else if n == 2 { Some("images/captures/white-bishops-2.png"@) } else { None },
        (PieceColor::Black, PieceType::Rook) => if n == 1 { Some("images/captures/white-rooks-1.png"@) } else if n == 2 { Some("images/captures/white-rooks-2.png"@) } else { None },
        (PieceColor::Black, PieceType::Queen) => if n == 1 { Some("images/captures/white-queen.png"@) } else { None },
        (PieceColor::White, PieceType::Pawn) => if n == 1 { Some("images/captures/black-pawns-1.png"@) } else if n == 2 { Some("images/captures/black-pawns-2.png"@) } else if n == 3 { Some("images/captures/black-pawns-3.png"@) } else if n == 4 { Some("images/captures/black-pawns-4.png"@) } else if n == 5 { Some("images/captures/black-pawns-5.png"@) } else if n == 6 { Some("images/captures/black-pawns-6.png"@) } else if n == 7 { Some("images/captures/black-pawns-7.png"@) } else if n == 8 { Some("images/captures/black-pawns-8.png"@) } else { None },
        (PieceColor::White, PieceType::Knight) => if n == 1 { Some("images/captures/black-knights-1.png"@) } else if n == 2 { Some("images/captures/black-knights-2.png"@) } else { None },
        (PieceColor::White, PieceType::Bishop) => if n == 1 { Some("images/captures/black-bishops-1.png"@) } else if n == 2 { Some("images/captures/black-bishops-2.png"@) } else { None },
        (PieceColor::White, PieceType::Rook) => if n == 1 { Some("images/captures/black-rooks-1.png"@) } else if n == 2 { Some("images/captures/black-rooks-2.png"@) } else { None },
        (PieceColor::White, PieceType::Queen) => if n == 1 { Some("images/captures/black-queen.png"@) } else { None },
        _ => None,
    }
}

/// The text of an optional image path.
pub open spec fn spec_path_view(p: Option<&'static str>) -> Option<Seq<char>> {
    match p {
        Some(s) => Some(s@),
        None => None,
    }
}

/// The number of images of a kind: one for each possible count, from none to all the
/// opponent's pieces of that kind.
pub open spec fn spec_image_count(typ: PieceType) -> int {
    typ.spec_num_pieces() + 1
}

fn capture_images(captor: PieceColor, typ: PieceType) -> (v: Vec<Option<&'static str>>)
    requires
        typ != PieceType::King,
    ensures
        v@.len() == spec_image_count(typ),
        v@[0] is None,
        forall|n: int| 0 <= n < v@.len() ==> spec_path_view(#[trigger] v@[n]) == spec_capture_image(captor, typ, n),
{
    let mut v: Vec<Option<&'static str>> = Vec::new();
    v.push(None);
    match (captor, typ) {
        (PieceColor::Black, PieceType::Pawn) => {
            v.push(Some("images/captures/white-pawns-1.png"));
            v.push(Some("images/captures/white-pawns-2.png"));
            v.push(Some("images/captures/white-pawns-3.png"));
            v.push(Some("images/captures/white-pawns-4.png"));
            v.push(Some("images/captures/white-pawns-5.png"));
            v.push(Some("images/captures/white-pawns-6.png"));
            v.push(Some("images/captures/white-pawns-7.png"));
            v.push(Some("images/captures/white-pawns-8.png"));
        },
        (PieceColor::Black, PieceType::Knight) => {
            v.push(Some("images/captures/white-knights-1.png"));
            v.push(Some("images/captures/white-knights-2.png"));
        },
        (PieceColor::Black, PieceType::Bishop) => {
            v.push(Some("images/captures/white-bishops-1.png"));
            v.push(Some("images/captures/white-bishops-2.png"));
        },
        (PieceColor::Black, PieceType::Rook) => {
            v.push(Some("images/captures/white-rooks-1.png"));
            v.push(Some("images/captures/white-rooks-2.png"));
        },
        (PieceColor::Black, PieceType::Queen) => {
            v.push(Some("images/captures/white-queen.png"));
        },
        (PieceColor::White, PieceType::Pawn) => {
            v.push(Some("images/captures/black-pawns-1.png"));
            v.push(Some("images/captures/black-pawns-2.png"));
            v.push(Some("images/captures/black-pawns-3.png"));
            v.push(Some("images/captures/black-pawns-4.png"));
            v.push(Some("images/captures/black-pawns-5.png"));
            v.push(Some("images/captures/black-pawns-6.png"));
            v.push(Some("images/captures/black-pawns-7.png"));
            v.push(Some("images/captures/black-pawns-8.png"));
        },
        (PieceColor::White, PieceType::Knight) => {
            v.push(Some("images/captures/black-knights-1.png"));
            v.push(Some("images/captures/black-knights-2.png"));
        },
        (PieceColor::White, PieceType::Bishop) => {
            v.push(Some("images/captures/black-bishops-1.png"));
            v.push(Some("images/captures/black-bishops-2.png"));
        },
        (PieceColor::White, PieceType::Rook) => {
            v.push(Some("images/captures/black-rooks-1.png"));
            v.push(Some("images/captures/black-rooks-2.png"));
        },
        (PieceColor::White, PieceType::Queen) => {
            v.push(Some("images/captures/black-queen.png"));
        },
        _ => {},
    }
    v
}

fn color_captures_with_images(captor: PieceColor) -> (c: ColorCaptures)
    ensures
        c.wf(),
        c.score == 0,
        forall|i: int| 0 <= i < 5 ==> {
            let cap = #[trigger] c.piece_captures@[i];
            &&& cap.count == 0
            &&& cap.image_entity == PLACEHOLDER_ENTITY
            &&& cap.image_handles@.len() == spec_image_count(spec_capturable(i))
            &&& cap.image_handles@[0] is None
            &&& forall|n: int| 0 <= n < cap.image_handles@.len() ==> spec_path_view(#[trigger] cap.image_handles@[n]) == spec_capture_image(captor, spec_capturable(i), n)
        },
{
    let mut v: Vec<CapState> = Vec::new();
    let mut k: usize = 0;
    while k < 5
        invariant
            k <= 5,
            v@.len() == k,
            forall|i: int| 0 <= i < k ==> {
                let cap = #[trigger] v@[i];
                &&& cap.count == 0
                &&& cap.image_entity == PLACEHOLDER_ENTITY
                &&& cap.image_handles@.len() == spec_image_count(spec_capturable(i))
                &&& cap.image_handles@[0] is None
                &&& forall|n: int| 0 <= n < cap.image_handles@.len() ==> spec_path_view(#[trigger] cap.image_handles@[n]) == spec_capture_image(captor, spec_capturable(i), n)
            },
        decreases 5 - k,
    {
        let typ = capturable_at(k);
        let images = capture_images(captor, typ);
        v.push(CapState { image_handles: images, image_entity: PLACEHOLDER_ENTITY, count: 0 });
        k = k + 1;
    }
    ColorCaptures { piece_captures: v, score: 0 }
}

impl CaptureState {
    /// The capture state at the start of the application: no capture, and for each side and
    /// kind the images of the opponent's pieces of that kind, one per possible count.
    pub fn with_images() -> (s: CaptureState)
        ensures
            s.wf(),
            s.white.score == 0,
            s.black.score == 0,
            forall|i: int| 0 <= i < 5 ==> {
                let w = #[trigger] s.white.piece_captures@[i];
                let b = s.black.piece_captures@[i];
                &&& w.count == 0 && b.count == 0
                &&& w.image_handles@.len() == spec_image_count(spec_capturable(i))
                &&& b.image_handles@.len() == spec_image_count(spec_capturable(i))
                &&& w.image_handles@[0] is None && b.image_handles@[0] is None
                &&& forall|n: int| 0 <= n < w.image_handles@.len() ==> spec_path_view(#[trigger] w.image_handles@[n]) == spec_capture_image(PieceColor::White, spec_capturable(i), n)
                &&& forall|n: int| 0 <= n < b.image_handles@.len() ==> spec_path_view(#[trigger] b.image_handles@[n]) == spec_capture_image(PieceColor::Black, spec_capturable(i), n)
            },
    {
        CaptureState {
            white: color_captures_with_images(PieceColor::White),
            black: color_captures_with_images(PieceColor::Black),
        }
    }
}

/// The number of pieces of the given color and kind among the first `n` squares.
pub open spec fn spec_count_pieces(squares: Seq<Option<PieceMeta>>, meta: PieceMeta, n: int) -> int
    decreases n,
{
    if n <= 0 {
        0
    } else {
        spec_count_pieces(squares, meta, n - 1) + if squares[n - 1] == Some(meta) {
            1int
        } else {
            0int
        }
    }
}

proof fn lemma_count_bounded(squares: Seq<Option<PieceMeta>>, meta: PieceMeta, n: int)
    requires
        n >= 0,
    ensures
        0 <= spec_count_pieces(squares, meta, n) <= n,
    decreases n,
{
    if n > 0 {
        lemma_count_bounded(squares, meta, n - 1);
    }
}

/// How many pieces of a kind `captor` has taken: the opponent's starting number of that kind
/// minus the opponent's pieces of that kind on the board.
pub open spec fn spec_captured_count(p: Position, captor: PieceColor, typ: PieceType) -> int {
    typ.spec_num_pieces() - spec_count_pieces(p.squares@, PieceMeta { color: captor.opponent(), typ }, 64)
}

/// The opponent has no more pieces of a capturable kind than at the start (no promotion has
/// added any), for both sides.
pub open spec fn spec_counts_in_range(p: Position) -> bool {
    forall|i: int, c: PieceColor| 0 <= i < 5 ==> 0 <= #[trigger] spec_captured_count(p, c, spec_capturable(i))
}

/// The count of the pieces of the given color and kind on the board.
fn count_pieces(p: &Position, meta: PieceMeta) -> (n: u8)
    requires
        p.wf(),
    ensures
        n == spec_count_pieces(p.squares@, meta, 64),
{
    let mut n: u8 = 0;
    let mut i: usize = 0;
    while i < 64
        invariant
            p.wf(),
            i <= 64,
            n == spec_count_pieces(p.squares@, meta, i as int),
        decreases 64 - i,
    {
        proof {
            lemma_count_bounded(p.squares@, meta, i as int);
        }
        if p.squares[i] == Some(meta) {
            n = n + 1;
        }
        i = i + 1;
    }
    n
}

/// The capture counts of a loaded board, as updates: for white then black, for each capturable
/// kind in order, the count is set to what that side has taken.
pub fn load_capture_state(board_state: &BoardState) -> (updates: Vec<CapStateUpdate>)
    requires
        board_state.wf(),
        spec_counts_in_range(board_state.spec_position()),
    ensures
        updates@.len() == 10,
        forall|k: int| 0 <= k < 10 ==> {
            let color = if k < 5 { PieceColor::White } else { PieceColor::Black };
            let typ = spec_capturable(k % 5);
            #[trigger] updates@[k] == CapStateUpdate {
                color,
                typ,
                diff: CapStateDiff::SetCount(spec_captured_count(board_state.spec_position(), color, typ) as u8),
            }
        },
{
    let p = board_state.position_ref();
    let mut updates: Vec<CapStateUpdate> = Vec::new();
    let mut c: usize = 0;
    while c < 2
        invariant
            c <= 2,
            p.wf(),
            *p == board_state.spec_position(),
            spec_counts_in_range(*p),
            updates@.len() == 5 * c,
            forall|k: int| 0 <= k < 5 * c ==> {
                let color = if k < 5 { PieceColor::White } else { PieceColor::Black };
                let typ = spec_capturable(k % 5);
                #[trigger] updates@[k] == CapStateUpdate {
                    color,
                    typ,
                    diff: CapStateDiff::SetCount(spec_captured_count(*p, color, typ) as u8),
                }
            },
        decreases 2 - c,
    {
        let color = if c == 0 { PieceColor::White } else { PieceColor::Black };
        let mut t: usize = 0;
        while t < 5
            invariant
                c < 2,
                t <= 5,
                p.wf(),
                spec_counts_in_range(*p),
                color == (if c == 0 { PieceColor::White } else { PieceColor::Black }),
                updates@.len() == 5 * c + t,
                forall|k: int| 0 <= k < 5 * c + t ==> {
                    let color = if k < 5 { PieceColor::White } else { PieceColor::Black };
                    let typ = spec_capturable(k % 5);
                    #[trigger] updates@[k] == CapStateUpdate {
                        color,
                        typ,
                        diff: CapStateDiff::SetCount(spec_captured_count(*p, color, typ) as u8),
                    }
                },
            decreases 5 - t,
        {
            let typ = capturable_at(t);
            let on_board = count_pieces(p, PieceMeta::new(color.not(), typ));
            proof {
                assert(0 <= spec_captured_count(*p, color, spec_capturable(t as int)));
                lemma_count_bounded(p.squares@, PieceMeta { color: color.opponent(), typ }, 64);
            }
            let captured = typ.num_pieces() - on_board;
            updates.push(CapStateUpdate::new(color, typ, CapStateDiff::SetCount(captured)));
            t = t + 1;
        }
        c = c + 1;
    }
    updates
}

/// The update for a captured piece: one more capture of its kind for the other side.
pub fn capture_update(captured: PieceMeta) -> (u: CapStateUpdate)
    ensures
        u == (CapStateUpdate { color: captured.color.opponent(), typ: captured.typ, diff: CapStateDiff::Increment }),
{
    CapStateUpdate::new(captured.color.not(), captured.typ, CapStateDiff::Increment)
}

/// What the user interface shows after a capture update: the image entity of the updated entry,
/// whether it is shown (a count above zero), its image, and which side's material advantage
/// label shows what (none when the scores are equal).
pub struct CaptureUiUpdate {
    pub image_entity: Entity,
    pub visible: bool,
    pub image: Option<&'static str>,
    pub advantage: Option<(PieceColor, u8)>,
}

impl CaptureState {
    /// Applies a capture update and returns what the user interface must show.
    pub fn apply_update(&mut self, update: CapStateUpdate) -> (ui: CaptureUiUpdate)
        requires
            old(self).wf(),
            old(self).spec_patch_ok(update),
            spec_patched_count(
                old(self).side(update.color).piece_captures@[update.typ.idx()].count,
                old(self).side(update.color).piece_captures@[update.typ.idx()].image_handles@.len(),
                update.diff,
            ) < old(self).side(update.color).piece_captures@[update.typ.idx()].image_handles@.len(),
        ensures
            final(self).wf(),
            final(self).side(update.color).piece_captures@ == spec_patched_caps(
                old(self).side(update.color).piece_captures@,
                update.typ.idx(),
                update.diff,
            ),
            final(self).side(update.color).score == spec_score(final(self).side(update.color).piece_captures@, 5),
            final(self).side(update.color.opponent()) == old(self).side(update.color.opponent()),
            ({
                let cap = final(self).side(update.color).piece_captures@[update.typ.idx()];
                &&& ui.image_entity == cap.image_entity
                &&& ui.visible == (cap.count != 0)
                &&& ui.image == cap.image_handles@[cap.count as int]
                &&& ui.advantage == final(self).spec_advantage()
            }),
    {
        self.patch(update);
        let cap = self.get(update.color, update.typ);
        let image_entity = cap.image_entity;
        let visible = cap.count != 0;
        let image = cap.handle();
        let advantage = self.get_advantage();
        CaptureUiUpdate { image_entity, visible, image, advantage }
    }
}

} // verus!
