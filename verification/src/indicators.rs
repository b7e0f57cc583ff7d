//! The indicators on the board: the highlight of the selected tile, the move hints, and the
//! highlights of the last move. Each is an entity that carries marks and shows while it has
//! an indicator.
use vstd::prelude::*;

use crate::board_state::{BoardState, Entity};
use crate::selection::SelectionEvent;

verus! {

/// The entities of a list, as a set.
pub open spec fn entity_set(v: Seq<Entity>) -> Set<Entity> {
    Set::new(|e: Entity| v.contains(e))
}

/// The marks and indicators, as sets of entities: the selected highlight, the highlights of the
/// last move, the enabled hints, and the entities that show.
pub type IndicatorSets = (Set<Entity>, Set<Entity>, Set<Entity>, Set<Entity>);

/// The sets after an event. Clearing the selection hides the selected highlight unless it also
/// marks the last move; clearing the hints or the last move hides them.
pub open spec fn spec_after_event(sets: IndicatorSets, event: SelectionEvent, board: BoardState) -> IndicatorSets {
    let (sel, last, hint, show) = sets;
    let unselected = show - (sel - last);
    match event {
        SelectionEvent::UpdateSelection { highlight, hints } => (
            Set::empty().insert(highlight),
            last,
            entity_set(hints@),
            (unselected - hint).insert(highlight) + entity_set(hints@),
        ),
        SelectionEvent::Unselect => (Set::empty(), last, Set::empty(), unselected - hint),
        SelectionEvent::UpdateLastMove(from_sq, to_sq) => {
            let marks = Set::empty().insert(board.spec_highlights()[from_sq.idx()]->0).insert(
                board.spec_highlights()[to_sq.idx()]->0,
            );
            (sel, marks, hint, (show - last) + marks)
        },
        SelectionEvent::UnsetLastMove => (sel, Set::empty(), hint, show - last),
        SelectionEvent::UnsetAll => (Set::empty(), Set::empty(), Set::empty(), (unselected - hint) - last),
    }
}

/// Every entity that shows carries a mark: it is the selected highlight, a highlight of the last
/// move, or an enabled hint.
pub open spec fn spec_shows_only_marked(sets: IndicatorSets) -> bool {
    sets.3.subset_of(sets.0 + sets.1 + sets.2)
}

/// An event can be handled: the squares of a last move have their highlights.
pub open spec fn spec_event_ready(event: SelectionEvent, board: BoardState) -> bool {
    event matches SelectionEvent::UpdateLastMove(from_sq, to_sq) ==> board.spec_highlights()[from_sq.idx()] is Some
        && board.spec_highlights()[to_sq.idx()] is Some
}

/// An indicator shows only while it marks something: handling any event keeps every showing
/// entity marked.
pub proof fn lemma_events_keep_indicators_marked(sets: IndicatorSets, event: SelectionEvent, board: BoardState)
    requires
        spec_shows_only_marked(sets),
    ensures
        spec_shows_only_marked(spec_after_event(sets, event, board)),
{
    let after = spec_after_event(sets, event, board);
    assert forall|e: Entity| after.3.contains(e) implies (after.0 + after.1 + after.2).contains(e) by {
        assert(sets.3.contains(e) ==> (sets.0 + sets.1 + sets.2).contains(e));
    }
}

/// The marks and indicators of the board.
pub struct Indicators {
    selected: Vec<Entity>,
    last_move: Vec<Entity>,
    hinted: Vec<Entity>,
    showing: Vec<Entity>,
}

/// Adding an entity to a list adds it to the list's set.
proof fn lemma_entity_set_push(s: Seq<Entity>, e: Entity)
    ensures
        entity_set(s.push(e)) == entity_set(s).insert(e),
{
    assert forall|x: Entity| #[trigger] entity_set(s.push(e)).contains(x) == entity_set(s).insert(e).contains(x) by {
        if s.contains(x) {
            let j = choose|j: int| 0 <= j < s.len() && s[j] == x;
            assert(s.push(e)[j] == x);
        }
        if x == e {
            assert(s.push(e)[s.len() as int] == e);
        }
        if s.push(e).contains(x) {
            let j = choose|j: int| 0 <= j < s.len() + 1 && s.push(e)[j] == x;
            if j < s.len() {
                assert(s[j] == x);
            }
        }
        assert(s.push(e).contains(x) == (s.contains(x) || x == e));
    }
    assert(entity_set(s.push(e)) =~= entity_set(s).insert(e));
}

/// Whether the list holds the entity.
fn holds(v: &Vec<Entity>, e: Entity) -> (b: bool)
    ensures
        b == v@.contains(e),
{
    let mut i: usize = 0;
    while i < v.len()
        invariant
            i <= v@.len(),
            forall|j: int| 0 <= j < i ==> v@[j] != e,
        decreases v@.len() - i,
    {
        if v[i] == e {
            return true;
        }
        i = i + 1;
    }
    false
}

/// Adds the entity to the list, unless it is there already.
fn mark(v: &mut Vec<Entity>, e: Entity)
    ensures
        entity_set(final(v)@) == entity_set(old(v)@).insert(e),
{
    if !holds(v, e) {
        v.push(e);
        proof {
            lemma_entity_set_push(old(v)@, e);
        }
    } else {
        assert(entity_set(v@) =~= entity_set(old(v)@).insert(e));
    }
}

/// The entities of `v` but those of `drop` that are not in `keep`.
fn remove_marked(v: &Vec<Entity>, drop: &Vec<Entity>, keep: &Vec<Entity>) -> (r: Vec<Entity>)
    ensures
        entity_set(r@) == entity_set(v@) - (entity_set(drop@) - entity_set(keep@)),
{
    let mut r: Vec<Entity> = Vec::new();
    let mut i: usize = 0;
    while i < v.len()
        invariant
            i <= v@.len(),
            entity_set(r@) == entity_set(v@.take(i as int)) - (entity_set(drop@) - entity_set(keep@)),
        decreases v@.len() - i,
    {
        let e = v[i];
        let ghost r0 = r@;
        if !holds(drop, e) || holds(keep, e) {
            r.push(e);
            proof {
                lemma_entity_set_push(r0, e);
            }
        }
        i = i + 1;
        proof {
            assert(v@.take(i as int) =~= v@.take(i - 1).push(e));
            lemma_entity_set_push(v@.take(i - 1), e);
        }
        assert(entity_set(r@) =~= entity_set(v@.take(i as int)) - (entity_set(drop@) - entity_set(keep@)));
    }
    assert(v@.take(v@.len() as int) =~= v@);
    r
}

impl Indicators {
    /// The sets of the marks and indicators.
    pub closed spec fn sets(&self) -> IndicatorSets {
        (entity_set(self.selected@), entity_set(self.last_move@), entity_set(self.hinted@), entity_set(self.showing@))
    }

    /// No mark and nothing showing.
    pub fn new() -> (s: Indicators)
        ensures
            s.sets() == (Set::<Entity>::empty(), Set::<Entity>::empty(), Set::<Entity>::empty(), Set::<Entity>::empty()),
    {
        let s = Indicators { selected: Vec::new(), last_move: Vec::new(), hinted: Vec::new(), showing: Vec::new() };
        assert(entity_set(s.selected@) =~= Set::<Entity>::empty());
        s
    }

    /// The given marks, with the given entities showing.
    pub fn from_marks(selected: Vec<Entity>, last_move: Vec<Entity>, hinted: Vec<Entity>, showing: Vec<Entity>) -> (s:
        Indicators)
        ensures
            s.sets() == (entity_set(selected@), entity_set(last_move@), entity_set(hinted@), entity_set(showing@)),
    {
        Indicators { selected, last_move, hinted, showing }
    }

    /// The entity shows.
    pub fn is_showing(&self, e: Entity) -> (b: bool)
        ensures
            b == self.sets().3.contains(e),
    {
        holds(&self.showing, e)
    }

    /// The entity is the selected highlight.
    pub fn is_selected(&self, e: Entity) -> (b: bool)
        ensures
            b == self.sets().0.contains(e),
    {
        holds(&self.selected, e)
    }

    /// The entity is a highlight of the last move.
    pub fn is_last_move(&self, e: Entity) -> (b: bool)
        ensures
            b == self.sets().1.contains(e),
    {
        holds(&self.last_move, e)
    }

    /// The entity is an enabled hint.
    pub fn is_hinted(&self, e: Entity) -> (b: bool)
        ensures
            b == self.sets().2.contains(e),
    {
        holds(&self.hinted, e)
    }

    fn unset_selection(&mut self)
        ensures
            final(self).sets() == (
                Set::<Entity>::empty(),
                old(self).sets().1,
                old(self).sets().2,
                old(self).sets().3 - (old(self).sets().0 - old(self).sets().1),
            ),
    {
        self.showing = remove_marked(&self.showing, &self.selected, &self.last_move);
        self.selected = Vec::new();
        assert(entity_set(self.selected@) =~= Set::<Entity>::empty());
    }

    fn unset_hints(&mut self)
        ensures
            final(self).sets() == (
                old(self).sets().0,
                old(self).sets().1,
                Set::<Entity>::empty(),
                old(self).sets().3 - old(self).sets().2,
            ),
    {
        let none: Vec<Entity> = Vec::new();
        self.showing = remove_marked(&self.showing, &self.hinted, &none);
        self.hinted = Vec::new();
        assert(entity_set(self.hinted@) =~= Set::<Entity>::empty());
        assert(entity_set(none@) =~= Set::<Entity>::empty());
        assert(entity_set(self.showing@) =~= old(self).sets().3 - old(self).sets().2);
    }

    fn unset_last_move(&mut self)
        ensures
            final(self).sets() == (
                old(self).sets().0,
                Set::<Entity>::empty(),
                old(self).sets().2,
                old(self).sets().3 - old(self).sets().1,
            ),
    {
        let none: Vec<Entity> = Vec::new();
        self.showing = remove_marked(&self.showing, &self.last_move, &none);
        self.last_move = Vec::new();
        assert(entity_set(self.last_move@) =~= Set::<Entity>::empty());
        assert(entity_set(none@) =~= Set::<Entity>::empty());
        assert(entity_set(self.showing@) =~= old(self).sets().3 - old(self).sets().1);
    }

    /// Handles a selection event.
    pub fn handle_selection_event(&mut self, event: &SelectionEvent, board_state: &BoardState)
        requires
            board_state.wf(),
            spec_event_ready(*event, *board_state),
        ensures
            final(self).sets() == spec_after_event(old(self).sets(), *event, *board_state),
    {
        let ghost (sel, last, hint, show) = old(self).sets();
        match event {
            SelectionEvent::UpdateSelection { highlight, hints } => {
                self.unset_selection();
                self.unset_hints();
                mark(&mut self.showing, *highlight);
                mark(&mut self.selected, *highlight);
                let ghost base = self.sets().3;
                let mut i: usize = 0;
                while i < hints.len()
                    invariant
                        i <= hints@.len(),
                        entity_set(self.selected@) == Set::<Entity>::empty().insert(*highlight),
                        entity_set(self.last_move@) == last,
                        entity_set(self.hinted@) == entity_set(hints@.take(i as int)),
                        entity_set(self.showing@) == base + entity_set(hints@.take(i as int)),
                    decreases hints@.len() - i,
                {
                    let h = hints[i];
                    mark(&mut self.showing, h);
                    mark(&mut self.hinted, h);
                    i = i + 1;
                    proof {
                        assert(hints@.take(i as int) =~= hints@.take(i - 1).push(h));
                        lemma_entity_set_push(hints@.take(i - 1), h);
                    }
                    assert(entity_set(self.showing@) =~= base + entity_set(hints@.take(i as int)));
                }
                assert(hints@.take(hints@.len() as int) =~= hints@);
                assert(self.sets() =~= spec_after_event((sel, last, hint, show), *event, *board_state));
            },
            SelectionEvent::Unselect => {
                self.unset_selection();
                self.unset_hints();
            },
            SelectionEvent::UpdateLastMove(from_sq, to_sq) => {
                self.unset_last_move();
                let e1 = board_state.highlight(*from_sq);
                let e2 = board_state.highlight(*to_sq);
                mark(&mut self.showing, e1);
                mark(&mut self.last_move, e1);
                mark(&mut self.showing, e2);
                mark(&mut self.last_move, e2);
                assert(self.sets() =~= spec_after_event((sel, last, hint, show), *event, *board_state));
            },
            SelectionEvent::UnsetLastMove => {
                self.unset_last_move();
            },
            SelectionEvent::UnsetAll => {
                self.unset_selection();
                self.unset_hints();
                self.unset_last_move();
            },
        }
    }
}

} // verus!
