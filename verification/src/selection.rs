//! Selection of entities: the selection of a select input, and the set of rows the
//! user checked in the list view.

use vstd::prelude::*;
use crate::view::{EntityId, NoDataAvailable};

verus! {

/// What a select input has selected.
#[derive(Debug, Clone, PartialEq)]
pub enum Selection<T> {
    Empty,
    Single(T),
    Multiple(Vec<T>),
}

/// The position of the first occurrence of `e` in `v`.
pub fn position_of(v: &Vec<EntityId>, e: EntityId) -> (r: Option<usize>)
    ensures
        match r {
            Some(i) => v@.index_of_first(e) == Some(i as int),
            None => v@.index_of_first(e) is None,
        },
{
    proof {
        v@.index_of_first_ensures(e);
    }
    let mut i: usize = 0;
    while i < v.len()
        invariant
            i <= v@.len(),
            forall|j: int| 0 <= j < i ==> v@[j] != e,
        decreases v@.len() - i,
    {
        if v[i] == e {
            proof {
                v@.index_of_first_ensures(e);
                match v@.index_of_first(e) {
                    Some(k) => {
                        assert(k == i as int);
                    },
                    None => {
                        assert(v@[i as int] == e);
                    },
                }
            }
            return Some(i);
        }
        i = i + 1;
    }
    proof {
        v@.index_of_first_ensures(e);
        if v@.contains(e) {
            let k = choose|k: int| 0 <= k < v@.len() && v@[k] == e;
            assert(v@[k] == e);
        }
    }
    None
}

/// No entity occurs twice.
pub open spec fn no_duplicates(s: Seq<EntityId>) -> bool {
    forall|i: int, j: int| 0 <= i < j < s.len() ==> s[i] != s[j]
}

/// The selection after `select(entity, state)`: an entity that is to be selected is
/// added at the end unless already there; one that is to be deselected loses its first
/// occurrence.
pub open spec fn spec_select(s: Seq<EntityId>, entity: EntityId, state: bool) -> Seq<EntityId> {
    if state {
        if s.contains(entity) {
            s
        } else {
            s.push(entity)
        }
    } else {
        s.remove_value(entity)
    }
}

/// The selection after toggling `entity`: removed if selected, added at the end if not.
pub open spec fn spec_toggle(s: Seq<EntityId>, entity: EntityId) -> Seq<EntityId> {
    if s.contains(entity) {
        s.remove_value(entity)
    } else {
        s.push(entity)
    }
}

/// The rows of the current page of the list view and which of them are selected.
pub struct CrudListViewContext {
    /// The loaded page, or why there is none.
    pub data: Result<Vec<EntityId>, NoDataAvailable>,
    /// The selected entities, in the order they were selected.
    pub selected: Vec<EntityId>,
}

impl CrudListViewContext {
    /// A list view showing `data`, with nothing selected.
    pub fn new(data: Result<Vec<EntityId>, NoDataAvailable>) -> (r: Self)
        ensures
            r.data == data,
            r.selected@ == Seq::<EntityId>::empty(),
    {
        CrudListViewContext { data, selected: Vec::new() }
    }

    /// Whether the page holds at least one row.
    pub fn has_data(&self) -> (r: bool)
        ensures
            r == (self.data is Ok && self.data->Ok_0@.len() > 0),
    {
        match &self.data {
            Ok(data) => data.len() > 0,
            Err(_) => false,
        }
    }

    /// Whether as many rows are selected as the page holds, and it holds some.
    pub fn all_selected(&self) -> (r: bool)
        ensures
            r == (self.data is Ok && self.selected@.len() == self.data->Ok_0@.len()
                && self.data->Ok_0@.len() > 0),
    {
        match &self.data {
            Ok(data) => self.selected.len() == data.len() && data.len() > 0,
            Err(_) => false,
        }
    }

    /// Whether `entity` is selected.
    pub fn is_selected(&self, entity: EntityId) -> (r: bool)
        ensures
            r == self.selected@.contains(entity),
    {
        let pos = position_of(&self.selected, entity);
        proof {
            self.selected@.index_of_first_ensures(entity);
        }
        pos.is_some()
    }

    /// Deselects everything.
    pub fn clear_selection(&mut self)
        ensures
            final(self).data == old(self).data,
            final(self).selected@ == Seq::<EntityId>::empty(),
    {
        self.selected = Vec::new();
    }

    /// Selects all rows of the page when fewer are selected, deselects everything
    /// otherwise. Without a loaded page nothing changes.
    pub fn toggle_select_all(&mut self)
        ensures
            final(self).data == old(self).data,
            match old(self).data {
                Ok(data) => if old(self).selected@.len() < data@.len() {
                    final(self).selected@ == data@
                } else {
                    final(self).selected@ == Seq::<EntityId>::empty()
                },
                Err(_) => final(self).selected@ == old(self).selected@,
            },
    {
        let mut next: Option<Vec<EntityId>> = None;
        match &self.data {
            Ok(data) => {
                if self.selected.len() < data.len() {
                    let mut copy: Vec<EntityId> = Vec::new();
                    let mut i: usize = 0;
                    while i < data.len()
                        invariant
                            i <= data@.len(),
                            copy@ == data@.subrange(0, i as int),
                        decreases data@.len() - i,
                    {
                        copy.push(data[i]);
                        i = i + 1;
                        assert(copy@ =~= data@.subrange(0, i as int));
                    }
                    assert(copy@ =~= data@);
                    next = Some(copy);
                } else {
                    next = Some(Vec::new());
                }
            },
            Err(_) => {},
        }
        match next {
            Some(v) => {
                self.selected = v;
            },
            None => {},
        }
    }

    /// Selects (`state == true`) or deselects `entity`.
    pub fn select(&mut self, entity: EntityId, state: bool)
        ensures
            final(self).data == old(self).data,
            final(self).selected@ == spec_select(old(self).selected@, entity, state),
    {
        let pos = position_of(&self.selected, entity);
        proof {
            self.selected@.index_of_first_ensures(entity);
        }
        match (pos, state) {
            (None, true) => self.selected.push(entity),
            (None, false) => {},
            (Some(_pos), true) => {},
            (Some(pos), false) => {
                let _ = self.selected.remove(pos);
            },
        }
    }

    /// Selects `entity` if it is not selected, deselects it otherwise.
    pub fn toggle_entity_selection(&mut self, entity: EntityId)
        ensures
            final(self).data == old(self).data,
            final(self).selected@ == spec_toggle(old(self).selected@, entity),
    {
        let pos = position_of(&self.selected, entity);
        proof {
            self.selected@.index_of_first_ensures(entity);
        }
        match pos {
            None => self.selected.push(entity),
            Some(pos) => {
                let _ = self.selected.remove(pos);
            },
        }
    }

    /// Handles a reload of the data: the new page is shown and the selection cleared.
    pub fn reload(&mut self, data: Result<Vec<EntityId>, NoDataAvailable>)
        ensures
            final(self).data == data,
            final(self).selected@ == Seq::<EntityId>::empty(),
    {
        self.data = data;
        self.clear_selection();
    }
}


/// Removing the first occurrence of an entity from a selection without duplicates
/// removes the entity, keeps every other one, and keeps the selection free of duplicates.
proof fn lemma_remove_value(s: Seq<EntityId>, e: EntityId)
    requires
        no_duplicates(s),
    ensures
        !s.remove_value(e).contains(e),
        no_duplicates(s.remove_value(e)),
        forall|x: EntityId| x != e ==> (s.remove_value(e).contains(x) <==> s.contains(x)),
{
    s.index_of_first_ensures(e);
    match s.index_of_first(e) {
        Some(i) => {
            let r = s.remove(i);
            s.remove_ensures(i);
            assert forall|x: EntityId| x != e implies (r.contains(x) <==> s.contains(x)) by {
                if s.contains(x) {
                    let k = choose|k: int| 0 <= k < s.len() && s[k] == x;
                    if k < i {
                        assert(r[k] == x);
                    } else {
                        assert(k != i);
                        assert(r[k - 1] == x);
                    }
                }
                if r.contains(x) {
                    let k = choose|k: int| 0 <= k < r.len() && r[k] == x;
                    if k < i {
                        assert(s[k] == x);
                    } else {
                        assert(s[k + 1] == x);
                    }
                }
            }
            if r.contains(e) {
                let k = choose|k: int| 0 <= k < r.len() && r[k] == e;
                if k < i {
                    assert(s[k] == e);
                } else {
                    assert(s[k + 1] == e);
                }
            }
            assert forall|a: int, b: int| 0 <= a < b < r.len() implies r[a] != r[b] by {
                let a2 = if a < i { a } else { a + 1 };
                let b2 = if b < i { b } else { b + 1 };
                assert(r[a] == s[a2] && r[b] == s[b2]);
            }
        },
        None => {},
    }
}

/// Selecting and deselecting keep a selection free of duplicates; afterwards the
/// entity is selected, respectively not selected, and all other entities keep their state.
pub proof fn lemma_select(s: Seq<EntityId>, entity: EntityId, state: bool)
    requires
        no_duplicates(s),
    ensures
        no_duplicates(spec_select(s, entity, state)),
        spec_select(s, entity, state).contains(entity) == state,
        forall|x: EntityId|
            x != entity ==> (spec_select(s, entity, state).contains(x) <==> s.contains(x)),
{
    if state {
        if !s.contains(entity) {
            let r = s.push(entity);
            assert(r[s.len() as int] == entity);
            assert forall|x: EntityId| x != entity implies (r.contains(x) <==> s.contains(x)) by {
                if s.contains(x) {
                    let k = choose|k: int| 0 <= k < s.len() && s[k] == x;
                    assert(r[k] == x);
                }
                if r.contains(x) {
                    let k = choose|k: int| 0 <= k < r.len() && r[k] == x;
                    assert(s[k] == x);
                }
            }
            assert forall|a: int, b: int| 0 <= a < b < r.len() implies r[a] != r[b] by {
                if b == s.len() {
                    assert(r[a] == s[a]);
                }
            }
        }
    } else {
        lemma_remove_value(s, entity);
    }
}

/// Toggling flips whether the entity is selected, leaves all other entities alone and
/// keeps the selection free of duplicates.
pub proof fn lemma_toggle(s: Seq<EntityId>, entity: EntityId)
    requires
        no_duplicates(s),
    ensures
        no_duplicates(spec_toggle(s, entity)),
        spec_toggle(s, entity).contains(entity) == !s.contains(entity),
        forall|x: EntityId| x != entity ==> (spec_toggle(s, entity).contains(x) <==> s.contains(x)),
{
    lemma_select(s, entity, !s.contains(entity));
}

/// Toggling an entity twice selects the same entities as before. A selection that did
/// not hold the entity is restored exactly; from a selection free of duplicates that held
/// it, the entity moves to the end.
pub proof fn lemma_toggle_twice(s: Seq<EntityId>, entity: EntityId)
    ensures
        no_duplicates(s) ==> forall|x: EntityId|
            spec_toggle(spec_toggle(s, entity), entity).contains(x) <==> s.contains(x),
        !s.contains(entity) ==> spec_toggle(spec_toggle(s, entity), entity) == s,
        no_duplicates(s) && s.contains(entity) ==> spec_toggle(spec_toggle(s, entity), entity)
            == s.remove_value(entity).push(entity),
{
    if no_duplicates(s) {
        lemma_toggle(s, entity);
        lemma_toggle(spec_toggle(s, entity), entity);
    }
    if !s.contains(entity) {
        let r = s.push(entity);
        r.index_of_first_ensures(entity);
        assert(r[s.len() as int] == entity);
        assert(r.contains(entity));
        let i = r.index_of_first(entity)->0;
        assert(i == s.len()) by {
            if i < s.len() {
                assert(s[i] == entity);
            }
        }
        assert(r.remove(i) =~= s);
    }
}

} // verus!
