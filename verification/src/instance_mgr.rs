//! The registry of the CRUD instances on a page, by name, so that a nested instance
//! can find the entity its parent shows.

use vstd::prelude::*;
use crate::instance_config::CrudParentConfig;
use crate::text::str_eq;
use crate::view::{CrudView, EntityId};

verus! {

/// The current view of one registered instance.
#[derive(Debug, Clone, Copy)]
pub struct InstanceState {
    pub name: &'static str,
    pub view: CrudView,
}

/// The registered instances, in registration order.
pub struct InstanceStates {
    pub states: Vec<InstanceState>,
}

/// The names of the registered instances.
pub open spec fn names(s: Seq<InstanceState>) -> Seq<Seq<char>> {
    s.map_values(|st: InstanceState| st.name@)
}

/// No name is registered twice.
pub open spec fn names_unique(s: Seq<InstanceState>) -> bool {
    forall|i: int, j: int| 0 <= i < s.len() && 0 <= j < s.len() && s[i].name@ == s[j].name@ ==> i == j
}

/// The state registered under `name`: the first one, if any.
pub open spec fn state_of(s: Seq<InstanceState>, name: Seq<char>) -> Option<InstanceState> {
    match names(s).index_of_first(name) {
        Some(i) => Some(s[i]),
        None => None,
    }
}

impl InstanceStates {
    /// No instance registered.
    pub fn new() -> (r: Self)
        ensures
            r.states@.len() == 0,
    {
        InstanceStates { states: Vec::new() }
    }

    fn position_of(&self, name: &str) -> (r: Option<usize>)
        ensures
            match r {
                Some(i) => i < self.states@.len() && names(self.states@).index_of_first(name@) == Some(i as int),
                None => names(self.states@).index_of_first(name@) is None,
            },
    {
        let mut i: usize = 0;
        while i < self.states.len()
            invariant
                i <= self.states@.len(),
                names(self.states@).len() == self.states@.len(),
                forall|j: int| 0 <= j < i ==> names(self.states@)[j] != name@,
            decreases self.states@.len() - i,
        {
            assert(names(self.states@)[i as int] == self.states@[i as int].name@);
            if str_eq(self.states[i].name, name) {
                proof {
                    names(self.states@).index_of_first_ensures(name@);
                    match names(self.states@).index_of_first(name@) {
                        Some(k) => {
                            assert(k == i as int);
                        },
                        None => {
                            assert(names(self.states@)[i as int] == name@);
                        },
                    }
                }
                return Some(i);
            }
            i = i + 1;
        }
        proof {
            names(self.states@).index_of_first_ensures(name@);
            if names(self.states@).contains(name@) {
                let k = choose|k: int| 0 <= k < names(self.states@).len() && names(self.states@)[k] == name@;
                assert(names(self.states@)[k] == name@);
            }
        }
        None
    }

    /// The state of the instance registered under `name`.
    pub fn get_by_name(&self, name: &'static str) -> (r: Option<InstanceState>)
        ensures
            r == state_of(self.states@, name@),
    {
        match self.position_of(name) {
            Some(i) => Some(self.states[i]),
            None => None,
        }
    }

    /// The entity shown by the parent instance named in `parent`: the one it reads or
    /// edits, none while it lists or creates. The parent must be registered.
    pub fn get_parent_id(&self, parent: &CrudParentConfig) -> (r: Option<EntityId>)
        requires
            state_of(self.states@, parent.name@) is Some,
        ensures
            r == match state_of(self.states@, parent.name@)->0.view {
                CrudView::Read(id) => Some(id),
                CrudView::Edit(id) => Some(id),
                _ => None,
            },
    {
        match self.get_by_name(parent.name) {
            Some(state) => state.view.entity_id(),
            None => None,
        }
    }
}

/// The registry the instance manager gives to the instances it contains.
pub struct CrudInstanceMgrContext {
    pub instances: InstanceStates,
}

impl CrudInstanceMgrContext {
    /// A registry without instances.
    pub fn new() -> (r: Self)
        ensures
            r.instances.states@.len() == 0,
    {
        CrudInstanceMgrContext { instances: InstanceStates::new() }
    }

    /// Registers `state` for the instance named `name`, which must not be registered yet
    /// (registering a name twice is an error).
    pub fn register(&mut self, name: &'static str, state: InstanceState)
        requires
            state_of(old(self).instances.states@, name@) is None,
        ensures
            final(self).instances.states@ == old(self).instances.states@.push(state),
    {
        self.instances.states.push(state);
    }
}

/// Registering a state under its own, new name and then looking that name up gives the
/// state back; registering keeps names unique; the other names keep their states.
pub proof fn lemma_register_then_get(s: Seq<InstanceState>, state: InstanceState, other: Seq<char>)
    requires
        names_unique(s),
        state_of(s, state.name@) is None,
    ensures
        state_of(s.push(state), state.name@) == Some(state),
        names_unique(s.push(state)),
        other != state.name@ ==> state_of(s.push(state), other) == state_of(s, other),
{
    let r = s.push(state);
    let k = s.len() as int;
    names(s).index_of_first_ensures(state.name@);
    assert(names(r) =~= names(s).push(state.name@));
    assert(r[k] == state);
    assert(names_unique(r)) by {
        assert forall|i: int, j: int|
            0 <= i < r.len() && 0 <= j < r.len() && r[i].name@ == r[j].name@ implies i == j by {
            if i != k && j != k {
                assert(s[i] == r[i] && s[j] == r[j]);
            } else if i == k && j != k {
                assert(s[j] == r[j]);
                assert(names(s)[j] == state.name@);
            } else if j == k && i != k {
                assert(s[i] == r[i]);
                assert(names(s)[i] == state.name@);
            }
        }
    }
    names(r).index_of_first_ensures(state.name@);
    assert(names(r)[k] == state.name@);
    match names(r).index_of_first(state.name@) {
        Some(j) => {
            if j < k {
                assert(names(s)[j] == state.name@);
            }
        },
        None => {},
    }
    if other != state.name@ {
        names(r).index_of_first_ensures(other);
        names(s).index_of_first_ensures(other);
        assert(names(r)[k] != other);
        assert forall|m: int| 0 <= m < k implies names(r)[m] == names(s)[m] by {
            assert(r[m] == s[m]);
        }
        match names(s).index_of_first(other) {
            Some(j) => {
                assert(names(r)[j] == names(s)[j]);
                match names(r).index_of_first(other) {
                    Some(m) => {
                        assert(m != k);
                        assert(names(s)[m] == other);
                        assert(m == j);
                    },
                    None => {},
                }
            },
            None => {
                match names(r).index_of_first(other) {
                    Some(m) => {
                        assert(m != k);
                        assert(names(s)[m] == other);
                    },
                    None => {},
                }
            },
        }
    }
}

} // verus!
