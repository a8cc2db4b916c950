//! The event handling of the edit view: it loads an entity, lets the user change its
//! fields, tracks whether the input differs from the loaded entity, saves it, and runs
//! the entity actions.

use std::collections::HashMap;
use vstd::prelude::*;
use crate::action::CrudActionAftermath;
use crate::action_context::{ActionId, ids};
use crate::delete::RequestError;
use crate::order::FieldId;
use crate::text::str_eq;

verus! {

broadcast use vstd::std_specs::hash::group_hash_axioms;

/// The values of an entity's fields, by field position.
pub type FieldValues = Vec<i64>;

/// Why the edit view has no entity.
#[derive(Debug, Clone, PartialEq)]
pub enum NoData {
    NotYetLoaded,
    FetchReturnedNothing,
    UpdateReturnedNothing,
    FetchFailed(RequestError),
    UpdateFailed(RequestError),
}

/// The entity being edited, or why there is none, whether that reason is shown yet, and
/// whether the clock that will show it is running.
pub enum EntityState {
    Loaded(FieldValues),
    Missing { reason: NoData, shown: bool, clock_running: bool },
}

/// What to do after a successful save.
#[derive(Debug, Clone, Copy, PartialEq, Eq, Structural)]
pub enum Then {
    DoNothing,
    OpenListView,
    OpenCreateView,
}

/// What the server answered to a save request.
pub enum SaveResult {
    Saved { entity: FieldValues, with_validation_errors: bool },
    Aborted { reason: String },
    CriticalValidationErrors,
}

/// A message to the edit view.
pub enum Msg {
    Back,
    BackCanceled,
    BackApproved,
    LoadedEntity(Result<Option<FieldValues>, RequestError>),
    UpdatedEntity(Result<SaveResult, RequestError>, Then),
    ShowError,
    Save,
    SaveAndReturn,
    SaveAndNew,
    Delete,
    TabSelected(String),
    ValueChanged(FieldId, Result<i64, String>),
    GetInput(FieldId),
    ActionInitialized(ActionId),
    ActionCancelled(ActionId),
    ActionTriggered(ActionId),
    ActionExecuted(ActionId, Result<CrudActionAftermath, CrudActionAftermath>),
    Reload,
}

/// Something the edit view reports to the instance.
pub enum EditEvent {
    /// Open the list view.
    List,
    /// Open the create view.
    Create,
    /// The user asked to delete this entity.
    Delete(FieldValues),
    TabSelected(String),
    EntityUpdated { entity: FieldValues, with_validation_errors: bool },
    EntityUpdateAborted(String),
    EntityNotUpdatedDueToCriticalErrors,
    EntityUpdateFailed(RequestError),
    EntityAction(CrudActionAftermath),
}

/// Something the edit view asks its caller to start.
pub enum EditRequest {
    /// Save this input, then do as `Then` says.
    Save(FieldValues, Then),
    /// Load the entity (again).
    Load,
    /// Run the action on this input.
    RunAction(ActionId, FieldValues),
    /// Answer a `GetInput` message with this value.
    Reply(i64),
}

/// What the caller must do after a message was handled.
pub struct EditEffects {
    pub rerender: bool,
    /// Reports to the instance, in this order.
    pub events: Vec<EditEvent>,
    pub request: Option<EditRequest>,
}

/// The state of an edit view.
pub struct CrudEditView {
    /// The user's input; `None` until the entity was loaded.
    pub input: Option<FieldValues>,
    /// Whether the input differs from the loaded entity.
    pub input_dirty: bool,
    /// Fields whose last input could not be read, with the error.
    pub input_errors: HashMap<FieldId, String>,
    /// Actions whose dialog the user opened.
    pub user_wants_to_activate: Vec<ActionId>,
    /// Whether the user asked to leave the view.
    pub user_wants_to_leave: bool,
    pub entity: EntityState,
    pub ongoing_save: bool,
    /// Actions currently running.
    pub actions_executing: Vec<ActionId>,
}

pub(crate) fn copy_values(v: &FieldValues) -> (r: FieldValues)
    ensures
        r@ == v@,
{
    let mut r: FieldValues = Vec::new();
    let mut i: usize = 0;
    while i < v.len()
        invariant
            i <= v@.len(),
            r@ == v@.subrange(0, i as int),
        decreases v@.len() - i,
    {
        r.push(v[i]);
        i = i + 1;
        assert(r@ =~= v@.subrange(0, i as int));
    }
    assert(r@ =~= v@);
    r
}

pub(crate) fn values_eq(a: &FieldValues, b: &FieldValues) -> (r: bool)
    ensures
        r == (a@ == b@),
{
    if a.len() != b.len() {
        return false;
    }
    let mut i: usize = 0;
    while i < a.len()
        invariant
            a@.len() == b@.len(),
            i <= a@.len(),
            forall|j: int| 0 <= j < i ==> a@[j] == b@[j],
        decreases a@.len() - i,
    {
        if a[i] != b[i] {
            return false;
        }
        i = i + 1;
    }
    assert(a@ =~= b@);
    true
}

fn position_of_action(v: &Vec<ActionId>, id: ActionId) -> (r: Option<usize>)
    ensures
        match r {
            Some(i) => i < v@.len() && ids(v@).index_of_first(id@) == Some(i as int)
                && ids(v@).contains(id@),
            None => !ids(v@).contains(id@),
        },
{
    let mut i: usize = 0;
    while i < v.len()
        invariant
            i <= v@.len(),
            ids(v@).len() == v@.len(),
            forall|j: int| 0 <= j < i ==> ids(v@)[j] != id@,
        decreases v@.len() - i,
    {
        assert(ids(v@)[i as int] == v@[i as int]@);
        if str_eq(v[i], id) {
            proof {
                ids(v@).index_of_first_ensures(id@);
                match ids(v@).index_of_first(id@) {
                    Some(k) => {
                        assert(k == i as int);
                    },
                    None => {
                        assert(ids(v@)[i as int] == id@);
                    },
                }
            }
            return Some(i);
        }
        i = i + 1;
    }
    proof {
        if ids(v@).contains(id@) {
            let k = choose|k: int| 0 <= k < ids(v@).len() && ids(v@)[k] == id@;
            assert(ids(v@)[k] == id@);
        }
    }
    None
}

/// Nothing to do but maybe re-render.
pub open spec fn quiet(e: EditEffects, rerender: bool) -> bool {
    e.rerender == rerender && e.events@.len() == 0 && e.request is None
}

fn effects(rerender: bool) -> (e: EditEffects)
    ensures
        quiet(e, rerender),
{
    EditEffects { rerender, events: Vec::new(), request: None }
}

impl CrudEditView {
    /// An error is either waiting to be shown, with its clock running, or shown, with
    /// its clock stopped.
    pub open spec fn wf(&self) -> bool {
        self.entity matches EntityState::Missing { shown, clock_running, .. } ==> shown
            == !clock_running
    }

    /// A new edit view: nothing loaded yet, the clock that will show "not yet loaded"
    /// is running. The caller starts loading the entity.
    pub fn new() -> (r: Self)
        ensures
            r.wf(),
            r.input is None,
            !r.input_dirty,
            r.input_errors@ == Map::<FieldId, String>::empty(),
            r.user_wants_to_activate@.len() == 0,
            !r.user_wants_to_leave,
            r.entity matches EntityState::Missing { reason: NoData::NotYetLoaded, shown: false, clock_running: true },
            !r.ongoing_save,
            r.actions_executing@.len() == 0,
    {
        CrudEditView {
            input: None,
            input_dirty: false,
            input_errors: HashMap::new(),
            user_wants_to_activate: Vec::new(),
            user_wants_to_leave: false,
            entity: EntityState::Missing {
                reason: NoData::NotYetLoaded,
                shown: false,
                clock_running: true,
            },
            ongoing_save: false,
            actions_executing: Vec::new(),
        }
    }

    /// Saving is disabled while a save runs or while some input could not be read.
    pub fn is_save_disabled(&self) -> (r: bool)
        ensures
            r == (self.ongoing_save || !self.input_errors@.is_empty()),
    {
        self.ongoing_save || !self.input_errors.is_empty()
    }

    /// Deleting is disabled while a save runs.
    pub fn is_delete_disabled(&self) -> (r: bool)
        ensures
            r == self.ongoing_save,
    {
        self.ongoing_save
    }

    /// Handles one message: updates the state and returns what the caller must do.
    pub fn update(&mut self, msg: Msg) -> (e: EditEffects)
        requires
            (msg is Save || msg is SaveAndReturn || msg is SaveAndNew || msg is GetInput
                || msg is ActionTriggered) ==> old(self).input is Some,
            msg matches Msg::ValueChanged(field, Ok(_)) ==> old(self).input is Some
                && (field as nat) < old(self).input->0@.len(),
            msg matches Msg::GetInput(field) ==> old(self).input is Some
                && (field as nat) < old(self).input->0@.len(),
        ensures
            final(self).ongoing_save == old(self).ongoing_save,
            old(self).wf() ==> final(self).wf(),
            !(msg is LoadedEntity || msg is UpdatedEntity || msg is ShowError) ==> final(self).entity
                == old(self).entity,
            !(msg is LoadedEntity || msg is UpdatedEntity || msg is ValueChanged) ==> final(self).input
                == old(self).input && final(self).input_dirty == old(self).input_dirty,
            !(msg is ValueChanged) ==> final(self).input_errors@ == old(self).input_errors@,
            !(msg is ActionInitialized || msg is ActionCancelled || msg is ActionTriggered)
                ==> final(self).user_wants_to_activate@ == old(self).user_wants_to_activate@,
            !(msg is ActionTriggered || msg is ActionExecuted) ==> final(self).actions_executing@
                == old(self).actions_executing@,
            !(msg is Back || msg is BackCanceled) ==> final(self).user_wants_to_leave
                == old(self).user_wants_to_leave,
            match msg {
                Msg::Back => {
                    &&& final(self).user_wants_to_leave
                    &&& if old(self).input_dirty {
                        quiet(e, true)
                    } else {
                        !e.rerender && e.request is None && e.events@.len() == 1
                            && e.events@[0] is List
                    }
                },
                Msg::BackCanceled => !final(self).user_wants_to_leave && quiet(e, true),
                Msg::BackApproved => final(self).user_wants_to_leave == old(self).user_wants_to_leave
                    && !e.rerender && e.request is None && e.events@.len() == 1 && e.events@[0] is List,
                Msg::LoadedEntity(data) => {
                    &&& quiet(e, true)
                    &&& match data {
                        Ok(Some(entity)) => {
                            &&& final(self).entity matches EntityState::Loaded(v) && v@ == entity@
                            &&& final(self).input matches Some(i) && i@ == entity@
                            &&& !final(self).input_dirty
                        },
                        Ok(None) => {
                            &&& final(self).entity matches EntityState::Missing { reason: NoData::FetchReturnedNothing, shown: true, clock_running: false }
                            &&& final(self).input == old(self).input
                            &&& final(self).input_dirty == old(self).input_dirty
                        },
                        Err(err) => {
                            &&& final(self).entity matches EntityState::Missing { reason: NoData::FetchFailed(x), shown: true, clock_running: false } && x == err
                            &&& final(self).input == old(self).input
                            &&& final(self).input_dirty == old(self).input_dirty
                        },
                    }
                },
                Msg::UpdatedEntity(data, then) => {
                    &&& e.rerender && e.request is None
                    &&& match data {
                        Ok(SaveResult::Saved { entity, with_validation_errors }) => {
                            &&& final(self).entity matches EntityState::Loaded(v) && v@ == entity@
                            &&& final(self).input matches Some(i) && i@ == entity@
                            &&& !final(self).input_dirty
                            &&& e.events@.len() == if then == Then::DoNothing { 1int } else { 2int }
                            &&& e.events@[0] matches EditEvent::EntityUpdated { entity: u, with_validation_errors: w }
                                && u@ == entity@ && w == with_validation_errors
                            &&& then == Then::OpenListView ==> e.events@[1] is List
                            &&& then == Then::OpenCreateView ==> e.events@[1] is Create
                        },
                        Ok(SaveResult::Aborted { reason }) => {
                            &&& final(self).entity == old(self).entity
                            &&& final(self).input == old(self).input
                            &&& final(self).input_dirty == old(self).input_dirty
                            &&& e.events@.len() == 1
                            &&& e.events@[0] matches EditEvent::EntityUpdateAborted(r) && r == reason
                        },
                        Ok(SaveResult::CriticalValidationErrors) => {
                            &&& final(self).entity == old(self).entity
                            &&& final(self).input == old(self).input
                            &&& final(self).input_dirty == old(self).input_dirty
                            &&& e.events@.len() == 1
                            &&& e.events@[0] is EntityNotUpdatedDueToCriticalErrors
                        },
                        Err(err) => {
                            &&& final(self).entity matches EntityState::Missing { reason: NoData::UpdateFailed(x), shown: true, clock_running: false } && x == err
                            &&& final(self).input == old(self).input
                            &&& final(self).input_dirty == old(self).input_dirty
                            &&& e.events@.len() == 1
                            &&& e.events@[0] matches EditEvent::EntityUpdateFailed(x) && x == err
                        },
                    }
                },
                Msg::ShowError => match old(self).entity {
                    EntityState::Loaded(_) => final(self).entity == old(self).entity && quiet(e, false),
                    EntityState::Missing { reason, shown: _, clock_running: _ } => {
                        &&& final(self).entity matches EntityState::Missing { reason: r, shown: true, clock_running: false } && r == reason
                        &&& quiet(e, true)
                    },
                },
                Msg::Save | Msg::SaveAndReturn | Msg::SaveAndNew => {
                    &&& final(self).input == old(self).input
                    &&& e.rerender == (msg is Save)
                    &&& e.events@.len() == 0
                    &&& e.request matches Some(EditRequest::Save(v, t)) && v@ == old(self).input->0@
                        && t == match msg {
                            Msg::SaveAndReturn => Then::OpenListView,
                            Msg::SaveAndNew => Then::OpenCreateView,
                            _ => Then::DoNothing,
                        }
                },
                Msg::Delete => {
                    &&& !e.rerender && e.request is None
                    &&& match old(self).entity {
                        EntityState::Loaded(v) => e.events@.len() == 1
                            && (e.events@[0] matches EditEvent::Delete(d) && d@ == v@),
                        _ => e.events@.len() == 0,
                    }
                },
                Msg::TabSelected(label) => !e.rerender && e.request is None && e.events@.len() == 1
                    && (e.events@[0] matches EditEvent::TabSelected(l) && l == label),
                Msg::ValueChanged(field, result) => {
                    &&& quiet(e, false)
                    &&& final(self).entity == old(self).entity
                    &&& match result {
                        Ok(value) => {
                            &&& final(self).input matches Some(i)
                                && i@ == old(self).input->0@.update(field as int, value)
                            &&& final(self).input_errors@ == old(self).input_errors@.remove(field)
                            &&& final(self).input_dirty == match old(self).entity {
                                EntityState::Loaded(v) => final(self).input->0@ != v@,
                                _ => false,
                            }
                        },
                        Err(err) => {
                            &&& final(self).input == old(self).input
                            &&& final(self).input_errors@ == old(self).input_errors@.insert(field, err)
                            &&& final(self).input_dirty == old(self).input_dirty
                        },
                    }
                },
                Msg::GetInput(field) => {
                    &&& !e.rerender && e.events@.len() == 0
                    &&& e.request == Some(EditRequest::Reply(old(self).input->0@[field as int]))
                },
                Msg::ActionInitialized(id) => {
                    &&& final(self).user_wants_to_activate@ == old(self).user_wants_to_activate@.push(id)
                    &&& quiet(e, true)
                },
                Msg::ActionCancelled(id) => {
                    &&& ids(final(self).user_wants_to_activate@) == ids(old(self).user_wants_to_activate@).remove_value(id@)
                    &&& quiet(e, ids(old(self).user_wants_to_activate@).contains(id@))
                },
                Msg::ActionTriggered(id) => {
                    &&& ids(final(self).user_wants_to_activate@) == ids(old(self).user_wants_to_activate@).remove_value(id@)
                    &&& e.events@.len() == 0
                    &&& e.request matches Some(EditRequest::RunAction(a, v)) && a == id && v@ == old(self).input->0@
                    &&& if ids(old(self).actions_executing@).contains(id@) {
                        final(self).actions_executing@ == old(self).actions_executing@ && !e.rerender
                    } else {
                        final(self).actions_executing@ == old(self).actions_executing@.push(id) && e.rerender
                    }
                },
                Msg::ActionExecuted(id, result) => {
                    &&& ids(final(self).actions_executing@) == ids(old(self).actions_executing@).remove_value(id@)
                    &&& e.rerender == ids(old(self).actions_executing@).contains(id@)
                    &&& e.request is None
                    &&& e.events@.len() == 1
                    &&& e.events@[0] == EditEvent::EntityAction(match result {
                        Ok(a) => a,
                        Err(a) => a,
                    })
                },
                Msg::Reload => !e.rerender && e.events@.len() == 0 && e.request matches Some(EditRequest::Load),
            },
    {
        match msg {
            Msg::Back => {
                self.user_wants_to_leave = true;
                if self.input_dirty {
                    effects(true)
                } else {
                    let mut e = effects(false);
                    e.events.push(EditEvent::List);
                    e
                }
            },
            Msg::BackCanceled => {
                self.user_wants_to_leave = false;
                effects(true)
            },
            Msg::BackApproved => {
                let mut e = effects(false);
                e.events.push(EditEvent::List);
                e
            },
            Msg::LoadedEntity(data) => {
                match data {
                    Ok(Some(entity)) => {
                        let input = copy_values(&entity);
                        self.entity = EntityState::Loaded(entity);
                        self.input = Some(input);
                        self.input_dirty = false;
                    },
                    Ok(None) => {
                        self.entity = EntityState::Missing {
                            reason: NoData::FetchReturnedNothing,
                            shown: true,
                            clock_running: false,
                        };
                    },
                    Err(err) => {
                        self.entity = EntityState::Missing {
                            reason: NoData::FetchFailed(err),
                            shown: true,
                            clock_running: false,
                        };
                    },
                }
                effects(true)
            },
            Msg::UpdatedEntity(data, and_then) => {
                let mut e = effects(true);
                match data {
                    Ok(SaveResult::Saved { entity, with_validation_errors }) => {
                        let input = copy_values(&entity);
                        let reported = copy_values(&entity);
                        self.input = Some(input);
                        self.input_dirty = false;
                        self.entity = EntityState::Loaded(entity);
                        e.events.push(EditEvent::EntityUpdated { entity: reported, with_validation_errors });
                        match and_then {
                            Then::DoNothing => {},
                            Then::OpenListView => e.events.push(EditEvent::List),
                            Then::OpenCreateView => e.events.push(EditEvent::Create),
                        }
                    },
                    Ok(SaveResult::Aborted { reason }) => {
                        e.events.push(EditEvent::EntityUpdateAborted(reason));
                    },
                    Ok(SaveResult::CriticalValidationErrors) => {
                        e.events.push(EditEvent::EntityNotUpdatedDueToCriticalErrors);
                    },
                    Err(err) => {
                        let reported = RequestError(err.0.clone());
                        self.entity = EntityState::Missing {
                            reason: NoData::UpdateFailed(err),
                            shown: true,
                            clock_running: false,
                        };
                        e.events.push(EditEvent::EntityUpdateFailed(reported));
                    },
                }
                e
            },
            Msg::ShowError => {
                let show = match &self.entity {
                    EntityState::Loaded(_) => false,
                    EntityState::Missing { .. } => true,
                };
                if show {
                    let mut old_entity = EntityState::Loaded(Vec::new());
                    std::mem::swap(&mut self.entity, &mut old_entity);
                    match old_entity {
                        EntityState::Missing { reason, shown: _, clock_running: _ } => {
                            self.entity = EntityState::Missing { reason, shown: true, clock_running: false };
                        },
                        EntityState::Loaded(v) => {
                            self.entity = EntityState::Loaded(v);
                        },
                    }
                    effects(true)
                } else {
                    effects(false)
                }
            },
            Msg::Save | Msg::SaveAndReturn | Msg::SaveAndNew => {
                let (then, rerender) = match msg {
                    Msg::SaveAndReturn => (Then::OpenListView, false),
                    Msg::SaveAndNew => (Then::OpenCreateView, false),
                    _ => (Then::DoNothing, true),
                };
                let entity = match &self.input {
                    Some(input) => copy_values(input),
                    None => Vec::new(),
                };
                let mut e = effects(rerender);
                e.request = Some(EditRequest::Save(entity, then));
                e
            },
            Msg::Delete => {
                let mut e = effects(false);
                match &self.entity {
                    EntityState::Loaded(entity) => e.events.push(EditEvent::Delete(copy_values(entity))),
                    EntityState::Missing { .. } => {},
                }
                e
            },
            Msg::TabSelected(label) => {
                let mut e = effects(false);
                e.events.push(EditEvent::TabSelected(label));
                e
            },
            Msg::ValueChanged(field, result) => {
                match result {
                    Ok(value) => {
                        let mut input = match self.input.take() {
                            Some(input) => input,
                            None => Vec::new(),
                        };
                        let n = input.len();
                        assert(field < n);
                        let index: usize = field as usize;
                        input.set(index, value);
                        let _ = self.input_errors.remove(&field);
                        self.input_dirty = match &self.entity {
                            EntityState::Loaded(entity) => !values_eq(&input, entity),
                            EntityState::Missing { .. } => false,
                        };
                        self.input = Some(input);
                    },
                    Err(err) => {
                        let _ = self.input_errors.insert(field, err);
                    },
                }
                effects(false)
            },
            Msg::GetInput(field) => {
                let value = match &self.input {
                    Some(input) => {
                        let n = input.len();
                        assert(field < n);
                        let index: usize = field as usize;
                        input[index]
                    },
                    None => 0,
                };
                let mut e = effects(false);
                e.request = Some(EditRequest::Reply(value));
                e
            },
            Msg::ActionInitialized(action_id) => {
                self.user_wants_to_activate.push(action_id);
                effects(true)
            },
            Msg::ActionCancelled(action_id) => {
                match position_of_action(&self.user_wants_to_activate, action_id) {
                    Some(index) => {
                        let _ = self.user_wants_to_activate.remove(index);
                        proof {
                            assert(ids(self.user_wants_to_activate@) =~= ids(old(self).user_wants_to_activate@).remove(index as int));
                        }
                        effects(true)
                    },
                    None => {
                        proof {
                            ids(self.user_wants_to_activate@).index_of_first_ensures(action_id@);
                        }
                        effects(false)
                    },
                }
            },
            Msg::ActionTriggered(action_id) => {
                match position_of_action(&self.user_wants_to_activate, action_id) {
                    Some(index) => {
                        let ghost before = self.user_wants_to_activate@;
                        let _ = self.user_wants_to_activate.remove(index);
                        proof {
                            assert(ids(self.user_wants_to_activate@) =~= ids(before).remove(index as int));
                        }
                    },
                    None => {
                        proof {
                            ids(self.user_wants_to_activate@).index_of_first_ensures(action_id@);
                        }
                    },
                }
                let input = match &self.input {
                    Some(input) => copy_values(input),
                    None => Vec::new(),
                };
                let executing = position_of_action(&self.actions_executing, action_id).is_some();
                let mut e = effects(false);
                e.request = Some(EditRequest::RunAction(action_id, input));
                if !executing {
                    self.actions_executing.push(action_id);
                    e.rerender = true;
                }
                e
            },
            Msg::ActionExecuted(action_id, result) => {
                let aftermath = match result {
                    Ok(aftermath) => aftermath,
                    Err(aftermath) => aftermath,
                };
                let mut e = match position_of_action(&self.actions_executing, action_id) {
                    Some(index) => {
                        let ghost before = self.actions_executing@;
                        let _ = self.actions_executing.remove(index);
                        proof {
                            assert(ids(self.actions_executing@) =~= ids(before).remove(index as int));
                        }
                        effects(true)
                    },
                    None => {
                        proof {
                            ids(self.actions_executing@).index_of_first_ensures(action_id@);
                        }
                        effects(false)
                    },
                };
                e.events.push(EditEvent::EntityAction(aftermath));
                e
            },
            Msg::Reload => {
                let mut e = effects(false);
                e.request = Some(EditRequest::Load);
                e
            },
        }
    }
}

} // verus!
