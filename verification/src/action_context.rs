//! Bookkeeping of user actions: which actions the user asked for (their confirmation
//! dialog is open) and which are running (their button is disabled).

use vstd::prelude::*;
use crate::action::CrudActionAftermath;
use crate::instance::CrudInstanceContext;
use crate::text::str_eq;
use crate::toast::Toast;

verus! {

/// An action, identified by its id.
pub type ActionId = &'static str;

/// The texts of a list of action ids.
pub open spec fn ids(s: Seq<ActionId>) -> Seq<Seq<char>> {
    s.map_values(|a: ActionId| a@)
}

/// The position of the first action in `v` whose id reads `id`.
fn position_of_id(v: &Vec<ActionId>, id: &str) -> (r: Option<usize>)
    ensures
        match r {
            Some(i) => i < v@.len() && ids(v@).index_of_first(id@) == Some(i as int),
            None => ids(v@).index_of_first(id@) is None,
        },
{
    let mut i: usize = 0;
    while i < v.len()
        invariant
            i <= v@.len(),
            ids(v@).len() == v@.len(),
            forall|j: int| 0 <= j < i ==> ids(v@)[j] != id@,
        decreases v@.len() - i,
    {
        assert(ids(v@)[i as int] == v@[i as int]@);
        if str_eq(v[i], id) {
            proof {
                assert(ids(v@)[i as int] == v@[i as int]@);
                ids(v@).index_of_first_ensures(id@);
                match ids(v@).index_of_first(id@) {
                    Some(k) => {
                        assert(k == i as int);
                    },
                    None => {
                        assert(ids(v@)[i as int] == id@);
                    },
                }
            }
            return Some(i);
        }
        i = i + 1;
    }
    proof {
        ids(v@).index_of_first_ensures(id@);
        if ids(v@).contains(id@) {
            let k = choose|k: int| 0 <= k < ids(v@).len() && ids(v@)[k] == id@;
            assert(ids(v@)[k] == id@);
        }
    }
    None
}

/// Removes the first action whose id reads `id`, if there is one.
fn remove_first(v: &mut Vec<ActionId>, id: &str)
    ensures
        ids(final(v)@) == ids(old(v)@).remove_value(id@),
{
    let pos = position_of_id(v, id);
    match pos {
        Some(i) => {
            let _ = v.remove(i);
            assert(ids(v@) =~= ids(old(v)@).remove(i as int));
        },
        None => {},
    }
}

/// Whether some action in `v` has the id `id`.
fn contains_id(v: &Vec<ActionId>, id: &str) -> (r: bool)
    ensures
        r == ids(v@).contains(id@),
{
    proof {
        ids(v@).index_of_first_ensures(id@);
    }
    position_of_id(v, id).is_some()
}

/// An action to run now on the resource: the action and the payload the user gave in its
/// dialog, if any. When it ends, the caller reports its outcome to `action_completed`.
pub struct ActionRun<P> {
    pub action_id: ActionId,
    pub payload: Option<P>,
}

/// An action to run now on one entity: the action, the entity as the user edits it, and
/// the payload the user gave in its dialog, if any. When it ends, the caller reports its
/// outcome to `action_completed`.
pub struct EntityActionRun<M, P> {
    pub action_id: ActionId,
    pub update_model: M,
    pub payload: Option<P>,
}

/// The actions requested and executing in one part of the user interface.
pub struct CrudActionContext {
    /// Actions whose execution the user requested; their dialog is shown.
    pub actions_requested: Vec<ActionId>,
    /// Actions currently executing; they cannot be started again meanwhile.
    pub actions_executing: Vec<ActionId>,
}

impl CrudActionContext {
    /// No action requested or executing.
    pub fn new() -> (r: Self)
        ensures
            r.actions_requested@ == Seq::<ActionId>::empty(),
            r.actions_executing@ == Seq::<ActionId>::empty(),
    {
        CrudActionContext { actions_requested: Vec::new(), actions_executing: Vec::new() }
    }

    /// The user asked to execute `action_id`: its dialog opens.
    pub fn request_action(&mut self, action_id: ActionId)
        ensures
            final(self).actions_requested@ == old(self).actions_requested@.push(action_id),
            final(self).actions_executing@ == old(self).actions_executing@,
    {
        self.actions_requested.push(action_id);
    }

    /// Whether the user asked to execute `action_id` and neither cancelled nor confirmed.
    pub fn is_action_requested(&self, action_id: ActionId) -> (r: bool)
        ensures
            r == ids(self.actions_requested@).contains(action_id@),
    {
        contains_id(&self.actions_requested, action_id)
    }

    /// Whether `action_id` is currently executing.
    pub fn is_action_executing(&self, action_id: ActionId) -> (r: bool)
        ensures
            r == ids(self.actions_executing@).contains(action_id@),
    {
        contains_id(&self.actions_executing, action_id)
    }

    /// The user cancelled the request to execute `action_id`.
    pub fn cancel_action(&mut self, action_id: ActionId)
        ensures
            ids(final(self).actions_requested@) == ids(old(self).actions_requested@).remove_value(
                action_id@,
            ),
            final(self).actions_executing@ == old(self).actions_executing@,
    {
        remove_first(&mut self.actions_requested, action_id);
    }

    /// The user confirmed `action_id` (or started it directly): it is no longer
    /// requested and is now executing, and it is to be run once, with `action_payload`.
    pub fn trigger_action<P>(&mut self, action_id: ActionId, action_payload: Option<P>) -> (r:
        ActionRun<P>)
        ensures
            ids(final(self).actions_requested@) == ids(old(self).actions_requested@).remove_value(
                action_id@,
            ),
            final(self).actions_executing@ == old(self).actions_executing@.push(action_id),
            r == (ActionRun { action_id, payload: action_payload }),
    {
        remove_first(&mut self.actions_requested, action_id);
        self.actions_executing.push(action_id);
        ActionRun { action_id, payload: action_payload }
    }

    /// Like `trigger_action`, for an action on the entity being shown: it is to be run
    /// once, with the entity as edited (`update_model`) and `action_payload`.
    pub fn trigger_entity_action<M, P>(
        &mut self,
        action_id: ActionId,
        update_model: M,
        action_payload: Option<P>,
    ) -> (r: EntityActionRun<M, P>)
        ensures
            ids(final(self).actions_requested@) == ids(old(self).actions_requested@).remove_value(
                action_id@,
            ),
            final(self).actions_executing@ == old(self).actions_executing@.push(action_id),
            r == (EntityActionRun { action_id, update_model, payload: action_payload }),
    {
        remove_first(&mut self.actions_requested, action_id);
        self.actions_executing.push(action_id);
        EntityActionRun { action_id, update_model, payload: action_payload }
    }

    /// The action `action_id` ended with `outcome`: whatever the outcome, it is no longer
    /// executing, and the instance handles the outcome, success or failure alike (the
    /// returned notification is to be shown; the data is reloaded when asked for).
    pub fn action_completed(
        &mut self,
        action_id: ActionId,
        outcome: Result<CrudActionAftermath, CrudActionAftermath>,
        instance_ctx: &mut CrudInstanceContext,
    ) -> (r: Option<Toast>)
        ensures
            final(self).actions_requested@ == old(self).actions_requested@,
            ids(final(self).actions_executing@) == ids(old(self).actions_executing@).remove_value(
                action_id@,
            ),
            ({
                let a = match outcome {
                    Ok(a) => a,
                    Err(a) => a,
                };
                &&& r == a.show_toast
                &&& a.reload_data ==> final(instance_ctx).reloads@ == old(instance_ctx).reloads@ + 1
                &&& !a.reload_data ==> final(instance_ctx).reload == old(instance_ctx).reload
                    && final(instance_ctx).reloads == old(instance_ctx).reloads
            }),
            *final(instance_ctx) == (CrudInstanceContext {
                reload: final(instance_ctx).reload,
                reloads: final(instance_ctx).reloads,
                ..*old(instance_ctx)
            }),
    {
        remove_first(&mut self.actions_executing, action_id);
        instance_ctx.handle_action_outcome(outcome)
    }
}


/// Adding an element and then removing its first occurrence leaves the same elements
/// (as a multiset); a sequence that did not hold the element is restored exactly.
proof fn lemma_push_then_remove<A>(s: Seq<A>, x: A)
    ensures
        s.push(x).remove_value(x).to_multiset() == s.to_multiset(),
        !s.contains(x) ==> s.push(x).remove_value(x) == s,
{
    broadcast use vstd::multiset::group_multiset_axioms;

    let t = s.push(x);
    t.index_of_first_ensures(x);
    assert(t[s.len() as int] == x);
    let i = t.index_of_first(x)->0;
    vstd::seq_lib::to_multiset_remove(t, i);
    vstd::seq_lib::to_multiset_build(s, x);
    assert(t.remove(i).to_multiset() =~= s.to_multiset());
    if !s.contains(x) {
        assert(i == s.len()) by {
            if i < s.len() {
                assert(s[i] == x);
            }
        }
        assert(t.remove(i) =~= s);
    }
}

/// Running an action and seeing it finish leaves the set of executing actions as it
/// was; an action that was not executing before is not executing afterwards.
pub proof fn lemma_trigger_then_finish(executing: Seq<ActionId>, action_id: ActionId)
    ensures
        ids(executing.push(action_id)).remove_value(action_id@).to_multiset() == ids(
            executing,
        ).to_multiset(),
        !ids(executing).contains(action_id@) ==> ids(executing.push(action_id)).remove_value(
            action_id@,
        ) == ids(executing),
{
    assert(ids(executing.push(action_id)) =~= ids(executing).push(action_id@));
    lemma_push_then_remove(ids(executing), action_id@);
}

/// Requesting an action and cancelling the request leaves the requested actions as they
/// were; an action that was not requested before is not requested afterwards.
pub proof fn lemma_request_then_cancel(requested: Seq<ActionId>, action_id: ActionId)
    ensures
        ids(requested.push(action_id)).remove_value(action_id@).to_multiset() == ids(
            requested,
        ).to_multiset(),
        !ids(requested).contains(action_id@) ==> ids(requested.push(action_id)).remove_value(
            action_id@,
        ) == ids(requested),
{
    assert(ids(requested.push(action_id)) =~= ids(requested).push(action_id@));
    lemma_push_then_remove(ids(requested), action_id@);
}

/// Once triggered, an action counts as executing.
pub proof fn lemma_triggered_is_executing(executing: Seq<ActionId>, action_id: ActionId)
    ensures
        ids(executing.push(action_id)).contains(action_id@),
{
    assert(ids(executing.push(action_id))[executing.len() as int] == action_id@);
}

} // verus!
