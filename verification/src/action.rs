//! Custom actions a CRUD instance offers, and what happens after one finished.

use vstd::prelude::*;
use crate::text::str_eq;
use crate::toast::Toast;

verus! {

/// The views in which an entity action can be offered.
#[derive(Debug, Clone, Copy, PartialEq, Eq, Structural)]
pub enum States {
    Create,
    Update,
    Read,
}

/// Something that can be called with an argument, such as a stored callback.
pub trait Callable<T>: Clone + Copy {
    fn call_with(&self, arg: T);
}

/// What should happen after an action finished: a notification to show, and whether the
/// instance's data must be reloaded.
#[derive(Debug, Clone)]
pub struct CrudActionAftermath {
    pub show_toast: Option<Toast>,
    pub reload_data: bool,
}

/// Whether an entity action declared valid in `valid_in` is offered in view `state`.
pub fn is_valid_in(valid_in: &Vec<States>, state: States) -> (r: bool)
    ensures
        r == valid_in@.contains(state),
{
    let mut i: usize = 0;
    while i < valid_in.len()
        invariant
            i <= valid_in@.len(),
            forall|j: int| 0 <= j < i ==> valid_in@[j] != state,
        decreases valid_in@.len() - i,
    {
        if valid_in[i] == state {
            assert(valid_in@[i as int] == state);
            return true;
        }
        i = i + 1;
    }
    false
}

/// An icon, by number.
pub type IconId = u64;

/// The color of a button.
#[derive(Debug, Clone, Copy, PartialEq, Eq, Structural)]
pub enum ButtonColor {
    Primary,
    Secondary,
    Success,
    Info,
    Warn,
    Danger,
}

/// Whether two lists of views hold the same views in the same order.
fn states_eq(a: &Vec<States>, b: &Vec<States>) -> (r: bool)
    ensures
        r == (a@ == b@),
{
    if a.len() != b.len() {
        return false;
    }
    let mut i: usize = 0;
    while i < a.len()
        invariant
            a@.len() == b@.len(),
            i <= a@.len(),
            forall|j: int| 0 <= j < i ==> a@[j] == b@[j],
        decreases a@.len() - i,
    {
        if a[i] != b[i] {
            return false;
        }
        i = i + 1;
    }
    assert(a@ =~= b@);
    true
}

/// A custom action the list view offers, as far as it is shown and compared. The
/// callback that runs it and the dialog it may open stay with the caller, keyed by `id`.
pub struct CrudAction {
    pub id: &'static str,
    pub name: String,
    pub icon: Option<IconId>,
    pub button_color: ButtonColor,
}

impl PartialEq for CrudAction {
    /// Two actions are equal when their ids, names, icons and colors are.
    fn eq(&self, other: &Self) -> (r: bool) {
        str_eq(self.id, other.id) && str_eq(self.name.as_str(), other.name.as_str())
            && self.icon == other.icon && self.button_color == other.button_color
    }
}

impl vstd::std_specs::cmp::PartialEqSpecImpl for CrudAction {
    open spec fn obeys_eq_spec() -> bool {
        true
    }

    open spec fn eq_spec(&self, other: &Self) -> bool {
        &&& self.id@ == other.id@
        &&& self.name@ == other.name@
        &&& self.icon == other.icon
        &&& self.button_color == other.button_color
    }
}

/// A custom action offered for one entity in the views named by `valid_in`, as far as
/// it is shown and compared. The callback that runs it and the dialog it may open stay
/// with the caller, keyed by `id`.
pub struct CrudEntityAction {
    pub id: &'static str,
    pub name: String,
    pub icon: Option<IconId>,
    pub button_color: ButtonColor,
    pub valid_in: Vec<States>,
}

impl PartialEq for CrudEntityAction {
    /// Two entity actions are equal when their ids, names, icons, colors and the views
    /// they are valid in are.
    fn eq(&self, other: &Self) -> (r: bool) {
        str_eq(self.id, other.id) && str_eq(self.name.as_str(), other.name.as_str())
            && self.icon == other.icon && self.button_color == other.button_color && states_eq(
            &self.valid_in,
            &other.valid_in,
        )
    }
}

impl vstd::std_specs::cmp::PartialEqSpecImpl for CrudEntityAction {
    open spec fn obeys_eq_spec() -> bool {
        true
    }

    open spec fn eq_spec(&self, other: &Self) -> bool {
        &&& self.id@ == other.id@
        &&& self.name@ == other.name@
        &&& self.icon == other.icon
        &&& self.button_color == other.button_color
        &&& self.valid_in@ == other.valid_in@
    }
}

/// The ids of the entity actions of `s` that are offered in view `state`, in order.
pub open spec fn offered_in(s: Seq<CrudEntityAction>, state: States) -> Seq<&'static str>
    decreases s.len(),
{
    if s.len() == 0 {
        Seq::empty()
    } else {
        let rest = offered_in(s.drop_last(), state);
        if s.last().valid_in@.contains(state) {
            rest.push(s.last().id)
        } else {
            rest
        }
    }
}

/// The ids of the entity actions for which the view in state `state` shows a button, in
/// the order the actions are declared.
pub fn offered_actions(actions: &Vec<CrudEntityAction>, state: States) -> (r: Vec<&'static str>)
    ensures
        r@ == offered_in(actions@, state),
{
    let mut r: Vec<&'static str> = Vec::new();
    let mut i: usize = 0;
    while i < actions.len()
        invariant
            i <= actions@.len(),
            r@ == offered_in(actions@.subrange(0, i as int), state),
        decreases actions@.len() - i,
    {
        let action = &actions[i];
        if is_valid_in(&action.valid_in, state) {
            r.push(action.id);
        }
        proof {
            let sub = actions@.subrange(0, i + 1);
            assert(sub.drop_last() =~= actions@.subrange(0, i as int));
            assert(sub.last() == actions@[i as int]);
        }
        i = i + 1;
    }
    assert(actions@.subrange(0, actions@.len() as int) =~= actions@);
    r
}

} // verus!
