//! The list of notifications on screen: kept in step with the shared store of
//! notifications, each closing by itself after its delay.

use vstd::prelude::*;
use std::collections::BTreeMap;
use crate::text::str_eq;
use crate::toast::{close_delay, delay_of, Toast};
use vstd::std_specs::iter::IteratorSpec;
use vstd::std_specs::cmp::OrdSpec;

verus! {

broadcast use {vstd::std_specs::btree::group_btree_axioms, vstd::laws_cmp::lemma_ref_obeys_cmp_spec};

/// A notification in the shared store: with its id and the time it was created, in
/// nanoseconds since the Unix epoch. Notifications on screen are ordered, and known,
/// by that time.
#[derive(Debug, Clone)]
pub struct ShownToast {
    pub id: u128,
    pub created_at: i128,
    pub toast: Toast,
    /// Whether a callback is to be called when the notification closes.
    pub has_close_callback: bool,
}

/// Whether two notifications are the same in every part.
pub open spec fn same_toast(a: ShownToast, b: ShownToast) -> bool {
    &&& a.id == b.id
    &&& a.created_at == b.created_at
    &&& a.toast.variant == b.toast.variant
    &&& a.toast.heading@ == b.toast.heading@
    &&& a.toast.message@ == b.toast.message@
    &&& a.toast.dismissible == b.toast.dismissible
    &&& a.toast.automatically_closing == b.toast.automatically_closing
    &&& a.has_close_callback == b.has_close_callback
}

/// Compares two notifications in every part.
pub fn toast_eq(a: &ShownToast, b: &ShownToast) -> (r: bool)
    ensures
        r == same_toast(*a, *b),
{
    a.id == b.id && a.created_at == b.created_at && a.toast.variant == b.toast.variant
        && str_eq(a.toast.heading.as_str(), b.toast.heading.as_str()) && str_eq(
        a.toast.message.as_str(),
        b.toast.message.as_str(),
    ) && a.toast.dismissible == b.toast.dismissible && a.toast.automatically_closing
        == b.toast.automatically_closing && a.has_close_callback == b.has_close_callback
}

/// Whether the shared store holds a notification that is the same as `t`.
pub fn in_state(state: &Vec<ShownToast>, t: &ShownToast) -> (r: bool)
    ensures
        r == in_store(state@, *t),
{
    let mut i: usize = 0;
    while i < state.len()
        invariant
            i <= state@.len(),
            forall|j: int| 0 <= j < i ==> !same_toast(#[trigger] state@[j], *t),
        decreases state@.len() - i,
    {
        if toast_eq(&state[i], t) {
            return true;
        }
        i = i + 1;
    }
    false
}

/// What the notification list is told.
pub enum Msg {
    /// The shared store of notifications changed; it now holds these.
    ToastsUpdated(Vec<ShownToast>),
    /// The timer of a notification fired.
    ToastTimedOut(ShownToast),
}

/// Where on screen the list stands, across.
#[derive(Debug, Clone, Copy, PartialEq, Eq, Structural)]
pub enum HorizontalPosition {
    Left,
    Right,
}

/// Where on screen the list stands, up and down.
#[derive(Debug, Clone, Copy, PartialEq, Eq, Structural)]
pub enum VerticalPosition {
    Top,
    Bottom,
}

/// Where the list is shown.
#[derive(Debug, Clone, Copy, PartialEq, Eq, Structural)]
pub struct Props {
    pub horizontal_position: HorizontalPosition,
    pub vertical_position: VerticalPosition,
}

/// A notification on screen, with the delay of the timer that closes it, if it closes
/// by itself.
pub struct ToastWithTimeout {
    pub toast: ShownToast,
    pub timeout: Option<u32>,
}

/// The notifications on screen, by creation time.
pub struct CrudToasts {
    /// The delay after which a notification closes that closes after the default delay.
    pub automatic_close_delay: u32,
    pub toasts: BTreeMap<i128, ToastWithTimeout>,
}

/// What the notification list asks of its surroundings after a change.
pub struct ToastsEffects {
    pub rerender: bool,
    /// Timers to start: the creation time of a notification and the delay after which
    /// it times out.
    pub start_timers: Vec<(i128, u32)>,
    /// The notifications that left the screen, by creation time; their timers end with them.
    pub dropped: Vec<i128>,
    /// The notifications whose close callback is to be called, by creation time.
    pub close_callbacks: Vec<i128>,
    /// The id of a notification to remove from the shared store.
    pub remove_from_store: Option<u128>,
    /// Whether to empty the shared store.
    pub remove_all_from_store: bool,
}

impl ToastsEffects {
    /// Effects that ask for nothing.
    pub open spec fn is_quiet(&self) -> bool {
        &&& self.start_timers@.len() == 0
        &&& self.dropped@.len() == 0
        &&& self.close_callbacks@.len() == 0
        &&& self.remove_from_store is None
        &&& !self.remove_all_from_store
    }
}

/// Whether the notification on screen under a key has a close callback.
pub open spec fn has_close_callback(m: Map<i128, ToastWithTimeout>) -> spec_fn(i128) -> bool {
    |k: i128| m[k].toast.has_close_callback
}

/// Whether the shared store holds a notification that is the same as `t`.
pub open spec fn in_store(state: Seq<ShownToast>, t: ShownToast) -> bool {
    exists|j: int| 0 <= j < state.len() && same_toast(#[trigger] state[j], t)
}

/// Whether the notification on screen under a key is no longer in the shared store.
pub open spec fn is_stale(state: Seq<ShownToast>, m: Map<i128, ToastWithTimeout>) -> spec_fn(
    i128,
) -> bool {
    |k: i128| !in_store(state, m[k].toast)
}

/// The notifications on screen that are still in the shared store.
pub open spec fn still_in_store(m: Map<i128, ToastWithTimeout>, state: Seq<ShownToast>) -> Map<
    i128,
    ToastWithTimeout,
> {
    Map::new(|k: i128| m.contains_key(k) && in_store(state, m[k].toast), |k: i128| m[k])
}

/// The notifications on screen once those of the shared store `s` that are not on
/// screen yet, by creation time, have come on screen, in the order of the store. Of
/// two with the same creation time, the first one comes.
pub open spec fn with_new_toasts(m: Map<i128, ToastWithTimeout>, s: Seq<ShownToast>, d: u32) -> Map<
    i128,
    ToastWithTimeout,
>
    decreases s.len(),
{
    if s.len() == 0 {
        m
    } else {
        let m0 = with_new_toasts(m, s.drop_last(), d);
        let t = s.last();
        if m0.contains_key(t.created_at) {
            m0
        } else {
            m0.insert(t.created_at, entry_for(t, d))
        }
    }
}

/// The timers started while the notifications of `s` come on screen: one for each new
/// notification that closes by itself, in the order of the store.
pub open spec fn new_timers(m: Map<i128, ToastWithTimeout>, s: Seq<ShownToast>, d: u32) -> Seq<
    (i128, u32),
>
    decreases s.len(),
{
    if s.len() == 0 {
        Seq::empty()
    } else {
        let m0 = with_new_toasts(m, s.drop_last(), d);
        let r0 = new_timers(m, s.drop_last(), d);
        let t = s.last();
        if m0.contains_key(t.created_at) {
            r0
        } else {
            match entry_for(t, d).timeout {
                Some(delay) => r0.push((t.created_at, delay)),
                None => r0,
            }
        }
    }
}

/// Whether `a` comes before `b` in the order of their type.
pub open spec fn comes_before<K: Ord>(a: K, b: K) -> bool {
    a.cmp_spec(&b) is Less
}

/// Whether `s` is in strictly increasing order.
pub open spec fn increasing(s: Seq<i128>) -> bool {
    forall|i: int, j: int| 0 <= i < j < s.len() ==> s[i] < s[j]
}

/// The entry a notification gets when it comes on screen.
pub open spec fn entry_for(t: ShownToast, default_delay: u32) -> ToastWithTimeout {
    ToastWithTimeout {
        toast: t,
        timeout: delay_of(t.toast.automatically_closing, default_delay),
    }
}

impl CrudToasts {
    /// Whether every notification on screen is kept under its creation time.
    pub open spec fn wf(&self) -> bool {
        keyed_by_creation(self.toasts@)
    }

    /// An empty list.
    pub fn new(automatic_close_delay: u32) -> (r: Self)
        ensures
            r.wf(),
            r.automatic_close_delay == automatic_close_delay,
            r.toasts@ == Map::<i128, ToastWithTimeout>::empty(),
    {
        CrudToasts { automatic_close_delay, toasts: BTreeMap::new() }
    }

    /// The creation times of the notifications on screen, in increasing order.
    fn keys_in_order(&self) -> (r: Vec<i128>)
        ensures
            r@.to_set() == self.toasts@.dom(),
            r@.no_duplicates(),
            increasing(r@),
    {
        let ghost ks: Seq<i128> = self.toasts.keys().remaining().unref();
        let mut r: Vec<i128> = Vec::new();
        for k in it: self.toasts.keys()
            invariant
                it.seq().unref() == ks,
                r@ == ks.subrange(0, it.index()),
        {
            r.push(*k);
        }
        proof {
            assert(r@ =~= ks);
            let rem = self.toasts.keys().remaining();
            assert(ks.len() == rem.len());
            assert forall|i: int, j: int| 0 <= i < j < ks.len() implies ks[i] < ks[j] by {
                assert(*rem[i] == ks[i] && *rem[j] == ks[j]);
                assert(comes_before::<&i128>(rem[i], rem[j]));
            }
        }
        r
    }

    /// Takes the notifications that are no longer in the shared store off the screen,
    /// without calling their close callbacks; gives their creation times in increasing
    /// order.
    fn drop_stale(&mut self, state: &Vec<ShownToast>) -> (dropped: Vec<i128>)
        ensures
            final(self).automatic_close_delay == old(self).automatic_close_delay,
            final(self).toasts@ == still_in_store(old(self).toasts@, state@),
            increasing(dropped@),
            forall|k: i128| #[trigger]
                dropped@.contains(k) == (old(self).toasts@.contains_key(k) && is_stale(
                    state@,
                    old(self).toasts@,
                )(k)),
    {
        let ghost m = self.toasts@;
        let keys = self.keys_in_order();
        let mut dropped: Vec<i128> = Vec::new();
        let mut i: usize = 0;
        while i < keys.len()
            invariant
                i <= keys@.len(),
                keys@.to_set() == m.dom(),
                keys@.no_duplicates(),
                increasing(keys@),
                self.automatic_close_delay == old(self).automatic_close_delay,
                forall|x: i128| #[trigger]
                    dropped@.contains(x) == (keys@.subrange(0, i as int).contains(x) && is_stale(
                        state@,
                        m,
                    )(x)),
                forall|a: int| 0 <= a < dropped@.len() ==> keys@.subrange(0, i as int).contains(
                    #[trigger] dropped@[a],
                ),
                increasing(dropped@),
                forall|k: i128| #[trigger]
                    self.toasts@.contains_key(k) == (m.contains_key(k) && !dropped@.contains(k)),
                forall|k: i128| #[trigger] self.toasts@.contains_key(k) ==> self.toasts@[k] == m[k],
            decreases keys@.len() - i,
        {
            let k = keys[i];
            let ghost before = dropped@;
            let ghost t_before = self.toasts@;
            proof {
                assert(keys@.to_set().contains(k));
                assert(keys@[i as int] == k);
                if before.contains(k) {
                    assert(keys@.subrange(0, i as int).contains(k));
                    let j = choose|j: int| 0 <= j < i && keys@.subrange(0, i as int)[j] == k;
                    assert(keys@[j] == k);
                }
            }
            let stale = match self.toasts.get(&k) {
                Some(t) => !in_state(state, &t.toast),
                None => false,
            };
            if stale {
                self.toasts.remove(&k);
                dropped.push(k);
            }
            proof {
                assert(stale ==> dropped@ == before.push(k));
                assert(!stale ==> dropped@ == before);
                assert forall|y: i128| #[trigger]
                    dropped@.contains(y) == (before.contains(y) || (stale && y == k)) by {
                    if before.contains(y) {
                        let j = choose|j: int| 0 <= j < before.len() && before[j] == y;
                        assert(dropped@[j] == y);
                    }
                    if stale && y == k {
                        assert(dropped@[before.len() as int] == y);
                    }
                    if dropped@.contains(y) {
                        let j = choose|j: int| 0 <= j < dropped@.len() && dropped@[j] == y;
                        if j < before.len() {
                            assert(before[j] == y);
                        }
                    }
                }
                let sub = keys@.subrange(0, i + 1);
                assert(sub =~= keys@.subrange(0, i as int).push(k));
                assert(stale == is_stale(state@, m)(k));
                assert forall|a: int| 0 <= a < dropped@.len() implies sub.contains(
                    #[trigger] dropped@[a],
                ) by {
                    if a < before.len() {
                        assert(keys@.subrange(0, i as int).contains(before[a]));
                        let j = choose|j: int|
                            0 <= j < i && keys@.subrange(0, i as int)[j] == before[a];
                        assert(sub[j] == before[a]);
                    } else {
                        assert(sub[i as int] == k);
                    }
                }
                assert forall|x: i128| #[trigger]
                    dropped@.contains(x) == (sub.contains(x) && is_stale(state@, m)(x)) by {
                    if dropped@.contains(x) {
                        let a = choose|a: int| 0 <= a < dropped@.len() && dropped@[a] == x;
                        if a < before.len() {
                            assert(before[a] == x);
                            assert(before.contains(x));
                            assert(keys@.subrange(0, i as int).contains(x));
                            let j = choose|j: int|
                                0 <= j < i && keys@.subrange(0, i as int)[j] == x;
                            assert(sub[j] == x);
                        } else {
                            assert(x == k && stale);
                            assert(sub[i as int] == x);
                        }
                    }
                    if sub.contains(x) && is_stale(state@, m)(x) {
                        let j = choose|j: int| 0 <= j < sub.len() && sub[j] == x;
                        if j < i {
                            assert(keys@.subrange(0, i as int)[j] == x);
                            assert(before.contains(x));
                            let a = choose|a: int| 0 <= a < before.len() && before[a] == x;
                            assert(dropped@[a] == x);
                        } else {
                            assert(dropped@[dropped@.len() - 1] == x);
                        }
                    }
                }
                assert forall|a: int, b: int| 0 <= a < b < dropped@.len() implies dropped@[a]
                    < dropped@[b] by {
                    if b == before.len() && stale {
                        assert(keys@.subrange(0, i as int).contains(before[a]));
                        let j = choose|j: int|
                            0 <= j < i && keys@.subrange(0, i as int)[j] == before[a];
                        assert(keys@[j] == before[a]);
                    }
                }
            }
            i = i + 1;
        }
        proof {
            assert(keys@.subrange(0, keys@.len() as int) =~= keys@);
            assert forall|k: i128| #[trigger] dropped@.contains(k) == (m.contains_key(k) && is_stale(
                state@,
                m,
            )(k)) by {
                if m.contains_key(k) {
                    assert(keys@.to_set().contains(k));
                }
            }
            assert(self.toasts@ =~= still_in_store(m, state@));
        }
        dropped
    }

    /// Brings the notifications of the shared store that are not on screen yet onto it,
    /// in the order of the store; gives the timers to start for those that close by
    /// themselves.
    fn add_new(&mut self, state: Vec<ShownToast>) -> (timers: Vec<(i128, u32)>)
        ensures
            final(self).automatic_close_delay == old(self).automatic_close_delay,
            final(self).toasts@ == with_new_toasts(
                old(self).toasts@,
                state@,
                old(self).automatic_close_delay,
            ),
            timers@ == new_timers(old(self).toasts@, state@, old(self).automatic_close_delay),
    {
        let ghost m = self.toasts@;
        let ghost st = state@;
        let d = self.automatic_close_delay;
        let mut timers: Vec<(i128, u32)> = Vec::new();
        for t in it: state.into_iter()
            invariant
                it.seq() == st,
                self.automatic_close_delay == d,
                self.toasts@ == with_new_toasts(m, st.subrange(0, it.index()), d),
                timers@ == new_timers(m, st.subrange(0, it.index()), d),
        {
            proof {
                let sub = st.subrange(0, it.index() + 1);
                assert(sub.drop_last() =~= st.subrange(0, it.index()));
                assert(sub.last() == t);
            }
            let key = t.created_at;
            if !self.toasts.contains_key(&key) {
                let timeout = close_delay(t.toast.automatically_closing, d);
                match timeout {
                    Some(delay) => timers.push((key, delay)),
                    None => {},
                }
                self.toasts.insert(key, ToastWithTimeout { toast: t, timeout });
            }
        }
        proof {
            assert(st.subrange(0, st.len() as int) =~= st);
        }
        timers
    }

    /// The shared store changed to `state`: the notifications no longer in it leave the
    /// screen, without their close callbacks being called; then those of the store not
    /// on screen yet come on it, in the order of the store, each that closes by itself
    /// with a timer.
    pub fn toasts_updated(&mut self, state: Vec<ShownToast>) -> (e: ToastsEffects)
        requires
            old(self).wf(),
        ensures
            final(self).wf(),
            final(self).automatic_close_delay == old(self).automatic_close_delay,
            final(self).toasts@ == with_new_toasts(
                still_in_store(old(self).toasts@, state@),
                state@,
                old(self).automatic_close_delay,
            ),
            e.rerender,
            e.start_timers@ == new_timers(
                still_in_store(old(self).toasts@, state@),
                state@,
                old(self).automatic_close_delay,
            ),
            increasing(e.dropped@),
            forall|k: i128| #[trigger]
                e.dropped@.contains(k) == (old(self).toasts@.contains_key(k) && is_stale(
                    state@,
                    old(self).toasts@,
                )(k)),
            e.close_callbacks@.len() == 0,
            e.remove_from_store is None,
            !e.remove_all_from_store,
    {
        let ghost st = state@;
        let dropped = self.drop_stale(&state);
        proof {
            lemma_with_new_toasts(self.toasts@, st, self.automatic_close_delay);
        }
        let start_timers = self.add_new(state);
        ToastsEffects {
            rerender: true,
            start_timers,
            dropped,
            close_callbacks: Vec::new(),
            remove_from_store: None,
            remove_all_from_store: false,
        }
    }

    /// A notification's timer fired. If the notification is still on screen, its close
    /// callback is called, it leaves the screen and the shared store.
    pub fn toast_timed_out(&mut self, toast: ShownToast) -> (e: ToastsEffects)
        requires
            old(self).wf(),
        ensures
            final(self).wf(),
            final(self).automatic_close_delay == old(self).automatic_close_delay,
            e.rerender,
            e.start_timers@.len() == 0,
            e.dropped@.len() == 0,
            !e.remove_all_from_store,
            if old(self).toasts@.contains_key(toast.created_at) {
                &&& final(self).toasts@ == old(self).toasts@.remove(toast.created_at)
                &&& e.close_callbacks@ == if toast.has_close_callback {
                    seq![toast.created_at]
                } else {
                    Seq::<i128>::empty()
                }
                &&& e.remove_from_store == Some(toast.id)
            } else {
                &&& final(self).toasts@ == old(self).toasts@
                &&& e.close_callbacks@.len() == 0
                &&& e.remove_from_store is None
            },
    {
        let mut close_callbacks: Vec<i128> = Vec::new();
        let mut remove_from_store: Option<u128> = None;
        if self.toasts.contains_key(&toast.created_at) {
            if toast.has_close_callback {
                close_callbacks.push(toast.created_at);
            }
            self.toasts.remove(&toast.created_at);
            remove_from_store = Some(toast.id);
        }
        ToastsEffects {
            rerender: true,
            start_timers: Vec::new(),
            dropped: Vec::new(),
            close_callbacks,
            remove_from_store,
            remove_all_from_store: false,
        }
    }

    /// Handles a message: a change of the shared store (see `toasts_updated`) or a
    /// timer that fired (see `toast_timed_out`).
    pub fn update(&mut self, msg: Msg) -> (e: ToastsEffects)
        requires
            old(self).wf(),
        ensures
            final(self).wf(),
            final(self).automatic_close_delay == old(self).automatic_close_delay,
            e.rerender,
            match msg {
                Msg::ToastsUpdated(state) => {
                    &&& final(self).toasts@ == with_new_toasts(
                        still_in_store(old(self).toasts@, state@),
                        state@,
                        old(self).automatic_close_delay,
                    )
                    &&& e.start_timers@ == new_timers(
                        still_in_store(old(self).toasts@, state@),
                        state@,
                        old(self).automatic_close_delay,
                    )
                    &&& increasing(e.dropped@)
                    &&& forall|k: i128| #[trigger]
                        e.dropped@.contains(k) == (old(self).toasts@.contains_key(k) && is_stale(
                            state@,
                            old(self).toasts@,
                        )(k))
                    &&& e.close_callbacks@.len() == 0
                    &&& e.remove_from_store is None
                },
                Msg::ToastTimedOut(toast) => {
                    &&& e.start_timers@.len() == 0
                    &&& e.dropped@.len() == 0
                    &&& if old(self).toasts@.contains_key(toast.created_at) {
                        &&& final(self).toasts@ == old(self).toasts@.remove(toast.created_at)
                        &&& e.close_callbacks@ == if toast.has_close_callback {
                            seq![toast.created_at]
                        } else {
                            Seq::<i128>::empty()
                        }
                        &&& e.remove_from_store == Some(toast.id)
                    } else {
                        &&& final(self).toasts@ == old(self).toasts@
                        &&& e.close_callbacks@.len() == 0
                        &&& e.remove_from_store is None
                    }
                },
            },
            !e.remove_all_from_store,
    {
        match msg {
            Msg::ToastsUpdated(state) => self.toasts_updated(state),
            Msg::ToastTimedOut(toast) => self.toast_timed_out(toast),
        }
    }

    /// The list goes away: in creation order, every notification leaves the screen, its
    /// timer ends and its close callback, if it has one, is called; then the shared store
    /// is emptied.
    pub fn destroy(&mut self) -> (e: ToastsEffects)
        ensures
            final(self).wf(),
            final(self).automatic_close_delay == old(self).automatic_close_delay,
            final(self).toasts@ == Map::<i128, ToastWithTimeout>::empty(),
            !e.rerender,
            e.start_timers@.len() == 0,
            e.dropped@.to_set() == old(self).toasts@.dom(),
            e.dropped@.no_duplicates(),
            increasing(e.dropped@),
            e.close_callbacks@ == e.dropped@.filter(has_close_callback(old(self).toasts@)),
            e.remove_from_store is None,
            e.remove_all_from_store,
    {
        let ghost m = self.toasts@;
        let keys = self.keys_in_order();
        let mut dropped: Vec<i128> = Vec::new();
        let mut close_callbacks: Vec<i128> = Vec::new();
        let mut i: usize = 0;
        proof {
            reveal(Seq::filter);
            assert(dropped@.filter(has_close_callback(m)) =~= Seq::<i128>::empty());
        }
        while i < keys.len()
            invariant
                i <= keys@.len(),
                keys@.to_set() == m.dom(),
                keys@.no_duplicates(),
                self.automatic_close_delay == old(self).automatic_close_delay,
                dropped@ == keys@.subrange(0, i as int),
                close_callbacks@ == dropped@.filter(has_close_callback(m)),
                forall|k: i128| #[trigger]
                    self.toasts@.contains_key(k) == (m.contains_key(k) && !dropped@.contains(k)),
                forall|k: i128| #[trigger] self.toasts@.contains_key(k) ==> self.toasts@[k] == m[k],
            decreases keys@.len() - i,
        {
            let k = keys[i];
            let ghost before = dropped@;
            let ghost t_before = self.toasts@;
            proof {
                assert(keys@.to_set().contains(k));
                assert(!dropped@.contains(k));
            }
            match self.toasts.remove(&k) {
                Some(t) => {
                    proof {
                        assert(t == m[k]);
                    }
                    if t.toast.has_close_callback {
                        close_callbacks.push(k);
                    }
                },
                None => {
                    proof {
                        assert(t_before.contains_key(k));
                    }
                },
            }
            dropped.push(k);
            proof {
                assert(keys@.subrange(0, i + 1) =~= dropped@);
                assert(dropped@.drop_last() =~= before);
                assert(has_close_callback(m)(k) == m[k].toast.has_close_callback);
                assert(dropped@.last() == k);
                reveal(Seq::filter);
                assert(dropped@.filter(has_close_callback(m)) == if has_close_callback(m)(k) {
                    before.filter(has_close_callback(m)).push(k)
                } else {
                    before.filter(has_close_callback(m))
                });
                assert forall|x: i128| #[trigger] dropped@.contains(x) == (before.contains(x) || x == k) by {
                    if before.contains(x) {
                        let j = choose|j: int| 0 <= j < before.len() && before[j] == x;
                        assert(dropped@[j] == x);
                    }
                    if x == k {
                        assert(dropped@[before.len() as int] == x);
                    }
                    if dropped@.contains(x) {
                        let j = choose|j: int| 0 <= j < dropped@.len() && dropped@[j] == x;
                        if j < before.len() {
                            assert(before[j] == x);
                        }
                    }
                }
            }
            i = i + 1;
        }
        proof {
            assert(dropped@ =~= keys@);
            assert forall|k: i128| !#[trigger] self.toasts@.contains_key(k) by {
                if m.contains_key(k) {
                    assert(keys@.to_set().contains(k));
                }
            }
            assert(self.toasts@ =~= Map::<i128, ToastWithTimeout>::empty());
        }
        ToastsEffects {
            rerender: false,
            start_timers: Vec::new(),
            dropped,
            close_callbacks,
            remove_from_store: None,
            remove_all_from_store: true,
        }
    }
}

/// Whether every notification on screen is kept under its creation time.
pub open spec fn keyed_by_creation(m: Map<i128, ToastWithTimeout>) -> bool {
    forall|k: i128| #[trigger] m.contains_key(k) ==> m[k].toast.created_at == k
}

/// The creation times of the notifications of `s`.
pub open spec fn created_times(s: Seq<ShownToast>) -> Set<i128> {
    Set::new(|k: i128| exists|j: int| 0 <= j < s.len() && (#[trigger] s[j]).created_at == k)
}

/// Bringing new notifications on screen adds their creation times, and every entry is
/// an old one or a notification of the store.
proof fn lemma_with_new_toasts(m: Map<i128, ToastWithTimeout>, s: Seq<ShownToast>, d: u32)
    ensures
        keyed_by_creation(m) ==> keyed_by_creation(with_new_toasts(m, s, d)),
        with_new_toasts(m, s, d).dom() == m.dom() + created_times(s),
        forall|k: i128| #[trigger]
            with_new_toasts(m, s, d).contains_key(k) ==> (m.contains_key(k) && with_new_toasts(
                m,
                s,
                d,
            )[k] == m[k]) || in_store(s, with_new_toasts(m, s, d)[k].toast),
    decreases s.len(),
{
    if s.len() > 0 {
        let s0 = s.drop_last();
        lemma_with_new_toasts(m, s0, d);
        let t = s.last();
        assert forall|j: int| 0 <= j < s0.len() implies #[trigger] s0[j] == s[j] by {}
        assert(created_times(s) =~= created_times(s0).insert(t.created_at)) by {
            assert(s[s.len() - 1] == t);
            assert forall|k: i128| #[trigger] created_times(s).contains(k) implies created_times(
                s0,
            ).insert(t.created_at).contains(k) by {
                let j = choose|j: int| 0 <= j < s.len() && (#[trigger] s[j]).created_at == k;
                if j < s0.len() {
                    assert(s0[j] == s[j]);
                }
            }
            assert forall|k: i128| #[trigger] created_times(s0).contains(k) implies created_times(
                s,
            ).contains(k) by {
                let j = choose|j: int| 0 <= j < s0.len() && (#[trigger] s0[j]).created_at == k;
                assert(s[j] == s0[j]);
            }
        }
        let r = with_new_toasts(m, s, d);
        assert forall|k: i128| #[trigger] r.contains_key(k) implies (m.contains_key(k) && r[k]
            == m[k]) || in_store(s, r[k].toast) by {
            let r0 = with_new_toasts(m, s0, d);
            if r0.contains_key(k) && r[k] == r0[k] {
                if !(m.contains_key(k) && r0[k] == m[k]) {
                    assert(in_store(s0, r0[k].toast));
                    let j = choose|j: int| 0 <= j < s0.len() && same_toast(#[trigger] s0[j], r0[k].toast);
                    assert(same_toast(s[j], r[k].toast));
                }
            } else {
                assert(r[k].toast == t);
                assert(same_toast(s[s.len() - 1], r[k].toast));
            }
        }
    } else {
        assert(created_times(s) =~= Set::<i128>::empty());
    }
}

/// With every notification of `s` already on screen, bringing them on changes nothing
/// and starts no timer.
proof fn lemma_with_new_toasts_present(m: Map<i128, ToastWithTimeout>, s: Seq<ShownToast>, d: u32)
    requires
        forall|j: int| 0 <= j < s.len() ==> m.contains_key(#[trigger] s[j].created_at),
    ensures
        with_new_toasts(m, s, d) == m,
        new_timers(m, s, d) == Seq::<(i128, u32)>::empty(),
    decreases s.len(),
{
    if s.len() > 0 {
        let s0 = s.drop_last();
        assert forall|j: int| 0 <= j < s0.len() implies m.contains_key(#[trigger] s0[j].created_at) by {
            assert(s0[j] == s[j]);
        }
        lemma_with_new_toasts_present(m, s0, d);
        assert(m.contains_key(s[s.len() - 1].created_at));
    }
}

/// After the screen followed the shared store, it shows exactly the notifications of
/// the store: one for each creation time the store holds, each the same as one in the
/// store.
pub proof fn lemma_screen_follows_store(m: Map<i128, ToastWithTimeout>, state: Seq<ShownToast>, d: u32)
    requires
        keyed_by_creation(m),
    ensures
        with_new_toasts(still_in_store(m, state), state, d).dom() == created_times(state),
        forall|k: i128| #[trigger]
            with_new_toasts(still_in_store(m, state), state, d).contains_key(k) ==> in_store(
                state,
                with_new_toasts(still_in_store(m, state), state, d)[k].toast,
            ),
{
    let kept = still_in_store(m, state);
    lemma_with_new_toasts(kept, state, d);
    assert forall|k: i128| kept.contains_key(k) implies #[trigger] created_times(state).contains(k) by {
        let j = choose|j: int| 0 <= j < state.len() && same_toast(#[trigger] state[j], m[k].toast);
        assert(state[j].created_at == m[k].toast.created_at);
    }
    assert(with_new_toasts(kept, state, d).dom() =~= created_times(state));
}

/// Following the same state of the shared store a second time changes nothing: no
/// notification leaves the screen, none comes on it, no timer starts.
pub proof fn lemma_same_store_twice(m: Map<i128, ToastWithTimeout>, state: Seq<ShownToast>, d: u32)
    requires
        keyed_by_creation(m),
    ensures
        ({
            let once = with_new_toasts(still_in_store(m, state), state, d);
            &&& forall|k: i128| #[trigger] once.contains_key(k) ==> !is_stale(state, once)(k)
            &&& with_new_toasts(still_in_store(once, state), state, d) == once
            &&& new_timers(still_in_store(once, state), state, d) == Seq::<(i128, u32)>::empty()
        }),
{
    let once = with_new_toasts(still_in_store(m, state), state, d);
    lemma_screen_follows_store(m, state, d);
    assert(still_in_store(once, state) =~= once);
    assert forall|j: int| 0 <= j < state.len() implies once.contains_key(
        #[trigger] state[j].created_at,
    ) by {
        assert(created_times(state).contains(state[j].created_at));
    }
    lemma_with_new_toasts_present(once, state, d);
}

/// A notification new to the screen gets a timer of its own delay when it asks for one,
/// of the default delay when it asks for that, and none when it does not close by itself.
pub proof fn lemma_new_toast_timer(m: Map<i128, ToastWithTimeout>, t: ShownToast, d: u32)
    requires
        !m.contains_key(t.created_at),
    ensures
        with_new_toasts(m, seq![t], d) == m.insert(t.created_at, entry_for(t, d)),
        t.toast.automatically_closing matches crate::toast::ToastAutomaticallyClosing::WithDelay {
            millis,
        } ==> new_timers(m, seq![t], d) == seq![(t.created_at, millis)],
        t.toast.automatically_closing is WithDefaultDelay ==> new_timers(m, seq![t], d) == seq![
            (t.created_at, d),
        ],
        t.toast.automatically_closing is No ==> new_timers(m, seq![t], d) == Seq::<
            (i128, u32),
        >::empty(),
{
    let s = seq![t];
    assert(s.drop_last() =~= Seq::<ShownToast>::empty());
    assert(s.last() == t);
    assert(with_new_toasts(m, s.drop_last(), d) == m);
    assert(new_timers(m, s.drop_last(), d) == Seq::<(i128, u32)>::empty());
}

} // verus!
