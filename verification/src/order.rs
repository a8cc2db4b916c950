//! The ordering of the list view: an ordered map from field to sort direction,
//! updated when the user clicks a column header.

use indexmap::IndexMap;
use vstd::prelude::*;

verus! {

/// A field of the listed entities, identified by its position in the read model.
pub type FieldId = u64;

/// Sort direction of one field.
#[derive(Debug, Clone, Copy, PartialEq, Eq, Structural, Hash)]
pub enum Order {
    Asc,
    Desc,
}

/// How a click on a column header changes the ordering.
#[derive(Debug, Clone, Copy, PartialEq, Eq, Structural)]
pub struct OrderByUpdateOptions {
    /// Keep the other fields of the ordering (instead of ordering by this field alone).
    pub append: bool,
}

#[verifier::external_type_specification]
#[verifier::external_body]
#[verifier::reject_recursive_types(K)]
#[verifier::reject_recursive_types(V)]
#[verifier::reject_recursive_types(S)]
pub struct ExIndexMap<K, V, S>(IndexMap<K, V, S>);

/// The key-value pairs of an ordering map, in the map's order.
pub uninterp spec fn order_by_entries(m: IndexMap<FieldId, Order>) -> Seq<(FieldId, Order)>;

/// No key occurs twice.
pub open spec fn keys_unique(s: Seq<(FieldId, Order)>) -> bool {
    forall|i: int, j: int| 0 <= i < s.len() && 0 <= j < s.len() && s[i].0 == s[j].0 ==> i == j
}

/// Whether `k` occurs as a key.
pub open spec fn has_key(s: Seq<(FieldId, Order)>, k: FieldId) -> bool {
    exists|i: int| 0 <= i < s.len() && s[i].0 == k
}

/// The position of key `k` (meaningful when it occurs).
pub open spec fn key_index(s: Seq<(FieldId, Order)>, k: FieldId) -> int {
    choose|i: int| 0 <= i < s.len() && s[i].0 == k
}

/// The direction stored for key `k`, if any.
pub open spec fn lookup(s: Seq<(FieldId, Order)>, k: FieldId) -> Option<Order> {
    if has_key(s, k) {
        Some(s[key_index(s, k)].1)
    } else {
        None
    }
}

/// `IndexMap::new`: creates an empty map.
#[verifier::external_body]
fn map_new() -> (m: IndexMap<FieldId, Order>)
    ensures
        order_by_entries(m) == Seq::<(FieldId, Order)>::empty(),
{
    IndexMap::new()
}

/// `IndexMap::clear`: removes all key-value pairs.
#[verifier::external_body]
fn map_clear(m: &mut IndexMap<FieldId, Order>)
    ensures
        order_by_entries(*final(m)) == Seq::<(FieldId, Order)>::empty(),
{
    m.clear()
}

/// `IndexMap::insert`: an existing key keeps its place and gets the new value, and the
/// old value is returned; a new key is appended last, and `None` is returned. Keys stay
/// unique.
#[verifier::external_body]
fn map_insert(m: &mut IndexMap<FieldId, Order>, k: FieldId, v: Order) -> (r: Option<Order>)
    requires
        keys_unique(order_by_entries(*old(m))),
    ensures
        has_key(order_by_entries(*old(m)), k) ==> {
            &&& order_by_entries(*final(m)) == order_by_entries(*old(m)).update(
                key_index(order_by_entries(*old(m)), k),
                (k, v),
            )
            &&& r == Some(
                order_by_entries(*old(m))[key_index(order_by_entries(*old(m)), k)].1,
            )
        },
        !has_key(order_by_entries(*old(m)), k) ==> {
            &&& order_by_entries(*final(m)) == order_by_entries(*old(m)).push((k, v))
            &&& r is None
        },
        keys_unique(order_by_entries(*final(m))),
{
    m.insert(k, v)
}

/// `IndexMap::get`: the value stored for the key, if any.
#[verifier::external_body]
fn map_get(m: &IndexMap<FieldId, Order>, k: FieldId) -> (r: Option<Order>)
    requires
        keys_unique(order_by_entries(*m)),
    ensures
        r == lookup(order_by_entries(*m), k),
{
    m.get(&k).copied()
}

/// `IndexMap::len`: the number of key-value pairs.
#[verifier::external_body]
fn map_len(m: &IndexMap<FieldId, Order>) -> (r: usize)
    ensures
        r == order_by_entries(*m).len(),
{
    m.len()
}

/// `IndexMap::get_index`: the key-value pair at a position of the order.
#[verifier::external_body]
fn map_get_index(m: &IndexMap<FieldId, Order>, i: usize) -> (r: Option<(FieldId, Order)>)
    ensures
        r == (if i < order_by_entries(*m).len() {
            Some(order_by_entries(*m)[i as int])
        } else {
            None
        }),
{
    m.get_index(i).map(|(k, v)| (*k, *v))
}

/// `IndexMap::clone`: a map with the same key-value pairs in the same order.
#[verifier::external_body]
fn map_clone(m: &IndexMap<FieldId, Order>) -> (r: IndexMap<FieldId, Order>)
    ensures
        order_by_entries(r) == order_by_entries(*m),
{
    m.clone()
}

/// The opposite direction.
pub open spec fn toggled(o: Order) -> Order {
    match o {
        Order::Asc => Order::Desc,
        Order::Desc => Order::Asc,
    }
}

/// The direction a field gets when its header is clicked: the opposite of its current
/// direction, or ascending when it was not ordered by.
pub open spec fn next_order(prev: Option<Order>) -> Order {
    match prev {
        Some(o) => toggled(o),
        None => Order::Asc,
    }
}

/// The ordering after a click on the header of `field`.
pub open spec fn spec_update_order_by(
    s: Seq<(FieldId, Order)>,
    field: FieldId,
    append: bool,
) -> Seq<(FieldId, Order)> {
    let o = next_order(lookup(s, field));
    if !append {
        seq![(field, o)]
    } else if has_key(s, field) {
        s.update(key_index(s, field), (field, o))
    } else {
        s.push((field, o))
    }
}

/// An ordering of the list view: which fields to order by, first to last, and how.
pub struct OrderBy {
    map: IndexMap<FieldId, Order>,
}

impl View for OrderBy {
    type V = Seq<(FieldId, Order)>;

    closed spec fn view(&self) -> Seq<(FieldId, Order)> {
        order_by_entries(self.map)
    }
}

impl OrderBy {
    /// Every field occurs at most once.
    pub open spec fn wf(&self) -> bool {
        keys_unique(self@)
    }

    /// The empty ordering.
    pub fn new() -> (r: Self)
        ensures
            r@ == Seq::<(FieldId, Order)>::empty(),
            r.wf(),
    {
        OrderBy { map: map_new() }
    }

    /// Sets the direction of `field`, keeping its place if it is already ordered by,
    /// appending it last otherwise.
    pub fn insert(&mut self, field: FieldId, order: Order)
        requires
            old(self).wf(),
        ensures
            final(self).wf(),
            has_key(old(self)@, field) ==> final(self)@ == old(self)@.update(
                key_index(old(self)@, field),
                (field, order),
            ),
            !has_key(old(self)@, field) ==> final(self)@ == old(self)@.push((field, order)),
    {
        let _ = map_insert(&mut self.map, field, order);
    }

    /// A copy of this ordering.
    pub fn duplicate(&self) -> (r: Self)
        ensures
            r@ == self@,
    {
        OrderBy { map: map_clone(&self.map) }
    }

    /// The direction of `field`, if the ordering uses it.
    pub fn get(&self, field: FieldId) -> (r: Option<Order>)
        requires
            self.wf(),
        ensures
            r == lookup(self@, field),
    {
        map_get(&self.map, field)
    }

    /// The number of fields ordered by.
    pub fn len(&self) -> (r: usize)
        ensures
            r == self@.len(),
    {
        map_len(&self.map)
    }

    /// The field and direction at position `i`.
    pub fn get_index(&self, i: usize) -> (r: Option<(FieldId, Order)>)
        ensures
            r == (if i < self@.len() {
                Some(self@[i as int])
            } else {
                None
            }),
    {
        map_get_index(&self.map, i)
    }

    /// Updates the ordering after the header of `field` was clicked: the field's
    /// direction flips (a new field starts ascending), and unless `append` is set, the
    /// ordering uses this field alone.
    pub fn update(&mut self, field: FieldId, options: OrderByUpdateOptions)
        requires
            old(self).wf(),
        ensures
            final(self).wf(),
            final(self)@ == spec_update_order_by(old(self)@, field, options.append),
    {
        let prev = map_get(&self.map, field);
        if !options.append {
            map_clear(&mut self.map);
        }
        let new_order = match prev {
            Some(order) => match order {
                Order::Asc => Order::Desc,
                Order::Desc => Order::Asc,
            },
            None => Order::Asc,
        };
        let _ = map_insert(&mut self.map, field, new_order);
        proof {
            if !options.append {
                assert(!has_key(Seq::<(FieldId, Order)>::empty(), field));
                assert(self@ =~= seq![(field, new_order)]);
            }
        }
    }
}


/// In an ordering without repeated fields, the position found for a key holds that key.
proof fn lemma_key_index(s: Seq<(FieldId, Order)>, k: FieldId, i: int)
    requires
        keys_unique(s),
        0 <= i < s.len(),
        s[i].0 == k,
    ensures
        has_key(s, k),
        key_index(s, k) == i,
        lookup(s, k) == Some(s[i].1),
{
}

/// After a click on a field's header, the ordering has no repeated field, uses that
/// field, and gives it the opposite of its previous direction (ascending when it was not
/// ordered by before).
pub proof fn lemma_update_order_by_sets_field(s: Seq<(FieldId, Order)>, field: FieldId, append: bool)
    requires
        keys_unique(s),
    ensures
        keys_unique(spec_update_order_by(s, field, append)),
        lookup(spec_update_order_by(s, field, append), field) == Some(next_order(lookup(s, field))),
{
    let r = spec_update_order_by(s, field, append);
    if !append {
        lemma_key_index(r, field, 0);
    } else if has_key(s, field) {
        let i = key_index(s, field);
        assert(keys_unique(r));
        lemma_key_index(r, field, i);
    } else {
        assert(keys_unique(r));
        lemma_key_index(r, field, s.len() as int);
    }
}

/// A click without `append` orders by the clicked field alone.
pub proof fn lemma_update_order_by_replaces(s: Seq<(FieldId, Order)>, field: FieldId)
    ensures
        spec_update_order_by(s, field, false) == seq![(field, next_order(lookup(s, field)))],
{
}

/// A click with `append` leaves every other field in its place and direction.
pub proof fn lemma_update_order_by_keeps_others(s: Seq<(FieldId, Order)>, field: FieldId, i: int)
    requires
        keys_unique(s),
        0 <= i < s.len(),
        s[i].0 != field,
    ensures
        spec_update_order_by(s, field, true)[i] == s[i],
        spec_update_order_by(s, field, true).len() >= s.len(),
{
}

/// Clicking twice (with `append`) on the header of a field already ordered by restores
/// the ordering.
pub proof fn lemma_update_order_by_twice(s: Seq<(FieldId, Order)>, field: FieldId)
    requires
        keys_unique(s),
        has_key(s, field),
    ensures
        spec_update_order_by(spec_update_order_by(s, field, true), field, true) == s,
{
    let i = key_index(s, field);
    lemma_key_index(s, field, i);
    let o = s[i].1;
    let r = spec_update_order_by(s, field, true);
    assert(r == s.update(i, (field, toggled(o))));
    assert(keys_unique(r));
    lemma_key_index(r, field, i);
    let r2 = spec_update_order_by(r, field, true);
    assert(r2 == r.update(i, (field, toggled(toggled(o)))));
    assert(toggled(toggled(o)) == o);
    assert(r2 =~= s);
}

/// Clicking twice (without `append`) on the header of the only field ordered by
/// restores the ordering.
pub proof fn lemma_update_order_by_twice_alone(field: FieldId, o: Order)
    ensures
        spec_update_order_by(
            spec_update_order_by(seq![(field, o)], field, false),
            field,
            false,
        ) == seq![(field, o)],
{
    let s = seq![(field, o)];
    lemma_key_index(s, field, 0);
    let r = spec_update_order_by(s, field, false);
    lemma_key_index(r, field, 0);
    assert(toggled(toggled(o)) == o);
}

/// Clicking twice (with `append`) on the header of a field not yet ordered by appends
/// it last, descending.
pub proof fn lemma_update_order_by_twice_new_field(s: Seq<(FieldId, Order)>, field: FieldId)
    requires
        keys_unique(s),
        !has_key(s, field),
    ensures
        spec_update_order_by(spec_update_order_by(s, field, true), field, true) == s.push(
            (field, Order::Desc),
        ),
{
    let r = spec_update_order_by(s, field, true);
    assert(r == s.push((field, Order::Asc)));
    assert(keys_unique(r));
    lemma_key_index(r, field, s.len() as int);
    let r2 = spec_update_order_by(r, field, true);
    assert(r2 == r.update(s.len() as int, (field, Order::Desc)));
    assert(r2 =~= s.push((field, Order::Desc)));
}

} // verus!
