//! A field referencing another entity: which entities of the related resource are
//! selected, given the field's current value, and the value a new selection gives it.

use vstd::prelude::*;
use crate::delete::RequestError;
use crate::selection::Selection;
use crate::view::{CrudView, EntityId};

verus! {

/// The value of a field, as far as relations read it.
#[derive(Debug, Clone, PartialEq)]
pub enum Value {
    U32(u32),
    OptionalU32(Option<u32>),
    OneToOneRelation(Option<u32>),
    /// A value of any other kind, named by its kind. Relations cannot use it.
    Unsupported(String),
}

/// Whether relations can read the value.
pub open spec fn is_supported(v: Value) -> bool {
    !(v is Unsupported)
}

/// The key a value refers to, if any.
pub open spec fn spec_value_as_u32(v: Value) -> Option<u32> {
    match v {
        Value::U32(x) => Some(x),
        Value::OptionalU32(x) => x,
        Value::OneToOneRelation(x) => x,
        Value::Unsupported(_) => None,
    }
}

/// Reads the key a value refers to, if any.
pub fn value_as_u32(value: &Value) -> (r: Option<u32>)
    requires
        is_supported(*value),
    ensures
        r == spec_value_as_u32(*value),
{
    match value {
        Value::U32(x) => Some(*x),
        Value::OptionalU32(x) => *x,
        Value::OneToOneRelation(x) => *x,
        Value::Unsupported(_) => None,
    }
}

/// Reads the keys a value refers to: none or one.
pub fn value_as_u32_vec(value: &Value) -> (r: Vec<u32>)
    requires
        is_supported(*value),
    ensures
        r@ == match spec_value_as_u32(*value) {
            Some(x) => seq![x],
            None => Seq::<u32>::empty(),
        },
{
    let mut r: Vec<u32> = Vec::new();
    match value_as_u32(value) {
        Some(x) => r.push(x),
        None => {},
    }
    r
}

/// The entities whose connecting value refers to key `id`, in the order of `data`.
pub open spec fn entities_with_key(data: Seq<(EntityId, Value)>, id: u32) -> Seq<EntityId>
    decreases data.len(),
{
    if data.len() == 0 {
        Seq::empty()
    } else {
        let rest = entities_with_key(data.drop_last(), id);
        if spec_value_as_u32(data.last().1) == Some(id) {
            rest.push(data.last().0)
        } else {
            rest
        }
    }
}

/// Computes which of the loaded related entities (each with the value of its
/// connecting field) the field's current value selects. Without a value or without
/// loaded data nothing is selected.
pub fn compute_selected(
    current_field_value: &Option<Value>,
    data: &Option<Result<Vec<(EntityId, Value)>, RequestError>>,
) -> (r: Selection<EntityId>)
    requires
        *current_field_value matches Some(v) ==> is_supported(v),
        current_field_value is Some ==> (*data matches Some(Ok(d)) ==> forall|i: int|
            0 <= i < d@.len() ==> is_supported(#[trigger] d@[i].1) && spec_value_as_u32(d@[i].1) is Some),
    ensures
        match (*current_field_value, *data) {
            (Some(v), Some(Ok(d))) => match spec_value_as_u32(v) {
                Some(id) => {
                    let s = entities_with_key(d@, id);
                    &&& s.len() == 0 ==> r is Empty
                    &&& s.len() == 1 ==> r == Selection::Single(s[0])
                    &&& s.len() > 1 ==> (r matches Selection::Multiple(m) && m@ == s)
                },
                None => r is Empty,
            },
            _ => r is Empty,
        },
{
    match current_field_value {
        Some(value) => {
            let selected_ids = value_as_u32_vec(value);
            match data {
                Some(Ok(data)) => {
                    let mut s: Vec<EntityId> = Vec::new();
                    let mut i: usize = 0;
                    while i < data.len()
                        invariant
                            i <= data@.len(),
                            forall|k: int|
                                0 <= k < data@.len() ==> is_supported(#[trigger] data@[k].1)
                                    && spec_value_as_u32(data@[k].1) is Some,
                            selected_ids@.len() <= 1,
                            selected_ids@.len() == 0 ==> s@.len() == 0,
                            selected_ids@.len() == 1 ==> s@ == entities_with_key(
                                data@.subrange(0, i as int),
                                selected_ids@[0],
                            ),
                        decreases data@.len() - i,
                    {
                        let entity = &data[i];
                        let ent_id = match value_as_u32(&entity.1) {
                            Some(x) => x,
                            None => 0,
                        };
                        let mut j: usize = 0;
                        let ghost s_before = s@;
                        while j < selected_ids.len()
                            invariant
                                j <= selected_ids@.len(),
                                selected_ids@.len() <= 1,
                                s@ == if j == 0 || selected_ids@[0] != ent_id {
                                    s_before
                                } else {
                                    s_before.push(entity.0)
                                },
                            decreases selected_ids@.len() - j,
                        {
                            if selected_ids[j] == ent_id {
                                s.push(entity.0);
                            }
                            j = j + 1;
                        }
                        proof {
                            let sub = data@.subrange(0, i + 1);
                            assert(sub.drop_last() =~= data@.subrange(0, i as int));
                            assert(sub.last() == data@[i as int]);
                        }
                        i = i + 1;
                    }
                    assert(data@.subrange(0, data@.len() as int) =~= data@);
                    if s.len() == 0 {
                        Selection::Empty
                    } else if s.len() == 1 {
                        Selection::Single(s[0])
                    } else {
                        Selection::Multiple(s)
                    }
                },
                _ => Selection::Empty,
            }
        },
        None => Selection::Empty,
    }
}

/// The value the field gets when the user selects related entities, given the
/// connecting value of the selected entity: the entity's value for a single selection,
/// an empty relation otherwise.
pub fn relation_value(selection: Selection<Value>) -> (r: Value)
    ensures
        r == match selection {
            Selection::Single(v) => v,
            _ => Value::OneToOneRelation(None),
        },
{
    match selection {
        Selection::Empty => Value::OneToOneRelation(None),
        Selection::Single(value) => value,
        Selection::Multiple(_values) => Value::OneToOneRelation(None),
    }
}

/// The parent entity whose related entities must be loaded when the parent's view
/// changes: the one it reads or edits; none while it lists or creates.
pub fn related_parent(parent_view: CrudView) -> (r: Option<EntityId>)
    ensures
        r == match parent_view {
            CrudView::Read(id) => Some(id),
            CrudView::Edit(id) => Some(id),
            _ => None,
        },
{
    parent_view.entity_id()
}

/// Whether every loaded related entity has a connecting value that refers to a key.
pub open spec fn entries_keyed(d: Seq<(EntityId, Value)>) -> bool {
    forall|i: int|
        0 <= i < d.len() ==> is_supported(#[trigger] d[i].1) && spec_value_as_u32(d[i].1) is Some
}

/// Whether loaded data, if any loaded successfully, is keyed throughout.
pub open spec fn data_keyed(data: Option<Result<Vec<(EntityId, Value)>, RequestError>>) -> bool {
    data matches Some(Ok(d)) ==> entries_keyed(d@)
}

/// What a related field is told.
pub enum Msg {
    /// The parent instance was looked up among the known instances.
    ParentInstanceLinksStoreUpdated { parent_found: bool },
    /// The parent instance's view, as the store of instance views has it.
    InstanceViewsStoreUpdated(Option<CrudView>),
    /// The parent's current value of the field.
    CurrentValue(Value),
    /// The related entities, each with the value of its connecting field.
    LoadedData(Result<Vec<(EntityId, Value)>, RequestError>),
    /// The user selected related entities, each with the value of its connecting field.
    SelectionChanged(Selection<(EntityId, Value)>),
}

/// What the related field asks of its surroundings after a message.
pub struct RelatedEffects {
    pub rerender: bool,
    /// Ask the parent instance for the field's current value.
    pub request_current_value: bool,
    /// Load the related entities that refer to this parent entity.
    pub load_related_of: Option<EntityId>,
    /// Store this value in the parent's field.
    pub save_value: Option<Value>,
}

/// The keys of the entities of `s`, in order.
pub open spec fn keys_of(s: Seq<(EntityId, Value)>) -> Seq<EntityId> {
    s.map_values(|e: (EntityId, Value)| e.0)
}

/// The value a selection gives the parent's field.
pub open spec fn selection_value(s: Selection<(EntityId, Value)>) -> Value {
    match s {
        Selection::Single(e) => e.1,
        _ => Value::OneToOneRelation(None),
    }
}

/// A field of a parent instance that refers to an entity of a related resource,
/// chosen with a select input.
pub struct CrudRelatedField {
    /// Whether the parent instance is known.
    pub parent_found: bool,
    pub current_field_value: Option<Value>,
    pub data: Option<Result<Vec<(EntityId, Value)>, RequestError>>,
    pub selected: Selection<EntityId>,
}

impl CrudRelatedField {
    /// Whether the current value, if any, is one relations can read.
    pub open spec fn wf(&self) -> bool {
        self.current_field_value matches Some(v) ==> is_supported(v)
    }

    /// Whether the field can take `msg`: the parent's view must be known, and the
    /// values it will read must refer to keys.
    pub open spec fn accepts(&self, msg: Msg) -> bool {
        match msg {
            Msg::InstanceViewsStoreUpdated(view) => view is Some,
            Msg::CurrentValue(v) => is_supported(v) && data_keyed(self.data),
            Msg::LoadedData(r) => self.current_field_value is Some ==> data_keyed(Some(r)),
            _ => true,
        }
    }

    /// A field that knows neither its parent, its value nor the related data.
    pub fn new() -> (r: Self)
        ensures
            r.wf(),
            !r.parent_found,
            r.current_field_value is None,
            r.data is None,
            r.selected is Empty,
    {
        CrudRelatedField {
            parent_found: false,
            current_field_value: None,
            data: None,
            selected: Selection::Empty,
        }
    }

    /// Handles a message. A change of the parent asks it for the field's value; a
    /// parent that reads or edits an entity has the entities related to it loaded; a new
    /// value or new data recompute the selection; a new selection is stored in the
    /// parent's field when the parent is known.
    pub fn update(&mut self, msg: Msg) -> (e: RelatedEffects)
        requires
            old(self).wf(),
            old(self).accepts(msg),
        ensures
            final(self).wf(),
            match msg {
                Msg::ParentInstanceLinksStoreUpdated { parent_found } => {
                    &&& final(self).parent_found == parent_found
                    &&& final(self).current_field_value == old(self).current_field_value
                    &&& final(self).data == old(self).data
                    &&& final(self).selected == old(self).selected
                    &&& !e.rerender && e.request_current_value == parent_found
                    &&& e.load_related_of is None && e.save_value is None
                },
                Msg::InstanceViewsStoreUpdated(view) => {
                    &&& *final(self) == *old(self)
                    &&& !e.rerender && !e.request_current_value && e.save_value is None
                    &&& e.load_related_of == match view {
                        Some(CrudView::Read(id)) => Some(id),
                        Some(CrudView::Edit(id)) => Some(id),
                        _ => None,
                    }
                },
                Msg::CurrentValue(v) => {
                    &&& final(self).parent_found == old(self).parent_found
                    &&& final(self).current_field_value == Some(v)
                    &&& final(self).data == old(self).data
                    &&& selected_for(final(self).selected, Some(v), old(self).data)
                    &&& e.rerender && !e.request_current_value
                    &&& e.load_related_of is None && e.save_value is None
                },
                Msg::LoadedData(r) => {
                    &&& final(self).parent_found == old(self).parent_found
                    &&& final(self).current_field_value == old(self).current_field_value
                    &&& final(self).data == Some(r)
                    &&& selected_for(final(self).selected, old(self).current_field_value, Some(r))
                    &&& e.rerender && !e.request_current_value
                    &&& e.load_related_of is None && e.save_value is None
                },
                Msg::SelectionChanged(s) => {
                    &&& final(self).parent_found == old(self).parent_found
                    &&& final(self).current_field_value == old(self).current_field_value
                    &&& final(self).data == old(self).data
                    &&& same_selection(final(self).selected, s)
                    &&& !e.rerender && !e.request_current_value && e.load_related_of is None
                    &&& e.save_value == if old(self).parent_found {
                        Some(selection_value(s))
                    } else {
                        None
                    }
                    &&& (old(self).parent_found && s is Empty) ==> e.save_value == Some(
                        Value::OneToOneRelation(None),
                    )
                    &&& (old(self).parent_found && s is Multiple) ==> e.save_value == Some(
                        Value::OneToOneRelation(None),
                    )
                    &&& s matches Selection::Single(x) ==> (old(self).parent_found ==> e.save_value
                        == Some(x.1))
                },
            },
    {
        let quiet = RelatedEffects {
            rerender: false,
            request_current_value: false,
            load_related_of: None,
            save_value: None,
        };
        match msg {
            Msg::ParentInstanceLinksStoreUpdated { parent_found } => {
                self.parent_found = parent_found;
                RelatedEffects { request_current_value: parent_found, ..quiet }
            },
            Msg::InstanceViewsStoreUpdated(view) => {
                let parent_view = match view {
                    Some(v) => v,
                    None => CrudView::List,
                };
                RelatedEffects { load_related_of: related_parent(parent_view), ..quiet }
            },
            Msg::CurrentValue(value) => {
                self.current_field_value = Some(value);
                self.selected = compute_selected(&self.current_field_value, &self.data);
                RelatedEffects { rerender: true, ..quiet }
            },
            Msg::LoadedData(result) => {
                self.data = Some(result);
                self.selected = compute_selected(&self.current_field_value, &self.data);
                RelatedEffects { rerender: true, ..quiet }
            },
            Msg::SelectionChanged(selection) => {
                let parent_found = self.parent_found;
                let (ids, value) = split_selection(selection);
                self.selected = ids;
                RelatedEffects {
                    save_value: if parent_found {
                        Some(value)
                    } else {
                        None
                    },
                    ..quiet
                }
            },
        }
    }
}

/// Whether `selected` is what the current value selects among the loaded data, as
/// `compute_selected` states it.
pub open spec fn selected_for(
    selected: Selection<EntityId>,
    current_field_value: Option<Value>,
    data: Option<Result<Vec<(EntityId, Value)>, RequestError>>,
) -> bool {
    match (current_field_value, data) {
        (Some(v), Some(Ok(d))) => match spec_value_as_u32(v) {
            Some(id) => {
                let s = entities_with_key(d@, id);
                &&& s.len() == 0 ==> selected is Empty
                &&& s.len() == 1 ==> selected == Selection::Single(s[0])
                &&& s.len() > 1 ==> (selected matches Selection::Multiple(m) && m@ == s)
            },
            None => selected is Empty,
        },
        _ => selected is Empty,
    }
}

/// Whether `ids` holds the keys of the selected entities `s`, in the same shape.
pub open spec fn same_selection(ids: Selection<EntityId>, s: Selection<(EntityId, Value)>) -> bool {
    match s {
        Selection::Empty => ids is Empty,
        Selection::Single(e) => ids == Selection::Single(e.0),
        Selection::Multiple(v) => ids matches Selection::Multiple(m) && m@ == keys_of(v@),
    }
}

/// Splits a selection of related entities into the selection of their keys and the
/// value it gives the parent's field.
fn split_selection(s: Selection<(EntityId, Value)>) -> (r: (Selection<EntityId>, Value))
    ensures
        same_selection(r.0, s),
        r.1 == selection_value(s),
        s is Empty ==> r.1 == Value::OneToOneRelation(None),
        s matches Selection::Single(e) ==> r.1 == e.1,
        s is Multiple ==> r.1 == Value::OneToOneRelation(None),
{
    match s {
        Selection::Empty => (Selection::Empty, Value::OneToOneRelation(None)),
        Selection::Single(e) => (Selection::Single(e.0), e.1),
        Selection::Multiple(v) => {
            let mut ids: Vec<EntityId> = Vec::new();
            let mut i: usize = 0;
            while i < v.len()
                invariant
                    i <= v@.len(),
                    ids@ == keys_of(v@.subrange(0, i as int)),
                decreases v@.len() - i,
            {
                ids.push(v[i].0);
                proof {
                    assert(keys_of(v@.subrange(0, i + 1)) =~= keys_of(v@.subrange(0, i as int)).push(
                        v@[i as int].0,
                    ));
                }
                i = i + 1;
            }
            assert(v@.subrange(0, v@.len() as int) =~= v@);
            (Selection::Multiple(ids), Value::OneToOneRelation(None))
        },
    }
}

/// Clearing the selection clears the relation, and so does a selection of several
/// entities; only a single selected entity puts its connecting value in the parent's
/// field.
pub proof fn lemma_selection_values(e: (EntityId, Value), v: Vec<(EntityId, Value)>)
    ensures
        selection_value(Selection::Empty) == Value::OneToOneRelation(None),
        selection_value(Selection::Single(e)) == e.1,
        selection_value(Selection::Multiple(v)) == Value::OneToOneRelation(None),
{
}

} // verus!
