//! Decisions the views of an instance make: leaving a view with unsaved changes,
//! reacting to a save, requesting a page of data, linking a nested instance to its
//! parent, and the table header's ordering controls.

use vstd::prelude::*;
use vstd::string::*;
use crate::delete::RequestError;
use crate::instance_config::CrudParentConfig;
use crate::order::{lookup, FieldId, Order, OrderBy, OrderByUpdateOptions};
use crate::view::{EntityId, NoDataAvailable};

verus! {

/// What happens when the user asks to leave a create or edit view.
#[derive(Debug, Clone, Copy, PartialEq, Eq, Structural)]
pub enum LeaveDecision {
    /// Unsaved changes: ask the user first.
    ShowLeaveModal,
    /// Nothing to lose: leave at once.
    Leave,
    /// The user did not ask to leave.
    Stay,
}

/// Decides how to react to a request to leave a view.
pub fn leave_decision(user_wants_to_leave: bool, input_changed: bool) -> (r: LeaveDecision)
    ensures
        r == if !user_wants_to_leave {
            LeaveDecision::Stay
        } else if input_changed {
            LeaveDecision::ShowLeaveModal
        } else {
            LeaveDecision::Leave
        },
{
    match (user_wants_to_leave, input_changed) {
        (true, true) => LeaveDecision::ShowLeaveModal,
        (true, false) => LeaveDecision::Leave,
        (false, _) => LeaveDecision::Stay,
    }
}

/// Where the create view goes after saving.
#[derive(Debug, Clone, Copy, PartialEq, Eq, Structural)]
pub enum Then {
    OpenEditView,
    OpenListView,
    OpenCreateView,
}

/// The answer to a request creating an entity.
pub enum CreateOutcome {
    /// Created; the new entity has this key.
    Saved { entity_id: EntityId, with_validation_errors: bool },
    Aborted { reason: String },
    CriticalValidationErrors,
    Failed(RequestError),
}

/// What the create view reports after a save.
pub enum CreateEvent {
    EntityCreated { entity_id: EntityId, with_validation_errors: bool },
    OpenEditView(EntityId),
    OpenListView,
    OpenCreateView,
    EntityCreationAborted(String),
    EntityNotCreatedDueToCriticalErrors,
    EntityCreationFailed(RequestError),
}

/// Reacts to the answer of a create request: a created entity is reported, then the
/// view requested by `then` opens; a failure is reported.
pub fn create_view_reaction(outcome: CreateOutcome, then: Then) -> (r: Vec<CreateEvent>)
    ensures
        match outcome {
            CreateOutcome::Saved { entity_id, with_validation_errors } => {
                &&& r@.len() == 2
                &&& r@[0] matches CreateEvent::EntityCreated { entity_id: i, with_validation_errors: w }
                    && i == entity_id && w == with_validation_errors
                &&& match then {
                    Then::OpenEditView => r@[1] matches CreateEvent::OpenEditView(i) && i == entity_id,
                    Then::OpenListView => r@[1] is OpenListView,
                    Then::OpenCreateView => r@[1] is OpenCreateView,
                }
            },
            CreateOutcome::Aborted { reason } => r@.len() == 1
                && (r@[0] matches CreateEvent::EntityCreationAborted(x) && x == reason),
            CreateOutcome::CriticalValidationErrors => r@.len() == 1
                && r@[0] is EntityNotCreatedDueToCriticalErrors,
            CreateOutcome::Failed(err) => r@.len() == 1
                && (r@[0] matches CreateEvent::EntityCreationFailed(x) && x == err),
        },
{
    let mut events: Vec<CreateEvent> = Vec::new();
    match outcome {
        CreateOutcome::Saved { entity_id, with_validation_errors } => {
            events.push(CreateEvent::EntityCreated { entity_id, with_validation_errors });
            match then {
                Then::OpenEditView => events.push(CreateEvent::OpenEditView(entity_id)),
                Then::OpenListView => events.push(CreateEvent::OpenListView),
                Then::OpenCreateView => events.push(CreateEvent::OpenCreateView),
            }
        },
        CreateOutcome::Aborted { reason } => {
            events.push(CreateEvent::EntityCreationAborted(reason));
        },
        CreateOutcome::CriticalValidationErrors => {
            events.push(CreateEvent::EntityNotCreatedDueToCriticalErrors);
        },
        CreateOutcome::Failed(err) => {
            events.push(CreateEvent::EntityCreationFailed(err));
        },
    }
    events
}

/// A condition restricting data to the entities whose `column_name` equals `value`.
pub struct EqualsCondition {
    pub column_name: String,
    pub value: EntityId,
}

/// The field of a new entity that references the parent, and the parent's key to put
/// there: only for a nested instance whose parent currently shows an entity.
pub fn parent_reference(parent: &Option<CrudParentConfig>, parent_id: Option<EntityId>) -> (r:
    Option<EqualsCondition>)
    ensures
        match (*parent, parent_id) {
            (Some(p), Some(id)) => r is Some && r->0.column_name@ == p.referencing_field@
                && r->0.value == id,
            _ => r is None,
        },
{
    match (parent, parent_id) {
        (Some(parent), Some(id)) => Some(
            EqualsCondition { column_name: parent.referencing_field.clone(), value: id },
        ),
        _ => None,
    }
}

/// The limit and offset of the request loading page `page` (counted from one) with
/// `items_per_page` items per page.
pub fn page_window(items_per_page: u64, page: u64) -> (r: (u64, u64))
    requires
        page >= 1,
        items_per_page * (page - 1) <= u64::MAX,
    ensures
        r.0 == items_per_page,
        r.1 == items_per_page * (page - 1),
{
    (items_per_page, items_per_page * (page - 1))
}

/// The sign shown in a column header: an up arrow unless the column is ordered
/// descending.
pub fn order_sign(order: Option<Order>) -> (r: &'static str)
    ensures
        r@ == (if order == Some(Order::Desc) {
            "&darr;"@
        } else {
            "&uarr;"@
        }),
{
    match order {
        Some(Order::Asc) => "&uarr;",
        Some(Order::Desc) => "&darr;",
        None => "&uarr;",
    }
}

/// Whether a click on the "select all" checkbox must toggle the selection: only when
/// the requested state differs from the current one.
pub fn select_all_clicked(checked: bool, all_selected: bool) -> (r: bool)
    ensures
        r == (checked != all_selected),
{
    checked != all_selected
}

/// Whether the table shows an action column.
pub fn with_actions(
    additional_item_actions: usize,
    read_allowed: bool,
    edit_allowed: bool,
    delete_allowed: bool,
) -> (r: bool)
    ensures
        r == (additional_item_actions > 0 || read_allowed || edit_allowed || delete_allowed),
{
    additional_item_actions != 0 || read_allowed || edit_allowed || delete_allowed
}

/// The column headers of the list view, each with the direction the current ordering
/// gives its field, if any.
pub fn header_orders(fields: &Vec<FieldId>, order_by: &OrderBy) -> (r: Vec<(FieldId, Option<Order>)>)
    requires
        order_by.wf(),
    ensures
        r@.len() == fields@.len(),
        forall|i: int|
            0 <= i < fields@.len() ==> #[trigger] r@[i] == (fields@[i], lookup(order_by@, fields@[i])),
{
    let mut r: Vec<(FieldId, Option<Order>)> = Vec::new();
    let mut i: usize = 0;
    while i < fields.len()
        invariant
            i <= fields@.len(),
            order_by.wf(),
            r@.len() == i,
            forall|j: int|
                0 <= j < i ==> #[trigger] r@[j] == (fields@[j], lookup(order_by@, fields@[j])),
        decreases fields@.len() - i,
    {
        let field = fields[i];
        r.push((field, order_by.get(field)));
        i = i + 1;
    }
    r
}

/// What the body of the table shows.
#[derive(Debug, Clone, PartialEq)]
pub enum TableBodyContent {
    /// The page was loaded and is empty.
    NoData,
    /// One row per entity of the page.
    Rows,
    /// Nothing yet: the page is still loading.
    Blank,
    /// The page could not be loaded, for this reason.
    Unavailable(String),
}

/// Decides what the body of the table shows for the current page.
pub fn table_body_content(data: &Result<Vec<EntityId>, NoDataAvailable>) -> (r: TableBodyContent)
    ensures
        r == match *data {
            Ok(d) => if d@.len() == 0 {
                TableBodyContent::NoData
            } else {
                TableBodyContent::Rows
            },
            Err(NoDataAvailable::NotYetLoaded) => TableBodyContent::Blank,
            Err(NoDataAvailable::RequestFailed(reason)) => TableBodyContent::Unavailable(reason),
            Err(NoDataAvailable::RequestReturnedNoData(reason)) => TableBodyContent::Unavailable(
                reason,
            ),
        },
{
    match data {
        Ok(d) => if d.len() == 0 {
            TableBodyContent::NoData
        } else {
            TableBodyContent::Rows
        },
        Err(NoDataAvailable::NotYetLoaded) => TableBodyContent::Blank,
        Err(NoDataAvailable::RequestFailed(reason)) => TableBodyContent::Unavailable(
            reason.clone(),
        ),
        Err(NoDataAvailable::RequestReturnedNoData(reason)) => TableBodyContent::Unavailable(
            reason.clone(),
        ),
    }
}

/// The entity a read or edit view shows once its fetch request answered (`None` while it
/// has not), or why it has none.
pub fn fetched_entity<T>(answer: Option<Result<Option<T>, RequestError>>) -> (r: Result<T, NoDataAvailable>)
    ensures
        match answer {
            None => r == Err::<T, NoDataAvailable>(NoDataAvailable::NotYetLoaded),
            Some(Err(e)) => r == Err::<T, NoDataAvailable>(NoDataAvailable::RequestFailed(e.0)),
            Some(Ok(None)) => r matches Err(NoDataAvailable::RequestReturnedNoData(text))
                && text@ == "Eintrag existiert nicht."@,
            Some(Ok(Some(entity))) => r == Ok::<T, NoDataAvailable>(entity),
        },
{
    match answer {
        None => Err(NoDataAvailable::NotYetLoaded),
        Some(Err(e)) => Err(NoDataAvailable::RequestFailed(e.0)),
        Some(Ok(None)) => Err(
            NoDataAvailable::RequestReturnedNoData(String::from_str("Eintrag existiert nicht.")),
        ),
        Some(Ok(Some(entity))) => Ok(entity),
    }
}

/// What a click on the header of `field` asks of the instance: to order by this field
/// alone, when the column allows ordering; nothing otherwise.
pub fn header_clicked(field: FieldId, ordering_allowed: bool) -> (r: Option<(FieldId, OrderByUpdateOptions)>)
    ensures
        r == if ordering_allowed {
            Some((field, OrderByUpdateOptions { append: false }))
        } else {
            None
        },
{
    if ordering_allowed {
        Some((field, OrderByUpdateOptions { append: false }))
    } else {
        None
    }
}

/// A request for a page of entities: how many, after how many, in which order, and
/// restricted by which condition.
pub struct ReadMany<C> {
    pub limit: Option<u64>,
    pub skip: Option<u64>,
    /// The fields to order by, first to last, with their directions.
    pub order_by: Option<Vec<(FieldId, Order)>>,
    pub condition: Option<C>,
}

/// The request loading page `page` (counted from one) of the list view, with
/// `items_per_page` items per page, the instance's ordering (same fields, same order)
/// and its base condition.
pub fn page_request<C>(items_per_page: u64, page: u64, order_by: &OrderBy, condition: Option<C>) -> (r:
    ReadMany<C>)
    requires
        page >= 1,
        items_per_page * (page - 1) <= u64::MAX,
    ensures
        r.limit == Some(items_per_page),
        r.skip == Some((items_per_page * (page - 1)) as u64),
        r.order_by matches Some(o) && o@ == order_by@,
        r.condition == condition,
{
    let (limit, skip) = page_window(items_per_page, page);
    let mut entries: Vec<(FieldId, Order)> = Vec::new();
    let n = order_by.len();
    let mut i: usize = 0;
    while i < n
        invariant
            n == order_by@.len(),
            i <= n,
            entries@ == order_by@.subrange(0, i as int),
        decreases n - i,
    {
        match order_by.get_index(i) {
            Some(entry) => entries.push(entry),
            None => {},
        }
        assert(entries@ =~= order_by@.subrange(0, i + 1));
        i = i + 1;
    }
    assert(entries@ =~= order_by@);
    ReadMany { limit: Some(limit), skip: Some(skip), order_by: Some(entries), condition }
}

} // verus!
