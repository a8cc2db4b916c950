use crudkit_leptos::button::{inspect_children, size_class, CrudBtn, Item, Msg, Size};
use crudkit_leptos::instance_config::CrudParentConfig;
use crudkit_leptos::instance_mgr::{CrudInstanceMgrContext, InstanceState};
use crudkit_leptos::order::Order;
use crudkit_leptos::related_field::{compute_selected, relation_value, related_parent, value_as_u32, value_as_u32_vec, Value};
use crudkit_leptos::selection::Selection;
use crudkit_leptos::delete::RequestError;
use crudkit_leptos::text::{format_u64, str_eq};
use crudkit_leptos::toast::{close_delay, ToastAutomaticallyClosing};
use crudkit_leptos::view::CrudView;
use crudkit_leptos::view_logic::{
    create_view_reaction, leave_decision, order_sign, page_window, parent_reference,
    select_all_clicked, with_actions, CreateEvent, CreateOutcome, LeaveDecision, Then,
};

#[test]
fn register_and_look_up_instances() {
    let mut ctx = CrudInstanceMgrContext::new();
    ctx.register("users", InstanceState { name: "users", view: CrudView::Edit(3) });
    ctx.register("roles", InstanceState { name: "roles", view: CrudView::Create });
    let s = &ctx.instances;
    assert_eq!(s.states.len(), 2);
    assert_eq!(s.get_by_name("users").unwrap().view, CrudView::Edit(3));
    assert_eq!(s.get_by_name("roles").unwrap().view, CrudView::Create);
    assert!(s.get_by_name("groups").is_none());
    let parent = CrudParentConfig { name: "users", referenced_field: "id".into(), referencing_field: "user_id".into() };
    assert_eq!(s.get_parent_id(&parent), Some(3));
    let roles = CrudParentConfig { name: "roles", referenced_field: "id".into(), referencing_field: "role_id".into() };
    assert_eq!(s.get_parent_id(&roles), None);
}

#[test]
fn leaving_views() {
    assert_eq!(leave_decision(true, true), LeaveDecision::ShowLeaveModal);
    assert_eq!(leave_decision(true, false), LeaveDecision::Leave);
    assert_eq!(leave_decision(false, true), LeaveDecision::Stay);
}

#[test]
fn create_reactions() {
    let r = create_view_reaction(CreateOutcome::Saved { entity_id: 4, with_validation_errors: false }, Then::OpenEditView);
    assert!(matches!(r.as_slice(), [CreateEvent::EntityCreated { entity_id: 4, .. }, CreateEvent::OpenEditView(4)]));
    let r = create_view_reaction(CreateOutcome::Saved { entity_id: 4, with_validation_errors: true }, Then::OpenCreateView);
    assert!(matches!(r.as_slice(), [CreateEvent::EntityCreated { .. }, CreateEvent::OpenCreateView]));
    let r = create_view_reaction(CreateOutcome::Failed(RequestError("x".into())), Then::OpenListView);
    assert!(matches!(r.as_slice(), [CreateEvent::EntityCreationFailed(_)]));
    let r = create_view_reaction(CreateOutcome::CriticalValidationErrors, Then::OpenListView);
    assert!(matches!(r.as_slice(), [CreateEvent::EntityNotCreatedDueToCriticalErrors]));
}

#[test]
fn parent_reference_needs_parent_and_id() {
    let p = Some(CrudParentConfig { name: "users", referenced_field: "id".into(), referencing_field: "user_id".into() });
    let r = parent_reference(&p, Some(8)).unwrap();
    assert_eq!(r.column_name, "user_id");
    assert_eq!(r.value, 8);
    assert!(parent_reference(&p, None).is_none());
    assert!(parent_reference(&None, Some(8)).is_none());
}

#[test]
fn page_windows() {
    assert_eq!(page_window(10, 1), (10, 0));
    assert_eq!(page_window(25, 3), (25, 50));
}

#[test]
fn header_controls() {
    assert_eq!(order_sign(None), "&uarr;");
    assert_eq!(order_sign(Some(Order::Asc)), "&uarr;");
    assert_eq!(order_sign(Some(Order::Desc)), "&darr;");
    assert!(select_all_clicked(true, false));
    assert!(!select_all_clicked(true, true));
    assert!(with_actions(0, false, true, false));
    assert!(!with_actions(0, false, false, false));
    assert!(with_actions(2, false, false, false));
}

#[test]
fn buttons() {
    assert_eq!(size_class(Size::Small), "small");
    assert_eq!(size_class(Size::Normal), "normal");
    assert_eq!(size_class(Size::Big), "big");
    assert_eq!(inspect_children(&vec![]), (false, false));
    assert_eq!(inspect_children(&vec![Item::AlternativeAction, Item::Name]), (true, true));
    let mut b = CrudBtn::create(&vec![Item::AlternativeAction]);
    assert!(!b.has_custom_name && b.has_variations && !b.dropdown_open);
    assert_eq!(b.update(Msg::Clicked, true), (false, false));
    assert_eq!(b.update(Msg::Clicked, false), (false, true));
    assert_eq!(b.update(Msg::DropdownTriggerClicked, false), (true, false));
    assert!(b.dropdown_open);
    b.update(Msg::DropdownTriggerClicked, false);
    assert!(!b.dropdown_open);
    assert!(b.changed(&vec![Item::Name]));
    assert!(b.has_custom_name && !b.has_variations);
}

#[test]
fn related_values() {
    assert_eq!(value_as_u32(&Value::U32(3)), Some(3));
    assert_eq!(value_as_u32(&Value::OptionalU32(None)), None);
    assert_eq!(value_as_u32(&Value::OneToOneRelation(Some(4))), Some(4));
    assert_eq!(value_as_u32_vec(&Value::OptionalU32(Some(2))), vec![2]);
    assert_eq!(value_as_u32_vec(&Value::OneToOneRelation(None)), Vec::<u32>::new());
}

#[test]
fn related_selection() {
    let data = Some(Ok(vec![(100, Value::U32(1)), (101, Value::U32(2)), (102, Value::U32(2))]));
    assert_eq!(compute_selected(&Some(Value::OneToOneRelation(Some(1))), &data), Selection::Single(100));
    assert_eq!(compute_selected(&Some(Value::U32(2)), &data), Selection::Multiple(vec![101, 102]));
    assert_eq!(compute_selected(&Some(Value::U32(3)), &data), Selection::Empty);
    assert_eq!(compute_selected(&Some(Value::OptionalU32(None)), &data), Selection::Empty);
    assert_eq!(compute_selected(&None, &data), Selection::Empty);
    assert_eq!(compute_selected(&Some(Value::U32(1)), &None), Selection::Empty);
    assert_eq!(compute_selected(&Some(Value::U32(1)), &Some(Err(RequestError("x".into())))), Selection::Empty);
    assert_eq!(relation_value(Selection::Single(Value::U32(7))), Value::U32(7));
    assert_eq!(relation_value(Selection::Empty), Value::OneToOneRelation(None));
    assert_eq!(relation_value(Selection::Multiple(vec![Value::U32(1)])), Value::OneToOneRelation(None));
    assert_eq!(related_parent(CrudView::Read(3)), Some(3));
    assert_eq!(related_parent(CrudView::Create), None);
}

#[test]
fn text_helpers() {
    assert_eq!(format_u64(0), "0");
    assert_eq!(format_u64(1234567890), "1234567890");
    assert!(str_eq("Läuft", "Läuft"));
    assert!(!str_eq("a", "ab"));
    assert!(!str_eq("ab", "ac"));
    assert!(str_eq("", ""));
}

#[test]
fn close_delays() {
    assert_eq!(close_delay(ToastAutomaticallyClosing::No, 5000), None);
    assert_eq!(close_delay(ToastAutomaticallyClosing::WithDefaultDelay, 5000), Some(5000));
    assert_eq!(close_delay(ToastAutomaticallyClosing::WithDelay { millis: 4000 }, 5000), Some(4000));
}
