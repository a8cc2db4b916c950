use crudkit_leptos::create_view::CrudCreateView;
use crudkit_leptos::delete::RequestError;
use crudkit_leptos::order::{Order, OrderBy};
use crudkit_leptos::pagination::page_count;
use crudkit_leptos::selection::CrudListViewContext;
use crudkit_leptos::view::NoDataAvailable;
use crudkit_leptos::view_logic::{
    fetched_entity, header_orders, table_body_content, CreateEvent, CreateOutcome, LeaveDecision,
    TableBodyContent, Then,
};

#[test]
fn create_view_tracks_input() {
    let mut view = CrudCreateView::new(vec![0, 0, 0]);
    assert!(!view.input_changed());
    assert!(view.save_disabled());
    view.value_changed(1, Ok(7));
    assert_eq!(view.input, vec![0, 7, 0]);
    assert!(view.input_changed());
    assert!(!view.save_disabled());
    view.value_changed(2, Err("not a number".to_string()));
    assert_eq!(view.input_errors.get(&2).map(|s| s.as_str()), Some("not a number"));
    view.value_changed(2, Ok(1));
    assert!(view.input_errors.get(&2).is_none());
    view.value_changed(1, Ok(0));
    view.value_changed(2, Ok(0));
    assert!(!view.input_changed());
}

#[test]
fn create_view_leaving() {
    let mut view = CrudCreateView::new(vec![0]);
    assert_eq!(view.request_leave(), LeaveDecision::Leave);
    assert!(!view.show_leave_modal);
    let mut view = CrudCreateView::new(vec![0]);
    view.value_changed(0, Ok(3));
    assert_eq!(view.request_leave(), LeaveDecision::ShowLeaveModal);
    assert!(view.show_leave_modal);
    view.cancel_leave();
    assert!(!view.show_leave_modal);
    assert!(!view.user_wants_to_leave);
    view.request_leave();
    view.accept_leave();
    assert!(!view.show_leave_modal);
}

#[test]
fn create_view_saving() {
    let mut view = CrudCreateView::new(vec![0, 0]);
    view.value_changed(0, Ok(5));
    let (input, then) = view.save(Then::OpenListView);
    assert_eq!(input, vec![5, 0]);
    assert_eq!(then, Then::OpenListView);
    assert!(view.save_pending);
    assert!(view.save_disabled());
    let events = view.save_finished(
        CreateOutcome::Saved { entity_id: 12, with_validation_errors: false },
        Then::OpenEditView,
    );
    assert!(!view.save_pending);
    assert_eq!(events.len(), 2);
    assert!(matches!(events[1], CreateEvent::OpenEditView(12)));
    let events = view.save_finished(CreateOutcome::Failed(RequestError("down".into())), Then::OpenEditView);
    assert!(matches!(&events[0], CreateEvent::EntityCreationFailed(RequestError(e)) if e == "down"));
}

#[test]
fn headers_show_their_order() {
    let mut order_by = OrderBy::new();
    order_by.insert(2, Order::Desc);
    order_by.insert(0, Order::Asc);
    let h = header_orders(&vec![0, 1, 2], &order_by);
    assert_eq!(h, vec![(0, Some(Order::Asc)), (1, None), (2, Some(Order::Desc))]);
}

#[test]
fn table_body_contents() {
    assert_eq!(table_body_content(&Ok(vec![])), TableBodyContent::NoData);
    assert_eq!(table_body_content(&Ok(vec![1, 2])), TableBodyContent::Rows);
    assert_eq!(table_body_content(&Err(NoDataAvailable::NotYetLoaded)), TableBodyContent::Blank);
    assert_eq!(
        table_body_content(&Err(NoDataAvailable::RequestFailed("timeout".into()))),
        TableBodyContent::Unavailable("timeout".into())
    );
}

#[test]
fn fetched_entities() {
    assert_eq!(fetched_entity::<u64>(None), Err(NoDataAvailable::NotYetLoaded));
    assert_eq!(fetched_entity(Some(Ok(Some(4u64)))), Ok(4));
    assert_eq!(
        fetched_entity::<u64>(Some(Ok(None))),
        Err(NoDataAvailable::RequestReturnedNoData("Eintrag existiert nicht.".into()))
    );
    assert_eq!(
        fetched_entity::<u64>(Some(Err(RequestError("500".into())))),
        Err(NoDataAvailable::RequestFailed("500".into()))
    );
}

#[test]
fn selected_rows() {
    let mut ctx = CrudListViewContext::new(Ok(vec![1, 2, 3]));
    ctx.toggle_entity_selection(2);
    assert!(ctx.is_selected(2));
    assert!(!ctx.is_selected(3));
}

#[test]
fn pages_hold_all_items() {
    // 25 items, 10 per page: three pages, the last one holding five items.
    let pages = page_count(25, 10);
    assert_eq!(pages, 3);
    assert!(pages * 10 >= 25 && (pages - 1) * 10 < 25);
    assert_eq!(page_count(30, 10), 3);
    assert_eq!(page_count(0, 10), 0);
}

#[test]
fn header_clicks() {
    let r = crudkit_leptos::view_logic::header_clicked(3, true);
    assert_eq!(r.map(|(f, o)| (f, o.append)), Some((3, false)));
    assert!(crudkit_leptos::view_logic::header_clicked(3, false).is_none());
}

#[test]
fn later_renderer_registration_replaces_earlier() {
    let registry = crudkit_leptos::renderer_registry::FieldRendererRegistry::builder()
        .register(1, "text")
        .register(2, "date")
        .register(1, "markdown")
        .build();
    assert_eq!(registry.renderer_for(1), Some(&"markdown"));
    assert_eq!(registry.renderer_for(2), Some(&"date"));
    assert_eq!(registry.renderer_for(3), None);
}

#[test]
fn page_requests() {
    let mut order_by = OrderBy::new();
    order_by.insert(2, Order::Desc);
    order_by.insert(0, Order::Asc);
    let r = crudkit_leptos::view_logic::page_request(20, 3, &order_by, Some("active"));
    assert_eq!(r.limit, Some(20));
    assert_eq!(r.skip, Some(40));
    assert_eq!(r.order_by, Some(vec![(2, Order::Desc), (0, Order::Asc)]));
    assert_eq!(r.condition, Some("active"));
    let first = crudkit_leptos::view_logic::page_request::<u8>(10, 1, &OrderBy::new(), None);
    assert_eq!(first.skip, Some(0));
    assert_eq!(first.order_by, Some(vec![]));
    assert!(first.condition.is_none());
}
