use crudkit_leptos::delete::RequestError;
use crudkit_leptos::related_field::{CrudRelatedField, Msg as RelatedMsg, Value};
use crudkit_leptos::selection::Selection;
use crudkit_leptos::toast::{Toast, ToastAutomaticallyClosing, ToastVariant};
use crudkit_leptos::toasts::{CrudToasts, Msg, ShownToast};
use crudkit_leptos::view::CrudView;

fn shown(id: u128, created_at: i128, closing: ToastAutomaticallyClosing, callback: bool) -> ShownToast {
    ShownToast {
        id,
        created_at,
        toast: Toast {
            variant: ToastVariant::Info,
            heading: format!("Heading {}", id),
            message: "Message".to_string(),
            dismissible: true,
            automatically_closing: closing,
        },
        has_close_callback: callback,
    }
}

#[test]
fn toasts_follow_the_store() {
    let mut toasts = CrudToasts::new(5000);
    let a = shown(1, 30, ToastAutomaticallyClosing::WithDefaultDelay, false);
    let b = shown(2, 10, ToastAutomaticallyClosing::No, true);
    let c = shown(3, 20, ToastAutomaticallyClosing::WithDelay { millis: 700 }, false);
    let e = toasts.update(Msg::ToastsUpdated(vec![a.clone(), b.clone(), c.clone()]));
    assert!(e.rerender);
    assert_eq!(e.start_timers, vec![(30, 5000), (20, 700)]);
    assert!(e.dropped.is_empty());
    assert_eq!(toasts.toasts.keys().cloned().collect::<Vec<_>>(), vec![10, 20, 30]);
    assert_eq!(toasts.toasts.get(&30).unwrap().timeout, Some(5000));
    assert_eq!(toasts.toasts.get(&10).unwrap().timeout, None);

    // The same store again changes nothing.
    let e = toasts.update(Msg::ToastsUpdated(vec![a.clone(), b.clone(), c.clone()]));
    assert!(e.start_timers.is_empty());
    assert!(e.dropped.is_empty());
    assert_eq!(toasts.toasts.len(), 3);

    // Two notifications leave the store; they leave the screen in creation order.
    let e = toasts.update(Msg::ToastsUpdated(vec![c.clone()]));
    assert_eq!(e.dropped, vec![10, 30]);
    assert!(e.close_callbacks.is_empty());
    assert_eq!(toasts.toasts.keys().cloned().collect::<Vec<_>>(), vec![20]);
}

#[test]
fn changed_toast_is_replaced() {
    let mut toasts = CrudToasts::new(5000);
    let a = shown(1, 30, ToastAutomaticallyClosing::No, false);
    toasts.update(Msg::ToastsUpdated(vec![a.clone()]));
    let mut changed = a.clone();
    changed.toast.message = "Other".to_string();
    let e = toasts.update(Msg::ToastsUpdated(vec![changed]));
    assert_eq!(e.dropped, vec![30]);
    assert_eq!(toasts.toasts.get(&30).unwrap().toast.toast.message, "Other");
}

#[test]
fn toast_times_out() {
    let mut toasts = CrudToasts::new(5000);
    let a = shown(7, 30, ToastAutomaticallyClosing::WithDefaultDelay, true);
    toasts.update(Msg::ToastsUpdated(vec![a.clone()]));
    let e = toasts.update(Msg::ToastTimedOut(a.clone()));
    assert!(e.rerender);
    assert_eq!(e.close_callbacks, vec![30]);
    assert_eq!(e.remove_from_store, Some(7));
    assert!(toasts.toasts.is_empty());
    // A second time: the notification is gone already.
    let e = toasts.update(Msg::ToastTimedOut(a));
    assert!(e.close_callbacks.is_empty());
    assert_eq!(e.remove_from_store, None);
}

#[test]
fn toasts_destroyed() {
    let mut toasts = CrudToasts::new(5000);
    let a = shown(1, 30, ToastAutomaticallyClosing::No, true);
    let b = shown(2, 10, ToastAutomaticallyClosing::No, false);
    let c = shown(3, 20, ToastAutomaticallyClosing::No, true);
    toasts.update(Msg::ToastsUpdated(vec![a, b, c]));
    let e = toasts.destroy();
    assert_eq!(e.dropped, vec![10, 20, 30]);
    assert_eq!(e.close_callbacks, vec![20, 30]);
    assert!(e.remove_all_from_store);
    assert!(toasts.toasts.is_empty());
}

#[test]
fn related_field_messages() {
    let mut field = CrudRelatedField::new();
    let e = field.update(RelatedMsg::ParentInstanceLinksStoreUpdated { parent_found: true });
    assert!(e.request_current_value);
    assert!(!e.rerender);

    let e = field.update(RelatedMsg::InstanceViewsStoreUpdated(Some(CrudView::Edit(42))));
    assert_eq!(e.load_related_of, Some(42));
    let e = field.update(RelatedMsg::InstanceViewsStoreUpdated(Some(CrudView::List)));
    assert_eq!(e.load_related_of, None);

    let e = field.update(RelatedMsg::CurrentValue(Value::OneToOneRelation(Some(5))));
    assert!(e.rerender);
    assert_eq!(field.selected, Selection::Empty);

    let data = vec![(100, Value::U32(4)), (101, Value::U32(5)), (102, Value::U32(6))];
    let e = field.update(RelatedMsg::LoadedData(Ok(data)));
    assert!(e.rerender);
    assert_eq!(field.selected, Selection::Single(101));

    let e = field.update(RelatedMsg::SelectionChanged(Selection::Single((102, Value::U32(6)))));
    assert_eq!(e.save_value, Some(Value::U32(6)));
    assert_eq!(field.selected, Selection::Single(102));

    let e = field.update(RelatedMsg::SelectionChanged(Selection::Multiple(vec![
        (100, Value::U32(4)),
        (101, Value::U32(5)),
    ])));
    assert_eq!(e.save_value, Some(Value::OneToOneRelation(None)));
    assert_eq!(field.selected, Selection::Multiple(vec![100, 101]));

    let e = field.update(RelatedMsg::LoadedData(Err(RequestError("down".to_string()))));
    assert!(e.rerender);
    assert_eq!(field.selected, Selection::Empty);
}

#[test]
fn related_field_without_parent_saves_nothing() {
    let mut field = CrudRelatedField::new();
    let e = field.update(RelatedMsg::SelectionChanged(Selection::Single((1, Value::U32(1)))));
    assert_eq!(e.save_value, None);
    assert_eq!(field.selected, Selection::Single(1));
}
