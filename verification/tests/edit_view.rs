use crudkit_leptos::action::CrudActionAftermath;
use crudkit_leptos::delete::RequestError;
use crudkit_leptos::edit_view::{
    CrudEditView, EditEvent, EditRequest, EntityState, Msg, NoData, SaveResult, Then,
};

fn loaded() -> CrudEditView {
    let mut v = CrudEditView::new();
    v.update(Msg::LoadedEntity(Ok(Some(vec![1, 2, 3]))));
    v
}

#[test]
fn starts_unloaded() {
    let v = CrudEditView::new();
    assert!(v.input.is_none());
    assert!(matches!(v.entity, EntityState::Missing { reason: NoData::NotYetLoaded, shown: false, clock_running: true }));
    assert!(!v.is_save_disabled());
    assert!(!v.is_delete_disabled());
}

#[test]
fn loading_sets_input() {
    let v = loaded();
    assert_eq!(v.input, Some(vec![1, 2, 3]));
    assert!(!v.input_dirty);
}

#[test]
fn loading_failure_is_shown() {
    let mut v = CrudEditView::new();
    v.update(Msg::LoadedEntity(Ok(None)));
    assert!(matches!(v.entity, EntityState::Missing { reason: NoData::FetchReturnedNothing, shown: true, clock_running: false }));
    v.update(Msg::LoadedEntity(Err(RequestError("down".into()))));
    assert!(matches!(v.entity, EntityState::Missing { reason: NoData::FetchFailed(_), shown: true, .. }));
}

#[test]
fn show_error_reveals_reason() {
    let mut v = CrudEditView::new();
    let e = v.update(Msg::ShowError);
    assert!(e.rerender);
    assert!(matches!(v.entity, EntityState::Missing { reason: NoData::NotYetLoaded, shown: true, clock_running: false }));
    let mut l = loaded();
    assert!(!l.update(Msg::ShowError).rerender);
}

#[test]
fn changes_make_input_dirty_until_reverted() {
    let mut v = loaded();
    v.update(Msg::ValueChanged(1, Ok(7)));
    assert!(v.input_dirty);
    assert_eq!(v.input, Some(vec![1, 7, 3]));
    v.update(Msg::ValueChanged(1, Ok(2)));
    assert!(!v.input_dirty);
}

#[test]
fn unreadable_input_disables_save() {
    let mut v = loaded();
    v.update(Msg::ValueChanged(0, Err("not a number".into())));
    assert!(v.is_save_disabled());
    v.update(Msg::ValueChanged(0, Ok(5)));
    assert!(!v.is_save_disabled());
}

#[test]
fn back_with_and_without_changes() {
    let mut v = loaded();
    let e = v.update(Msg::Back);
    assert!(matches!(e.events.as_slice(), [EditEvent::List]));
    let mut v = loaded();
    v.update(Msg::ValueChanged(2, Ok(0)));
    let e = v.update(Msg::Back);
    assert!(e.rerender && e.events.is_empty());
    assert!(v.user_wants_to_leave);
    v.update(Msg::BackCanceled);
    assert!(!v.user_wants_to_leave);
    let e = v.update(Msg::BackApproved);
    assert!(matches!(e.events.as_slice(), [EditEvent::List]));
}

#[test]
fn save_requests_and_results() {
    let mut v = loaded();
    v.update(Msg::ValueChanged(0, Ok(9)));
    let e = v.update(Msg::SaveAndReturn);
    assert!(matches!(e.request, Some(EditRequest::Save(ref x, Then::OpenListView)) if *x == vec![9, 2, 3]));
    let e = v.update(Msg::UpdatedEntity(
        Ok(SaveResult::Saved { entity: vec![9, 2, 3], with_validation_errors: false }),
        Then::OpenListView,
    ));
    assert!(!v.input_dirty);
    assert!(matches!(e.events.as_slice(), [EditEvent::EntityUpdated { .. }, EditEvent::List]));
    let e = v.update(Msg::UpdatedEntity(Ok(SaveResult::Aborted { reason: "x".into() }), Then::DoNothing));
    assert!(matches!(e.events.as_slice(), [EditEvent::EntityUpdateAborted(r)] if r == "x"));
    let e = v.update(Msg::UpdatedEntity(Err(RequestError("y".into())), Then::DoNothing));
    assert!(matches!(e.events.as_slice(), [EditEvent::EntityUpdateFailed(_)]));
    assert!(matches!(v.entity, EntityState::Missing { reason: NoData::UpdateFailed(_), .. }));
}

#[test]
fn delete_reports_loaded_entity() {
    let mut v = loaded();
    let e = v.update(Msg::Delete);
    assert!(matches!(e.events.as_slice(), [EditEvent::Delete(x)] if *x == vec![1, 2, 3]));
    let mut n = CrudEditView::new();
    assert!(n.update(Msg::Delete).events.is_empty());
}

#[test]
fn get_input_replies_with_value() {
    let mut v = loaded();
    assert!(matches!(v.update(Msg::GetInput(2)).request, Some(EditRequest::Reply(3))));
}

#[test]
fn actions_are_tracked() {
    let mut v = loaded();
    assert!(v.update(Msg::ActionInitialized("archive")).rerender);
    assert_eq!(v.user_wants_to_activate, vec!["archive"]);
    assert!(v.update(Msg::ActionCancelled("archive")).rerender);
    assert!(!v.update(Msg::ActionCancelled("archive")).rerender);
    v.update(Msg::ActionInitialized("archive"));
    let e = v.update(Msg::ActionTriggered("archive"));
    assert!(e.rerender);
    assert!(v.user_wants_to_activate.is_empty());
    assert_eq!(v.actions_executing, vec!["archive"]);
    assert!(!v.update(Msg::ActionTriggered("archive")).rerender);
    let e = v.update(Msg::ActionExecuted("archive", Ok(CrudActionAftermath { show_toast: None, reload_data: true })));
    assert!(e.rerender);
    assert!(v.actions_executing.is_empty());
    assert!(matches!(e.events.as_slice(), [EditEvent::EntityAction(a)] if a.reload_data));
    assert!(matches!(v.update(Msg::Reload).request, Some(EditRequest::Load)));
}

#[test]
fn failed_action_reports_its_aftermath() {
    let mut v = loaded();
    let toast = crudkit_leptos::toast::Toast {
        variant: crudkit_leptos::toast::ToastVariant::Error,
        heading: "Fehler".to_string(),
        message: "Archivieren fehlgeschlagen".to_string(),
        dismissible: true,
        automatically_closing: crudkit_leptos::toast::ToastAutomaticallyClosing::No,
    };
    let e = v.update(Msg::ActionExecuted(
        "archive",
        Err(CrudActionAftermath { show_toast: Some(toast), reload_data: false }),
    ));
    assert!(!e.rerender);
    assert!(matches!(e.events.as_slice(),
        [EditEvent::EntityAction(a)] if !a.reload_data
            && a.show_toast.as_ref().map(|t| t.message.as_str()) == Some("Archivieren fehlgeschlagen")));
}

#[test]
fn unreadable_value_keeps_entity_and_disables_saving() {
    let mut v = loaded();
    let e = v.update(Msg::ValueChanged(1, Err("no number".to_string())));
    assert!(!e.rerender);
    assert!(matches!(&v.entity, EntityState::Loaded(x) if *x == vec![1, 2, 3]));
    assert_eq!(v.input, Some(vec![1, 2, 3]));
    assert!(v.is_save_disabled());
}
