use crudkit_leptos::action::CrudActionAftermath;
use crudkit_leptos::delete::{DeleteResult, RequestError};
use crudkit_leptos::instance_component::{CreateOrUpdateField, CrudInstance, Forward, Msg, ViewLink};
use crudkit_leptos::instance_config::{CrudMutableInstanceConfig, ItemsPerPage, PageNr};
use crudkit_leptos::order::{Order, OrderByUpdateOptions};
use crudkit_leptos::toast::{ToastAutomaticallyClosing, ToastVariant};
use crudkit_leptos::view::{CrudView, DeletableModel};

fn instance() -> CrudInstance {
    CrudInstance::new(CrudMutableInstanceConfig::new("api".into()), false)
}

#[test]
fn switching_views_stores_config() {
    let mut i = instance();
    let e = i.update(Msg::Edit(4));
    assert!(e.rerender && e.store_config);
    assert_eq!(i.config.view, CrudView::Edit(4));
    let e = i.update(Msg::Read(4));
    assert!(e.store_config);
    assert_eq!(i.config.view, CrudView::Read(4));
    i.update(Msg::Create);
    assert_eq!(i.config.view, CrudView::Create);
    i.update(Msg::List);
    assert_eq!(i.config.view, CrudView::List);
}

#[test]
fn entity_created_opens_edit_view_and_notifies() {
    let mut i = instance();
    let e = i.update(Msg::EntityCreated { with_validation_errors: false, entity_id: 8, suggested_view: None });
    assert_eq!(i.config.view, CrudView::Edit(8));
    let t = e.toast.unwrap();
    assert_eq!(t.variant, ToastVariant::Success);
    assert_eq!(t.heading, "Erstellt");
    assert_eq!(t.message, "Der Eintrag wurde erfolgreich erstellt.");
    let e = i.update(Msg::EntityCreated { with_validation_errors: true, entity_id: 9, suggested_view: Some(CrudView::List) });
    assert_eq!(i.config.view, CrudView::List);
    let t = e.toast.unwrap();
    assert_eq!(t.variant, ToastVariant::Warn);
    assert_eq!(t.message, "Der Eintrag wurde mit Validierungsfehlern erstellt.");
}

#[test]
fn failure_messages() {
    let mut i = instance();
    let t = i.update(Msg::EntityCreationAborted("no".into())).toast.unwrap();
    assert_eq!(t.heading, "Nicht erstellt");
    assert_eq!(t.message, "Speichern abgebrochen: no");
    assert_eq!(t.automatically_closing, ToastAutomaticallyClosing::WithDelay { millis: 4000 });
    let t = i.update(Msg::EntityCreationFailed(RequestError("offline".into()))).toast.unwrap();
    assert_eq!(t.message, "Der Eintrag konnte nicht erstellt werden: offline.");
    let t = i.update(Msg::EntityNotUpdatedDueToCriticalErrors).toast.unwrap();
    assert_eq!(t.heading, "Nicht aktualisiert");
    assert_eq!(t.message, "Kritische Validierungsfehler verhindern das Speichern.");
    let t = i.update(Msg::EntityUpdateFailed(RequestError("500".into()))).toast.unwrap();
    assert_eq!(t.message, "Der Eintrag konnte nicht aktualisiert werden: 500.");
    let e = i.update(Msg::EntityUpdated { with_validation_errors: false });
    assert!(e.rerender);
    assert_eq!(e.toast.unwrap().message, "Eintrag wurde erfolgreich gespeichert.");
}

#[test]
fn deleting_the_edited_entity_returns_to_list() {
    let mut i = instance();
    i.update(Msg::Edit(5));
    i.update(Msg::Delete(DeletableModel::Update(5)));
    let e = i.update(Msg::DeleteApproved);
    assert_eq!(e.delete_entity, Some(5));
    let e = i.update(Msg::Deleted(Ok(DeleteResult::Deleted(1))));
    assert!(e.store_config);
    assert_eq!(i.config.view, CrudView::List);
    assert_eq!(i.entity_to_delete, None);
}

#[test]
fn deleting_another_entity_keeps_view() {
    let mut i = instance();
    i.update(Msg::Read(5));
    i.update(Msg::Delete(DeletableModel::Read(6)));
    let e = i.update(Msg::Deleted(Ok(DeleteResult::Deleted(1))));
    assert!(!e.store_config);
    assert_eq!(i.config.view, CrudView::Read(5));
    assert_eq!(i.entity_to_delete, None);
}

#[test]
fn aborted_deletion_keeps_request() {
    let mut i = instance();
    i.update(Msg::Delete(DeletableModel::Read(6)));
    let e = i.update(Msg::Deleted(Ok(DeleteResult::Aborted { reason: "in use".into() })));
    let t = e.toast.unwrap();
    assert_eq!(t.heading, "Entfernen");
    assert_eq!(t.message, "Entfernen abgebrochen: in use");
    assert_eq!(i.entity_to_delete, Some(DeletableModel::Read(6)));
    i.update(Msg::DeleteCanceled);
    assert_eq!(i.entity_to_delete, None);
    assert_eq!(i.update(Msg::DeleteApproved).delete_entity, None);
}

#[test]
fn settings_and_reset() {
    let mut i = instance();
    i.update(Msg::PageSelected(4));
    i.update(Msg::ItemCountSelected(25));
    i.update(Msg::TabSelected("Details".into()));
    let e = i.update(Msg::OrderBy(3, OrderByUpdateOptions { append: false }));
    assert!(e.store_config && !e.rerender);
    assert_eq!(i.config.page, PageNr(4));
    assert_eq!(i.config.items_per_page, ItemsPerPage(25));
    assert_eq!(i.config.active_tab.as_deref(), Some("Details"));
    assert_eq!(i.config.order_by.get(3), Some(Order::Asc));
    let e = i.update(Msg::Reset);
    assert!(e.send_reload && e.store_config && e.rerender);
    assert_eq!(i.config.page, PageNr(1));
    assert_eq!(i.config.items_per_page, ItemsPerPage(10));
    assert_eq!(i.config.active_tab, None);
    assert_eq!(i.config.order_by.len(), 0);
}

#[test]
fn input_is_forwarded_to_matching_view() {
    let mut i = instance();
    assert_eq!(i.update(Msg::SaveInput(CreateOrUpdateField::CreateField(1))).forward, None);
    i.update(Msg::ViewLinked(Some(ViewLink::Create)));
    assert_eq!(
        i.update(Msg::SaveInput(CreateOrUpdateField::CreateField(1))).forward,
        Some(Forward::SaveInputToCreate(1))
    );
    assert_eq!(i.update(Msg::SaveInput(CreateOrUpdateField::UpdateField(1))).forward, None);
    i.update(Msg::ViewLinked(Some(ViewLink::Edit)));
    assert_eq!(
        i.update(Msg::GetInput(CreateOrUpdateField::UpdateField(2))).forward,
        Some(Forward::GetInputFromEdit(2))
    );
    assert_eq!(i.update(Msg::Reload).forward, Some(Forward::ReloadEdit));
    i.update(Msg::ViewLinked(Some(ViewLink::List)));
    assert_eq!(i.update(Msg::Reload).forward, Some(Forward::ReloadList));
}

#[test]
fn nested_instance_follows_parent() {
    let mut i = CrudInstance::new(CrudMutableInstanceConfig::new("api".into()), true);
    let e = i.update(Msg::InstanceViewsStoreUpdated(Some(CrudView::Edit(12))));
    assert_eq!(e.set_base_condition, Some(Some(12)));
    assert_eq!(i.parent_id, Some(12));
    let e = i.update(Msg::InstanceViewsStoreUpdated(Some(CrudView::List)));
    assert_eq!(e.set_base_condition, Some(None));
    assert_eq!(i.parent_id, None);
    let e = i.update(Msg::InstanceViewsStoreUpdated(None));
    assert!(!e.rerender);
    let mut flat = instance();
    let e = flat.update(Msg::InstanceViewsStoreUpdated(Some(CrudView::Edit(1))));
    assert_eq!(e.set_base_condition, None);
}

#[test]
fn action_aftermath_is_passed_on() {
    let mut i = instance();
    let e = i.update(Msg::GlobalAction(CrudActionAftermath { show_toast: None, reload_data: true }));
    assert!(e.send_reload);
    let e = i.update(Msg::CustomEntityAction(CrudActionAftermath { show_toast: None, reload_data: false }));
    assert!(!e.send_reload);
    let e = i.update(Msg::EntityAction);
    assert!(!e.rerender);
}

#[test]
fn stored_config_replaces_current() {
    let mut i = instance();
    let mut stored = CrudMutableInstanceConfig::new("other".into());
    stored.page = PageNr(7);
    let e = i.update(Msg::InstanceConfigStoreUpdated(Some(stored)));
    assert!(e.rerender);
    assert_eq!(i.config.page, PageNr(7));
    let e = i.update(Msg::InstanceConfigStoreUpdated(None));
    assert!(!e.rerender);
    assert_eq!(i.config.page, PageNr(7));
}
