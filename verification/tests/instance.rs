use crudkit_leptos::action::CrudActionAftermath;
use crudkit_leptos::delete::{handle_delete_result, DeleteResult, RequestError};
use crudkit_leptos::instance::CrudInstanceContext;
use crudkit_leptos::instance_config::{CrudMutableInstanceConfig, ItemsPerPage, PageNr};
use crudkit_leptos::order::{Order, OrderByUpdateOptions};
use crudkit_leptos::toast::{Toast, ToastAutomaticallyClosing, ToastVariant};
use crudkit_leptos::view::{CrudView, DeletableModel};

fn config() -> CrudMutableInstanceConfig {
    let mut c = CrudMutableInstanceConfig::new("http://localhost/api".to_string());
    c.order_by.insert(1, Order::Asc);
    c
}

#[test]
fn defaults_of_config() {
    let c = CrudMutableInstanceConfig::new(String::new());
    assert_eq!(c.view, CrudView::List);
    assert_eq!(c.items_per_page, ItemsPerPage(10));
    assert_eq!(c.page, PageNr(1));
    assert_eq!(ItemsPerPage::default(), ItemsPerPage(10));
    assert_eq!(PageNr::default(), PageNr::first());
    assert_eq!(c.order_by.len(), 0);
}

#[test]
fn navigation() {
    let mut ctx = CrudInstanceContext::new(config());
    ctx.create();
    assert_eq!(ctx.view, CrudView::Create);
    ctx.read(4);
    assert_eq!(ctx.view, CrudView::Read(4));
    ctx.edit(4);
    assert_eq!(ctx.view, CrudView::Edit(4));
    ctx.list();
    assert_eq!(ctx.view, CrudView::List);
}

#[test]
fn reset_reverts_every_change() {
    let mut ctx = CrudInstanceContext::new(config());
    ctx.edit(9);
    ctx.set_page(PageNr(3));
    ctx.set_items_per_page(ItemsPerPage(50));
    ctx.oder_by(2, OrderByUpdateOptions { append: false });
    ctx.request_deletion_of(DeletableModel::Update(9));
    ctx.reset();
    assert_eq!(ctx.view, CrudView::List);
    assert_eq!(ctx.current_page, PageNr(1));
    assert_eq!(ctx.items_per_page, ItemsPerPage(10));
    assert_eq!(ctx.order_by.len(), 1);
    assert_eq!(ctx.order_by.get(1), Some(Order::Asc));
    assert_eq!(ctx.deletion_request, None);
}

#[test]
fn action_outcome_reloads_when_asked() {
    let mut ctx = CrudInstanceContext::new(config());
    let before = ctx.reload;
    let toast = ctx.handle_action_outcome(Err(CrudActionAftermath { show_toast: None, reload_data: false }));
    assert!(toast.is_none());
    assert_eq!(ctx.reload, before);
    let shown = Toast {
        variant: ToastVariant::Info,
        heading: "h".into(),
        message: "m".into(),
        dismissible: true,
        automatically_closing: ToastAutomaticallyClosing::No,
    };
    let toast = ctx.handle_action_outcome(Ok(CrudActionAftermath { show_toast: Some(shown.clone()), reload_data: true }));
    assert_eq!(toast, Some(shown));
    assert_ne!(ctx.reload, before);
}

#[test]
fn reload_draws_a_fresh_marker() {
    let mut ctx = CrudInstanceContext::new(config());
    let first = ctx.reload;
    ctx.reload();
    let second = ctx.reload;
    ctx.reload();
    // Random version-4 markers; a repetition is practically impossible.
    assert_ne!(second, first);
    assert_ne!(ctx.reload, second);
    assert_eq!(ctx.reload.get_version_num(), 4);
}

#[test]
fn deletion_finished_returns_to_list() {
    let mut ctx = CrudInstanceContext::new(config());
    ctx.edit(3);
    ctx.request_deletion_of(DeletableModel::Update(3));
    let before = ctx.reload;
    let toast = ctx.deletion_finished(&Ok(DeleteResult::Deleted(1)));
    assert_eq!(ctx.view, CrudView::List);
    assert_eq!(ctx.deletion_request, None);
    assert_ne!(ctx.reload, before);
    assert_eq!(toast.variant, ToastVariant::Success);
    assert_eq!(toast.message, "1 Eintrag erfolgreich gelöscht.");
}

#[test]
fn cancel_deletion() {
    let mut ctx = CrudInstanceContext::new(config());
    ctx.request_deletion_of(DeletableModel::Read(2));
    assert_eq!(ctx.deletion_request, Some(DeletableModel::Read(2)));
    ctx.cancel_deletion();
    assert_eq!(ctx.deletion_request, None);
}

#[test]
fn delete_toasts() {
    let t = handle_delete_result(&Ok(DeleteResult::Deleted(3)));
    assert_eq!(t.heading, "Löschen");
    assert_eq!(t.message, "3 Einträge erfolgreich gelöscht.");
    assert_eq!(t.automatically_closing, ToastAutomaticallyClosing::WithDefaultDelay);
    let t = handle_delete_result(&Ok(DeleteResult::Deleted(0)));
    assert_eq!(t.message, "0 Einträge erfolgreich gelöscht.");
    let t = handle_delete_result(&Ok(DeleteResult::Aborted { reason: "locked".into() }));
    assert_eq!(t.variant, ToastVariant::Warn);
    assert_eq!(t.heading, "Delete");
    assert_eq!(t.message, "Löschvorgang abgebrochen. Grund: locked");
    let t = handle_delete_result(&Ok(DeleteResult::CriticalValidationErrors));
    assert_eq!(t.variant, ToastVariant::Error);
    assert_eq!(t.message, "CriticalValidationErrors");
    let t = handle_delete_result(&Err(RequestError("Timeout".into())));
    assert_eq!(t.variant, ToastVariant::Error);
    assert_eq!(t.message, "Konnte Eintrag nicht Löschen: Timeout");
}

#[test]
fn deletable_model_id() {
    assert_eq!(DeletableModel::Read(5).id(), 5);
    assert_eq!(DeletableModel::Update(6).id(), 6);
    assert_eq!(CrudView::Read(5).entity_id(), Some(5));
    assert_eq!(CrudView::Create.entity_id(), None);
    assert_eq!(CrudView::default(), CrudView::List);
}

#[test]
fn list_view_found_unaltered_after_editing() {
    let mut ctx = CrudInstanceContext::new(config());
    ctx.set_page(PageNr(3));
    ctx.set_items_per_page(ItemsPerPage(50));
    ctx.oder_by(2, OrderByUpdateOptions { append: true });
    ctx.edit(17);
    ctx.reload();
    ctx.list();
    assert_eq!(ctx.view, CrudView::List);
    assert_eq!(ctx.current_page, PageNr(3));
    assert_eq!(ctx.items_per_page, ItemsPerPage(50));
    assert_eq!(ctx.order_by.get_index(0), Some((1, Order::Asc)));
    assert_eq!(ctx.order_by.get_index(1), Some((2, Order::Asc)));
    assert_eq!(ctx.order_by.len(), 2);
}
