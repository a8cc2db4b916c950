use crudkit_leptos::action::{is_valid_in, offered_actions, ButtonColor, CrudAction, CrudActionAftermath, CrudEntityAction, States};
use crudkit_leptos::action_context::CrudActionContext;
use crudkit_leptos::instance::CrudInstanceContext;
use crudkit_leptos::instance_config::CrudMutableInstanceConfig;
use crudkit_leptos::toast::{Toast, ToastAutomaticallyClosing, ToastVariant};

#[test]
fn request_then_cancel() {
    let mut ctx = CrudActionContext::new();
    ctx.request_action("export");
    assert!(ctx.is_action_requested("export"));
    assert!(!ctx.is_action_requested("import"));
    ctx.cancel_action("export");
    assert!(!ctx.is_action_requested("export"));
    assert!(ctx.actions_requested.is_empty());
}

#[test]
fn trigger_then_finish() {
    let mut ctx = CrudActionContext::new();
    let mut instance = CrudInstanceContext::new(CrudMutableInstanceConfig::new("api".to_string()));
    let marker = instance.reload;
    ctx.request_action("export");
    let run = ctx.trigger_action("export", Some(7u32));
    assert_eq!(run.action_id, "export");
    assert_eq!(run.payload, Some(7));
    assert!(!ctx.is_action_requested("export"));
    assert!(ctx.is_action_executing("export"));
    let toast = Toast {
        variant: ToastVariant::Success,
        heading: "Export".to_string(),
        message: "Fertig".to_string(),
        dismissible: true,
        automatically_closing: ToastAutomaticallyClosing::WithDefaultDelay,
    };
    let shown = ctx.action_completed(
        "export",
        Err(CrudActionAftermath { show_toast: Some(toast), reload_data: false }),
        &mut instance,
    );
    assert_eq!(shown.map(|t| t.message), Some("Fertig".to_string()));
    assert!(!ctx.is_action_executing("export"));
    assert_eq!(instance.reload, marker);
    ctx.trigger_action::<u32>("export", None);
    let shown = ctx.action_completed(
        "export",
        Ok(CrudActionAftermath { show_toast: None, reload_data: true }),
        &mut instance,
    );
    assert!(shown.is_none());
    assert_ne!(instance.reload, marker);
}

#[test]
fn trigger_without_request() {
    let mut ctx = CrudActionContext::new();
    let run = ctx.trigger_entity_action("archive", vec![1i64, 2], Some("why"));
    assert_eq!(run.action_id, "archive");
    assert_eq!(run.update_model, vec![1, 2]);
    assert_eq!(run.payload, Some("why"));
    assert_eq!(ctx.actions_executing, vec!["archive"]);
    assert!(ctx.actions_requested.is_empty());
}

#[test]
fn cancel_removes_only_first_occurrence() {
    let mut ctx = CrudActionContext::new();
    ctx.request_action("a");
    ctx.request_action("b");
    ctx.request_action("a");
    ctx.cancel_action("a");
    assert_eq!(ctx.actions_requested, vec!["b", "a"]);
}

#[test]
fn ids_compare_by_text() {
    let owned = String::from("exp") + "ort";
    let leaked: &'static str = Box::leak(owned.into_boxed_str());
    let mut ctx = CrudActionContext::new();
    ctx.request_action("export");
    assert!(ctx.is_action_requested(leaked));
}

#[test]
fn valid_in_states() {
    assert!(is_valid_in(&vec![States::Read, States::Update], States::Update));
    assert!(!is_valid_in(&vec![States::Read], States::Create));
    assert!(!is_valid_in(&vec![], States::Read));
}

#[test]
fn aftermath_holds_reload_flag() {
    let a = CrudActionAftermath { show_toast: None, reload_data: true };
    assert!(a.reload_data);
}

#[test]
fn actions_compare_by_what_they_show() {
    let a = CrudAction { id: "export", name: "Export".to_string(), icon: Some(3), button_color: ButtonColor::Primary };
    let b = CrudAction { id: "export", name: "Export".to_string(), icon: Some(3), button_color: ButtonColor::Primary };
    let c = CrudAction { id: "export", name: "Export".to_string(), icon: None, button_color: ButtonColor::Primary };
    assert!(a == b);
    assert!(a != c);
    let e = CrudEntityAction {
        id: "approve",
        name: "Approve".to_string(),
        icon: None,
        button_color: ButtonColor::Success,
        valid_in: vec![States::Read, States::Update],
    };
    let mut f = CrudEntityAction {
        id: "approve",
        name: "Approve".to_string(),
        icon: None,
        button_color: ButtonColor::Success,
        valid_in: vec![States::Read, States::Update],
    };
    assert!(e == f);
    f.valid_in = vec![States::Update, States::Read];
    assert!(e != f);
    f.valid_in = vec![States::Read, States::Update];
    f.name = "Reject".to_string();
    assert!(e != f);
}

#[test]
fn actions_offered_per_view() {
    let action = |id: &'static str, valid_in: Vec<States>| CrudEntityAction {
        id,
        name: id.to_string(),
        icon: None,
        button_color: ButtonColor::Secondary,
        valid_in,
    };
    let actions = vec![
        action("approve", vec![States::Read, States::Update]),
        action("archive", vec![States::Update]),
        action("preview", vec![States::Read]),
    ];
    assert_eq!(offered_actions(&actions, States::Update), vec!["approve", "archive"]);
    assert_eq!(offered_actions(&actions, States::Read), vec!["approve", "preview"]);
    assert!(offered_actions(&actions, States::Create).is_empty());
}
