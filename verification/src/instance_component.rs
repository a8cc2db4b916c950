//! The event handling of a CRUD instance component: it receives messages from its
//! views and stores, decides the next state, and tells its caller what to do next
//! (re-render, store the configuration, show a notification, start a request, forward
//! a message to the current view).

use vstd::prelude::*;
use vstd::string::*;
use crate::action::CrudActionAftermath;
use crate::delete::{DeleteResult, RequestError};
use crate::instance_config::{CrudMutableInstanceConfig, ItemsPerPage, PageNr};
use crate::order::{FieldId, OrderByUpdateOptions, spec_update_order_by};
use crate::toast::{Toast, ToastAutomaticallyClosing, ToastVariant};
use crate::view::{CrudView, DeletableModel, EntityId};

verus! {

/// The view that registered its link with the instance.
#[derive(Debug, Clone, Copy, PartialEq, Eq, Structural)]
pub enum ViewLink {
    List,
    Create,
    Edit,
    Read,
}

/// A field of the create model or of the update model.
#[derive(Debug, Clone, Copy, PartialEq, Eq, Structural)]
pub enum CreateOrUpdateField {
    CreateField(FieldId),
    UpdateField(FieldId),
}

/// A message the instance forwards to its current view.
#[derive(Debug, Clone, Copy, PartialEq, Eq, Structural)]
pub enum Forward {
    /// Hand a new field value to the create view.
    SaveInputToCreate(FieldId),
    /// Hand a new field value to the edit view.
    SaveInputToEdit(FieldId),
    /// Ask the create view for a field's value.
    GetInputFromCreate(FieldId),
    /// Ask the edit view for a field's value.
    GetInputFromEdit(FieldId),
    /// Make the list view reload its data.
    ReloadList,
    /// Make the edit view reload its entity.
    ReloadEdit,
}

/// A message to the instance.
pub enum Msg {
    /// The instance store changed; holds the configuration stored under this instance's
    /// name, if any.
    InstanceConfigStoreUpdated(Option<CrudMutableInstanceConfig>),
    /// The views store changed; holds the view of the parent instance, if it is known.
    InstanceViewsStoreUpdated(Option<CrudView>),
    ViewLinked(Option<ViewLink>),
    List,
    Create,
    EntityCreated { with_validation_errors: bool, entity_id: EntityId, suggested_view: Option<CrudView> },
    EntityCreationAborted(String),
    EntityNotCreatedDueToCriticalErrors,
    EntityCreationFailed(RequestError),
    EntityUpdated { with_validation_errors: bool },
    EntityUpdateAborted(String),
    EntityNotUpdatedDueToCriticalErrors,
    EntityUpdateFailed(RequestError),
    Read(EntityId),
    Edit(EntityId),
    Delete(DeletableModel),
    DeleteCanceled,
    DeleteApproved,
    Deleted(Result<DeleteResult, RequestError>),
    OrderBy(FieldId, OrderByUpdateOptions),
    PageSelected(u64),
    ItemCountSelected(u64),
    TabSelected(String),
    EntityAction,
    CustomEntityAction(CrudActionAftermath),
    GlobalAction(CrudActionAftermath),
    SaveInput(CreateOrUpdateField),
    GetInput(CreateOrUpdateField),
    Reset,
    Reload,
}

/// What the caller must do after a message was handled.
pub struct InstanceEffects {
    /// Re-render the instance.
    pub rerender: bool,
    /// Save the configuration and the current view to the stores.
    pub store_config: bool,
    /// Show this notification.
    pub toast: Option<Toast>,
    /// Send the instance a `Reload` message.
    pub send_reload: bool,
    /// Send a request deleting this entity.
    pub delete_entity: Option<EntityId>,
    /// Restrict the data to entities referencing this parent (`Some(Some(id))`), or lift
    /// the restriction (`Some(None)`).
    pub set_base_condition: Option<Option<EntityId>>,
    /// Forward a message to the current view.
    pub forward: Option<Forward>,
}

/// Effects that only ask for a re-render, or for nothing.
pub open spec fn plain(e: InstanceEffects, rerender: bool) -> bool {
    &&& e.rerender == rerender
    &&& !e.store_config
    &&& e.toast is None
    &&& !e.send_reload
    &&& e.delete_entity is None
    &&& e.set_base_condition is None
    &&& e.forward is None
}

/// A notification with the given contents.
pub open spec fn is_toast(
    t: Option<Toast>,
    variant: ToastVariant,
    heading: Seq<char>,
    message: Seq<char>,
    closing: ToastAutomaticallyClosing,
) -> bool {
    &&& t is Some
    &&& t->0.variant == variant
    &&& t->0.heading@ == heading
    &&& t->0.message@ == message
    &&& !t->0.dismissible
    &&& t->0.automatically_closing == closing
}

/// The message shown when saving failed because of critical validation errors.
pub open spec fn critical_errors_message() -> Seq<char> {
    "Kritische Validierungsfehler verhindern das Speichern."@
}

/// The view to switch to after an entity was deleted: the list view, when the deleted
/// entity is the one being read or edited.
pub open spec fn view_after_deletion(view: CrudView, deleted: Option<DeletableModel>) -> Option<CrudView> {
    match (deleted, view) {
        (Some(DeletableModel::Read(rid)), CrudView::Read(id)) => if id == rid {
            Some(CrudView::List)
        } else {
            None
        },
        (Some(DeletableModel::Read(rid)), CrudView::Edit(id)) => if id == rid {
            Some(CrudView::List)
        } else {
            None
        },
        (Some(DeletableModel::Update(uid)), CrudView::Edit(id)) => if id == uid {
            Some(CrudView::List)
        } else {
            None
        },
        _ => None,
    }
}

/// Where a `SaveInput` message for `field` goes, given the current view.
pub open spec fn save_input_target(link: Option<ViewLink>, field: CreateOrUpdateField) -> Option<Forward> {
    match (link, field) {
        (Some(ViewLink::Create), CreateOrUpdateField::CreateField(f)) => Some(
            Forward::SaveInputToCreate(f),
        ),
        (Some(ViewLink::Edit), CreateOrUpdateField::UpdateField(f)) => Some(
            Forward::SaveInputToEdit(f),
        ),
        _ => None,
    }
}

/// Where a `GetInput` message for `field` goes, given the current view.
pub open spec fn get_input_target(link: Option<ViewLink>, field: CreateOrUpdateField) -> Option<Forward> {
    match (link, field) {
        (Some(ViewLink::Create), CreateOrUpdateField::CreateField(f)) => Some(
            Forward::GetInputFromCreate(f),
        ),
        (Some(ViewLink::Edit), CreateOrUpdateField::UpdateField(f)) => Some(
            Forward::GetInputFromEdit(f),
        ),
        _ => None,
    }
}

fn no_effects(rerender: bool) -> (e: InstanceEffects)
    ensures
        plain(e, rerender),
{
    InstanceEffects {
        rerender,
        store_config: false,
        toast: None,
        send_reload: false,
        delete_entity: None,
        set_base_condition: None,
        forward: None,
    }
}

fn make_toast(
    variant: ToastVariant,
    heading: &str,
    message: String,
    closing: ToastAutomaticallyClosing,
) -> (t: Option<Toast>)
    ensures
        is_toast(t, variant, heading@, message@, closing),
{
    Some(
        Toast {
            variant,
            heading: String::from_str(heading),
            message,
            dismissible: false,
            automatically_closing: closing,
        },
    )
}

fn toast_effects(t: Option<Toast>) -> (e: InstanceEffects)
    ensures
        e.toast == t,
        !e.rerender,
        !e.store_config,
        !e.send_reload,
        e.delete_entity is None,
        e.set_base_condition is None,
        e.forward is None,
{
    InstanceEffects {
        rerender: false,
        store_config: false,
        toast: t,
        send_reload: false,
        delete_entity: None,
        set_base_condition: None,
        forward: None,
    }
}

fn concat2(a: &str, b: &str) -> (r: String)
    ensures
        r@ == a@ + b@,
{
    let mut s = String::from_str(a);
    s.append(b);
    s
}

fn concat3(a: &str, b: &str, c: &str) -> (r: String)
    ensures
        r@ == a@ + b@ + c@,
{
    let mut s = String::from_str(a);
    s.append(b);
    s.append(c);
    s
}

/// The state of a CRUD instance component.
pub struct CrudInstance {
    /// The configuration the instance was created with.
    pub default_config: CrudMutableInstanceConfig,
    /// The current configuration.
    pub config: CrudMutableInstanceConfig,
    /// Whether the instance is nested in a parent instance.
    pub nested: bool,
    /// The view that registered its link, once one did.
    pub view_link: Option<ViewLink>,
    /// The entity whose deletion awaits confirmation.
    pub entity_to_delete: Option<DeletableModel>,
    /// The id of the parent's entity, for a nested instance.
    pub parent_id: Option<EntityId>,
}

impl CrudInstance {
    /// The configurations hold each ordering field at most once.
    pub open spec fn wf(&self) -> bool {
        self.default_config.wf() && self.config.wf()
    }

    /// A freshly created instance. Its configuration must name the API it works with.
    pub fn new(config: CrudMutableInstanceConfig, nested: bool) -> (r: Self)
        requires
            config.wf(),
            config.api_base_url@.len() > 0,
        ensures
            r.wf(),
            r.default_config.same_as(&config),
            r.config.same_as(&config),
            r.nested == nested,
            r.view_link is None,
            r.entity_to_delete is None,
            r.parent_id is None,
    {
        let current = config.duplicate();
        CrudInstance {
            default_config: config,
            config: current,
            nested,
            view_link: None,
            entity_to_delete: None,
            parent_id: None,
        }
    }

    fn set_view(&mut self, view: CrudView) -> (e: InstanceEffects)
        ensures
            final(self).config.view == view,
            final(self).config.api_base_url == old(self).config.api_base_url,
            final(self).config.order_by == old(self).config.order_by,
            final(self).config.items_per_page == old(self).config.items_per_page,
            final(self).config.page == old(self).config.page,
            final(self).config.active_tab == old(self).config.active_tab,
            final(self).default_config == old(self).default_config,
            final(self).nested == old(self).nested,
            final(self).view_link == old(self).view_link,
            final(self).entity_to_delete == old(self).entity_to_delete,
            final(self).parent_id == old(self).parent_id,
            e.rerender,
            e.store_config,
            e.toast is None,
            !e.send_reload,
            e.delete_entity is None,
            e.set_base_condition is None,
            e.forward is None,
    {
        self.config.view = view;
        InstanceEffects {
            rerender: true,
            store_config: true,
            toast: None,
            send_reload: false,
            delete_entity: None,
            set_base_condition: None,
            forward: None,
        }
    }

    fn aftermath(a: CrudActionAftermath) -> (e: InstanceEffects)
        ensures
            e.toast == a.show_toast,
            e.send_reload == a.reload_data,
            !e.rerender,
            !e.store_config,
            e.delete_entity is None,
            e.set_base_condition is None,
            e.forward is None,
    {
        InstanceEffects {
            rerender: false,
            store_config: false,
            toast: a.show_toast,
            send_reload: a.reload_data,
            delete_entity: None,
            set_base_condition: None,
            forward: None,
        }
    }

    /// Handles one message: updates the state and returns what the caller must do.
    pub fn update(&mut self, msg: Msg) -> (e: InstanceEffects)
        requires
            old(self).wf(),
            msg matches Msg::InstanceConfigStoreUpdated(Some(c)) ==> c.wf(),
            msg is Reload ==> !(old(self).view_link matches Some(ViewLink::Create))
                && !(old(self).view_link matches Some(ViewLink::Read)),
        ensures
            final(self).wf(),
            final(self).default_config == old(self).default_config,
            final(self).nested == old(self).nested,
            !(msg is ViewLinked) ==> final(self).view_link == old(self).view_link,
            !(msg is InstanceViewsStoreUpdated) ==> final(self).parent_id == old(self).parent_id,
            !(msg is Delete || msg is DeleteCanceled || msg is Deleted) ==> final(self).entity_to_delete
                == old(self).entity_to_delete,
            !(msg is InstanceConfigStoreUpdated || msg is Reset) ==> {
                &&& final(self).config.api_base_url == old(self).config.api_base_url
                &&& (!(msg is OrderBy) ==> final(self).config.order_by == old(self).config.order_by)
                &&& (!(msg is PageSelected) ==> final(self).config.page == old(self).config.page)
                &&& (!(msg is ItemCountSelected) ==> final(self).config.items_per_page
                    == old(self).config.items_per_page)
                &&& (!(msg is TabSelected) ==> final(self).config.active_tab
                    == old(self).config.active_tab)
                &&& (!(msg is List || msg is Create || msg is Read || msg is Edit
                    || msg is EntityCreated || msg is Deleted) ==> final(self).config.view
                    == old(self).config.view)
            },
            !(msg is InstanceViewsStoreUpdated) ==> e.set_base_condition is None,
            !(msg is DeleteApproved) ==> e.delete_entity is None,
            !(msg is SaveInput || msg is GetInput || msg is Reload) ==> e.forward is None,
            !(msg is CustomEntityAction || msg is GlobalAction || msg is Reset) ==> !e.send_reload,
            msg matches Msg::Deleted(Ok(DeleteResult::Deleted(_))) ==> (if ({
                ||| (old(self).entity_to_delete matches Some(DeletableModel::Read(k))
                    && (old(self).config.view == CrudView::Read(k) || old(self).config.view
                    == CrudView::Edit(k)))
                ||| (old(self).entity_to_delete matches Some(DeletableModel::Update(k))
                    && old(self).config.view == CrudView::Edit(k))
            }) {
                final(self).config.view == CrudView::List && e.store_config
            } else {
                final(self).config.view == old(self).config.view && !e.store_config
            }),
            msg matches Msg::SaveInput(CreateOrUpdateField::UpdateField(f)) ==> e.forward == (if old(
                self,
            ).view_link == Some(ViewLink::Edit) {
                Some(Forward::SaveInputToEdit(f))
            } else {
                None
            }),
            msg matches Msg::SaveInput(CreateOrUpdateField::CreateField(f)) ==> e.forward == (if old(
                self,
            ).view_link == Some(ViewLink::Create) {
                Some(Forward::SaveInputToCreate(f))
            } else {
                None
            }),
            msg matches Msg::GetInput(CreateOrUpdateField::UpdateField(f)) ==> e.forward == (if old(
                self,
            ).view_link == Some(ViewLink::Edit) {
                Some(Forward::GetInputFromEdit(f))
            } else {
                None
            }),
            msg matches Msg::GetInput(CreateOrUpdateField::CreateField(f)) ==> e.forward == (if old(
                self,
            ).view_link == Some(ViewLink::Create) {
                Some(Forward::GetInputFromCreate(f))
            } else {
                None
            }),
            !(msg is EntityCreated || msg is EntityCreationAborted
                || msg is EntityNotCreatedDueToCriticalErrors || msg is EntityCreationFailed
                || msg is EntityUpdated || msg is EntityUpdateAborted
                || msg is EntityNotUpdatedDueToCriticalErrors || msg is EntityUpdateFailed
                || msg is Deleted || msg is CustomEntityAction || msg is GlobalAction)
                ==> e.toast is None,
            match msg {
                Msg::InstanceConfigStoreUpdated(stored) => {
                    &&& match stored {
                        Some(c) => final(self).config == c && plain(e, true),
                        None => final(self).config == old(self).config && plain(e, false),
                    }
                    &&& final(self).view_link == old(self).view_link
                    &&& final(self).entity_to_delete == old(self).entity_to_delete
                    &&& final(self).parent_id == old(self).parent_id
                },
                Msg::InstanceViewsStoreUpdated(parent_view) => {
                    &&& final(self).config == old(self).config
                    &&& final(self).view_link == old(self).view_link
                    &&& final(self).entity_to_delete == old(self).entity_to_delete
                    &&& if old(self).nested && parent_view is Some {
                        let id = match parent_view->0 {
                            CrudView::Read(id) => Some(id),
                            CrudView::Edit(id) => Some(id),
                            _ => None,
                        };
                        &&& final(self).parent_id == id
                        &&& e.set_base_condition == Some(id)
                        &&& e.rerender
                        &&& !e.store_config && e.toast is None && !e.send_reload
                        &&& e.delete_entity is None && e.forward is None
                    } else {
                        final(self).parent_id == old(self).parent_id && plain(e, false)
                    }
                },
                Msg::ViewLinked(link) => {
                    &&& final(self).view_link == link
                    &&& final(self).config == old(self).config
                    &&& final(self).entity_to_delete == old(self).entity_to_delete
                    &&& final(self).parent_id == old(self).parent_id
                    &&& plain(e, false)
                },
                Msg::List | Msg::Create | Msg::Read(_) | Msg::Edit(_) => {
                    &&& final(self).config.view == match msg {
                        Msg::List => CrudView::List,
                        Msg::Create => CrudView::Create,
                        Msg::Read(id) => CrudView::Read(id),
                        Msg::Edit(id) => CrudView::Edit(id),
                        _ => CrudView::List,
                    }
                    &&& final(self).config.order_by == old(self).config.order_by
                    &&& final(self).config.page == old(self).config.page
                    &&& final(self).config.items_per_page == old(self).config.items_per_page
                    &&& final(self).entity_to_delete == old(self).entity_to_delete
                    &&& e.rerender && e.store_config && e.toast is None
                },
                Msg::EntityCreated { with_validation_errors, entity_id, suggested_view } => {
                    &&& final(self).config.view == match suggested_view {
                        Some(v) => v,
                        None => CrudView::Edit(entity_id),
                    }
                    &&& e.rerender && e.store_config
                    &&& is_toast(
                        e.toast,
                        if with_validation_errors {
                            ToastVariant::Warn
                        } else {
                            ToastVariant::Success
                        },
                        "Erstellt"@,
                        if with_validation_errors {
                            "Der Eintrag wurde mit Validierungsfehlern erstellt."@
                        } else {
                            "Der Eintrag wurde erfolgreich erstellt."@
                        },
                        ToastAutomaticallyClosing::WithDefaultDelay,
                    )
                },
                Msg::EntityCreationAborted(reason) => {
                    &&& final(self).config == old(self).config
                    &&& !e.rerender && !e.store_config
                    &&& is_toast(
                        e.toast,
                        ToastVariant::Error,
                        "Nicht erstellt"@,
                        "Speichern abgebrochen: "@ + reason@,
                        ToastAutomaticallyClosing::WithDelay { millis: 4000 },
                    )
                },
                Msg::EntityNotCreatedDueToCriticalErrors => {
                    &&& final(self).config == old(self).config
                    &&& !e.rerender && !e.store_config
                    &&& is_toast(
                        e.toast,
                        ToastVariant::Error,
                        "Nicht erstellt"@,
                        critical_errors_message(),
                        ToastAutomaticallyClosing::WithDelay { millis: 4000 },
                    )
                },
                Msg::EntityCreationFailed(err) => {
                    &&& final(self).config == old(self).config
                    &&& !e.rerender && !e.store_config
                    &&& is_toast(
                        e.toast,
                        ToastVariant::Error,
                        "Nicht erstellt"@,
                        "Der Eintrag konnte nicht erstellt werden: "@ + err.0@ + "."@,
                        ToastAutomaticallyClosing::WithDelay { millis: 4000 },
                    )
                },
                Msg::EntityUpdated { with_validation_errors } => {
                    &&& final(self).config == old(self).config
                    &&& e.rerender && !e.store_config
                    &&& is_toast(
                        e.toast,
                        if with_validation_errors {
                            ToastVariant::Warn
                        } else {
                            ToastVariant::Success
                        },
                        "Gespeichert"@,
                        if with_validation_errors {
                            "Eintrag wurde mit Validierungsfehlern gespeichert."@
                        } else {
                            "Eintrag wurde erfolgreich gespeichert."@
                        },
                        ToastAutomaticallyClosing::WithDefaultDelay,
                    )
                },
                Msg::EntityUpdateAborted(reason) => {
                    &&& final(self).config == old(self).config
                    &&& !e.rerender && !e.store_config
                    &&& is_toast(
                        e.toast,
                        ToastVariant::Error,
                        "Nicht aktualisiert"@,
                        "Speichern abgebrochen: "@ + reason@,
                        ToastAutomaticallyClosing::WithDelay { millis: 4000 },
                    )
                },
                Msg::EntityNotUpdatedDueToCriticalErrors => {
                    &&& final(self).config == old(self).config
                    &&& !e.rerender && !e.store_config
                    &&& is_toast(
                        e.toast,
                        ToastVariant::Error,
                        "Nicht aktualisiert"@,
                        critical_errors_message(),
                        ToastAutomaticallyClosing::WithDelay { millis: 4000 },
                    )
                },
                Msg::EntityUpdateFailed(err) => {
                    &&& final(self).config == old(self).config
                    &&& !e.rerender && !e.store_config
                    &&& is_toast(
                        e.toast,
                        ToastVariant::Error,
                        "Nicht aktualisiert"@,
                        "Der Eintrag konnte nicht aktualisiert werden: "@ + err.0@ + "."@,
                        ToastAutomaticallyClosing::WithDelay { millis: 4000 },
                    )
                },
                Msg::Delete(model) => {
                    &&& final(self).entity_to_delete == Some(model)
                    &&& final(self).config == old(self).config
                    &&& plain(e, true)
                },
                Msg::DeleteCanceled => {
                    &&& final(self).entity_to_delete is None
                    &&& final(self).config == old(self).config
                    &&& plain(e, true)
                },
                Msg::DeleteApproved => {
                    &&& final(self).entity_to_delete == old(self).entity_to_delete
                    &&& final(self).config == old(self).config
                    &&& e.delete_entity == match old(self).entity_to_delete {
                        Some(m) => Some(m.key()),
                        None => None,
                    }
                    &&& !e.rerender && !e.store_config && e.toast is None && !e.send_reload
                    &&& e.forward is None && e.set_base_condition is None
                },
                Msg::Deleted(result) => match result {
                    Ok(DeleteResult::Deleted(_)) => {
                        &&& final(self).entity_to_delete is None
                        &&& final(self).config.view == match view_after_deletion(
                            old(self).config.view,
                            old(self).entity_to_delete,
                        ) {
                            Some(v) => v,
                            None => old(self).config.view,
                        }
                        &&& e.store_config == view_after_deletion(
                            old(self).config.view,
                            old(self).entity_to_delete,
                        ) is Some
                        &&& e.rerender && e.toast is None && !e.send_reload
                    },
                    Ok(DeleteResult::Aborted { reason }) => {
                        &&& final(self).entity_to_delete == old(self).entity_to_delete
                        &&& final(self).config == old(self).config
                        &&& !e.rerender && !e.store_config
                        &&& is_toast(
                            e.toast,
                            ToastVariant::Error,
                            "Entfernen"@,
                            "Entfernen abgebrochen: "@ + reason@,
                            ToastAutomaticallyClosing::WithDelay { millis: 4000 },
                        )
                    },
                    _ => {
                        &&& final(self).entity_to_delete == old(self).entity_to_delete
                        &&& final(self).config == old(self).config
                        &&& plain(e, false)
                    },
                },
                Msg::OrderBy(field, options) => {
                    &&& final(self).config.order_by@ == spec_update_order_by(
                        old(self).config.order_by@,
                        field,
                        options.append,
                    )
                    &&& final(self).config.view == old(self).config.view
                    &&& final(self).config.page == old(self).config.page
                    &&& final(self).config.items_per_page == old(self).config.items_per_page
                    &&& !e.rerender && e.store_config && e.toast is None
                },
                Msg::PageSelected(page) => {
                    &&& final(self).config.page == PageNr(page)
                    &&& final(self).config.view == old(self).config.view
                    &&& final(self).config.items_per_page == old(self).config.items_per_page
                    &&& final(self).config.order_by == old(self).config.order_by
                    &&& !e.rerender && e.store_config && e.toast is None
                },
                Msg::ItemCountSelected(n) => {
                    &&& final(self).config.items_per_page == ItemsPerPage(n)
                    &&& final(self).config.view == old(self).config.view
                    &&& final(self).config.page == old(self).config.page
                    &&& final(self).config.order_by == old(self).config.order_by
                    &&& !e.rerender && e.store_config && e.toast is None
                },
                Msg::TabSelected(label) => {
                    &&& final(self).config.active_tab == Some(label)
                    &&& final(self).config.view == old(self).config.view
                    &&& final(self).config.page == old(self).config.page
                    &&& final(self).config.order_by == old(self).config.order_by
                    &&& !e.rerender && e.store_config && e.toast is None
                },
                Msg::EntityAction => {
                    &&& final(self).config == old(self).config
                    &&& final(self).entity_to_delete == old(self).entity_to_delete
                    &&& plain(e, false)
                },
                Msg::CustomEntityAction(a) | Msg::GlobalAction(a) => {
                    &&& final(self).config == old(self).config
                    &&& e.toast == a.show_toast
                    &&& e.send_reload == a.reload_data
                    &&& !e.rerender && !e.store_config
                },
                Msg::SaveInput(field) => {
                    &&& final(self).config == old(self).config
                    &&& e.forward == save_input_target(old(self).view_link, field)
                    &&& !e.rerender && !e.store_config && e.toast is None && !e.send_reload
                },
                Msg::GetInput(field) => {
                    &&& final(self).config == old(self).config
                    &&& e.forward == get_input_target(old(self).view_link, field)
                    &&& !e.rerender && !e.store_config && e.toast is None && !e.send_reload
                },
                Msg::Reset => {
                    &&& final(self).config.same_as(&old(self).default_config)
                    &&& e.rerender && e.store_config && e.send_reload && e.toast is None
                },
                Msg::Reload => {
                    &&& final(self).config == old(self).config
                    &&& e.forward == match old(self).view_link {
                        Some(ViewLink::List) => Some(Forward::ReloadList),
                        Some(ViewLink::Edit) => Some(Forward::ReloadEdit),
                        _ => None,
                    }
                    &&& e.rerender && !e.store_config && e.toast is None && !e.send_reload
                },
            },
    {
        match msg {
            Msg::InstanceConfigStoreUpdated(stored) => match stored {
                Some(config) => {
                    self.config = config;
                    no_effects(true)
                },
                None => no_effects(false),
            },
            Msg::InstanceViewsStoreUpdated(parent_view) => {
                if self.nested {
                    match parent_view {
                        Some(parent_view) => {
                            let parent_id = parent_view.entity_id();
                            self.parent_id = parent_id;
                            InstanceEffects {
                                rerender: true,
                                store_config: false,
                                toast: None,
                                send_reload: false,
                                delete_entity: None,
                                set_base_condition: Some(parent_id),
                                forward: None,
                            }
                        },
                        None => no_effects(false),
                    }
                } else {
                    no_effects(false)
                }
            },
            Msg::ViewLinked(view_link) => {
                self.view_link = view_link;
                no_effects(false)
            },
            Msg::EntityAction => no_effects(false),
            Msg::CustomEntityAction(action) => Self::aftermath(action),
            Msg::GlobalAction(action) => Self::aftermath(action),
            Msg::List => self.set_view(CrudView::List),
            Msg::Create => self.set_view(CrudView::Create),
            Msg::EntityCreated { with_validation_errors, entity_id, suggested_view } => {
                let view = match suggested_view {
                    Some(v) => v,
                    None => CrudView::Edit(entity_id),
                };
                let mut e = self.set_view(view);
                let (variant, message) = if with_validation_errors {
                    (
                        ToastVariant::Warn,
                        String::from_str("Der Eintrag wurde mit Validierungsfehlern erstellt."),
                    )
                } else {
                    (ToastVariant::Success, String::from_str("Der Eintrag wurde erfolgreich erstellt."))
                };
                e.toast = make_toast(
                    variant,
                    "Erstellt",
                    message,
                    ToastAutomaticallyClosing::WithDefaultDelay,
                );
                e
            },
            Msg::EntityCreationAborted(reason) => toast_effects(
                make_toast(
                    ToastVariant::Error,
                    "Nicht erstellt",
                    concat2("Speichern abgebrochen: ", reason.as_str()),
                    ToastAutomaticallyClosing::WithDelay { millis: 4000 },
                ),
            ),
            Msg::EntityNotCreatedDueToCriticalErrors => toast_effects(
                make_toast(
                    ToastVariant::Error,
                    "Nicht erstellt",
                    String::from_str("Kritische Validierungsfehler verhindern das Speichern."),
                    ToastAutomaticallyClosing::WithDelay { millis: 4000 },
                ),
            ),
            Msg::EntityCreationFailed(request_error) => toast_effects(
                make_toast(
                    ToastVariant::Error,
                    "Nicht erstellt",
                    concat3(
                        "Der Eintrag konnte nicht erstellt werden: ",
                        request_error.0.as_str(),
                        ".",
                    ),
                    ToastAutomaticallyClosing::WithDelay { millis: 4000 },
                ),
            ),
            Msg::EntityUpdated { with_validation_errors } => {
                let (variant, message) = if with_validation_errors {
                    (
                        ToastVariant::Warn,
                        String::from_str("Eintrag wurde mit Validierungsfehlern gespeichert."),
                    )
                } else {
                    (ToastVariant::Success, String::from_str("Eintrag wurde erfolgreich gespeichert."))
                };
                let mut e = toast_effects(
                    make_toast(
                        variant,
                        "Gespeichert",
                        message,
                        ToastAutomaticallyClosing::WithDefaultDelay,
                    ),
                );
                e.rerender = true;
                e
            },
            Msg::EntityUpdateAborted(reason) => toast_effects(
                make_toast(
                    ToastVariant::Error,
                    "Nicht aktualisiert",
                    concat2("Speichern abgebrochen: ", reason.as_str()),
                    ToastAutomaticallyClosing::WithDelay { millis: 4000 },
                ),
            ),
            Msg::EntityNotUpdatedDueToCriticalErrors => toast_effects(
                make_toast(
                    ToastVariant::Error,
                    "Nicht aktualisiert",
                    String::from_str("Kritische Validierungsfehler verhindern das Speichern."),
                    ToastAutomaticallyClosing::WithDelay { millis: 4000 },
                ),
            ),
            Msg::EntityUpdateFailed(request_error) => toast_effects(
                make_toast(
                    ToastVariant::Error,
                    "Nicht aktualisiert",
                    concat3(
                        "Der Eintrag konnte nicht aktualisiert werden: ",
                        request_error.0.as_str(),
                        ".",
                    ),
                    ToastAutomaticallyClosing::WithDelay { millis: 4000 },
                ),
            ),
            Msg::Read(id) => self.set_view(CrudView::Read(id)),
            Msg::Edit(id) => self.set_view(CrudView::Edit(id)),
            Msg::Delete(deletable_model) => {
                self.entity_to_delete = Some(deletable_model);
                no_effects(true)
            },
            Msg::DeleteCanceled => {
                self.entity_to_delete = None;
                no_effects(true)
            },
            Msg::DeleteApproved => {
                let mut e = no_effects(false);
                match &self.entity_to_delete {
                    Some(deletable_model) => {
                        e.delete_entity = Some(deletable_model.id());
                    },
                    None => {},
                }
                e
            },
            Msg::Deleted(result) => match result {
                Ok(DeleteResult::Deleted(_amount)) => {
                    let switch = match (self.entity_to_delete, self.config.view) {
                        (Some(DeletableModel::Read(rid)), CrudView::Read(id)) => id == rid,
                        (Some(DeletableModel::Read(rid)), CrudView::Edit(id)) => id == rid,
                        (Some(DeletableModel::Update(uid)), CrudView::Edit(id)) => id == uid,
                        _ => false,
                    };
                    let e = if switch {
                        self.set_view(CrudView::List)
                    } else {
                        no_effects(true)
                    };
                    self.entity_to_delete = None;
                    e
                },
                Ok(DeleteResult::Aborted { reason }) => toast_effects(
                    make_toast(
                        ToastVariant::Error,
                        "Entfernen",
                        concat2("Entfernen abgebrochen: ", reason.as_str()),
                        ToastAutomaticallyClosing::WithDelay { millis: 4000 },
                    ),
                ),
                Ok(DeleteResult::CriticalValidationErrors) => no_effects(false),
                Err(_err) => no_effects(false),
            },
            Msg::OrderBy(field, options) => {
                self.config.update_order_by(field, options);
                let mut e = no_effects(false);
                e.store_config = true;
                e
            },
            Msg::PageSelected(page) => {
                self.config.page = PageNr(page);
                let mut e = no_effects(false);
                e.store_config = true;
                e
            },
            Msg::ItemCountSelected(items_per_page) => {
                self.config.items_per_page = ItemsPerPage(items_per_page);
                let mut e = no_effects(false);
                e.store_config = true;
                e
            },
            Msg::TabSelected(label) => {
                self.config.active_tab = Some(label);
                let mut e = no_effects(false);
                e.store_config = true;
                e
            },
            Msg::SaveInput(field) => {
                let mut e = no_effects(false);
                e.forward = match (self.view_link, field) {
                    (Some(ViewLink::Create), CreateOrUpdateField::CreateField(f)) => Some(
                        Forward::SaveInputToCreate(f),
                    ),
                    (Some(ViewLink::Edit), CreateOrUpdateField::UpdateField(f)) => Some(
                        Forward::SaveInputToEdit(f),
                    ),
                    _ => None,
                };
                e
            },
            Msg::GetInput(field) => {
                let mut e = no_effects(false);
                e.forward = match (self.view_link, field) {
                    (Some(ViewLink::Create), CreateOrUpdateField::CreateField(f)) => Some(
                        Forward::GetInputFromCreate(f),
                    ),
                    (Some(ViewLink::Edit), CreateOrUpdateField::UpdateField(f)) => Some(
                        Forward::GetInputFromEdit(f),
                    ),
                    _ => None,
                };
                e
            },
            Msg::Reset => {
                self.config = self.default_config.duplicate();
                InstanceEffects {
                    rerender: true,
                    store_config: true,
                    toast: None,
                    send_reload: true,
                    delete_entity: None,
                    set_base_condition: None,
                    forward: None,
                }
            },
            Msg::Reload => {
                let mut e = no_effects(true);
                e.forward = match self.view_link {
                    Some(ViewLink::List) => Some(Forward::ReloadList),
                    Some(ViewLink::Edit) => Some(Forward::ReloadEdit),
                    _ => None,
                };
                e
            },
        }
    }
}

/// Deleting the entity a read or edit view shows sends the instance back to the list;
/// deleting another entity, or deleting from the list or create view, keeps the view.
pub proof fn lemma_deleting_shown_entity_returns_to_list(k: EntityId, other: EntityId)
    requires
        other != k,
    ensures
        view_after_deletion(CrudView::Read(k), Some(DeletableModel::Read(k))) == Some(CrudView::List),
        view_after_deletion(CrudView::Edit(k), Some(DeletableModel::Read(k))) == Some(CrudView::List),
        view_after_deletion(CrudView::Edit(k), Some(DeletableModel::Update(k))) == Some(
            CrudView::List,
        ),
        view_after_deletion(CrudView::Read(other), Some(DeletableModel::Read(k))) is None,
        view_after_deletion(CrudView::Edit(other), Some(DeletableModel::Update(k))) is None,
        view_after_deletion(CrudView::List, Some(DeletableModel::Read(k))) is None,
        view_after_deletion(CrudView::Create, Some(DeletableModel::Update(k))) is None,
        view_after_deletion(CrudView::Read(k), None) is None,
{
}

/// A field's input reaches the view it belongs to: a changed value of a create-model
/// field goes to a linked create view, one of an update-model field to a linked edit
/// view; a request for a value is asked of the same view. Nothing goes to a view the
/// field does not belong to.
pub proof fn lemma_input_reaches_its_view(f: FieldId)
    ensures
        save_input_target(Some(ViewLink::Create), CreateOrUpdateField::CreateField(f)) == Some(
            Forward::SaveInputToCreate(f),
        ),
        save_input_target(Some(ViewLink::Edit), CreateOrUpdateField::UpdateField(f)) == Some(
            Forward::SaveInputToEdit(f),
        ),
        get_input_target(Some(ViewLink::Create), CreateOrUpdateField::CreateField(f)) == Some(
            Forward::GetInputFromCreate(f),
        ),
        get_input_target(Some(ViewLink::Edit), CreateOrUpdateField::UpdateField(f)) == Some(
            Forward::GetInputFromEdit(f),
        ),
        save_input_target(Some(ViewLink::Edit), CreateOrUpdateField::CreateField(f)) is None,
        save_input_target(Some(ViewLink::Create), CreateOrUpdateField::UpdateField(f)) is None,
        get_input_target(Some(ViewLink::Edit), CreateOrUpdateField::CreateField(f)) is None,
        get_input_target(Some(ViewLink::Create), CreateOrUpdateField::UpdateField(f)) is None,
        save_input_target(None, CreateOrUpdateField::UpdateField(f)) is None,
        get_input_target(Some(ViewLink::List), CreateOrUpdateField::CreateField(f)) is None,
{
}

} // verus!
