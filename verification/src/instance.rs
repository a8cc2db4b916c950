//! The runtime state of a CRUD instance: which view it shows, the list view's page,
//! page size and ordering, a pending delete request, and when its data must be
//! reloaded. The state survives view changes, so a user can configure the list, edit an
//! entry, return, and find the list as it was.

use vstd::prelude::*;
use crate::action::CrudActionAftermath;
use crate::delete::{delete_toast, handle_delete_result, DeleteResult, RequestError};
use crate::instance_config::{CrudMutableInstanceConfig, ItemsPerPage, PageNr};
use crate::order::{FieldId, OrderBy, OrderByUpdateOptions, spec_update_order_by};
use crate::toast::Toast;
use crate::view::{CrudView, DeletableModel, EntityId};
use uuid::Uuid;

verus! {

#[verifier::external_type_specification]
#[verifier::external_body]
pub struct ExUuid(Uuid);

/// `Uuid::new_v4`: a random UUID. Being random, nothing is promised of its value, not
/// even that it differs from an earlier one.
#[verifier::external_body]
fn new_reload_marker() -> (r: Uuid) {
    Uuid::new_v4()
}

/// The state an instance shares with its views.
pub struct CrudInstanceContext {
    /// The configuration the instance started with; `reset` returns to it.
    pub default_config: CrudMutableInstanceConfig,
    /// The current view. Acts like a router.
    pub view: CrudView,
    /// The page the user is on in the list view.
    pub current_page: PageNr,
    /// The number of items shown per page in the list view.
    pub items_per_page: ItemsPerPage,
    /// How the list view's data is ordered.
    pub order_by: OrderBy,
    /// The entity the user asked to delete, while the confirmation is open.
    pub deletion_request: Option<DeletableModel>,
    /// A random marker, drawn anew whenever the current view must reload its data from
    /// the server.
    pub reload: Uuid,
    /// The number of reloads asked for so far.
    pub reloads: Ghost<nat>,
}

/// The instance after switching to `view`, everything else kept.
pub open spec fn with_view(ctx: CrudInstanceContext, view: CrudView) -> CrudInstanceContext {
    CrudInstanceContext { view, ..ctx }
}

/// Whether two instance states configure the list view alike: same page, page size and
/// ordering.
pub open spec fn same_list_configuration(a: CrudInstanceContext, b: CrudInstanceContext) -> bool {
    &&& a.current_page == b.current_page
    &&& a.items_per_page == b.items_per_page
    &&& a.order_by@ == b.order_by@
}

impl CrudInstanceContext {
    /// The orderings hold each field at most once.
    pub open spec fn wf(&self) -> bool {
        self.default_config.wf() && self.order_by.wf()
    }

    /// An instance starting in the state `config` describes.
    pub fn new(config: CrudMutableInstanceConfig) -> (r: Self)
        requires
            config.wf(),
        ensures
            r.wf(),
            r.view == config.view,
            r.current_page == config.page,
            r.items_per_page == config.items_per_page,
            r.order_by@ == config.order_by@,
            r.deletion_request is None,
            r.reloads@ == 0,
            r.default_config.view == config.view,
            r.default_config.page == config.page,
            r.default_config.items_per_page == config.items_per_page,
            r.default_config.order_by@ == config.order_by@,
    {
        let view = config.view;
        let current_page = config.page;
        let items_per_page = config.items_per_page;
        let order_by = config.order_by.duplicate();
        CrudInstanceContext {
            default_config: config,
            view,
            current_page,
            items_per_page,
            order_by,
            deletion_request: None,
            reload: new_reload_marker(),
            reloads: Ghost(0),
        }
    }

    /// Opens the list view.
    pub fn list(&mut self)
        ensures
            *final(self) == with_view(*old(self), CrudView::List),
    {
        self.view = CrudView::List;
    }

    /// Opens the create view.
    pub fn create(&mut self)
        ensures
            *final(self) == with_view(*old(self), CrudView::Create),
    {
        self.view = CrudView::Create;
    }

    /// Opens the read view for the given entity.
    pub fn read(&mut self, entity_id: EntityId)
        ensures
            *final(self) == with_view(*old(self), CrudView::Read(entity_id)),
    {
        self.view = CrudView::Read(entity_id);
    }

    /// Opens the edit view for the given entity.
    pub fn edit(&mut self, entity_id: EntityId)
        ensures
            *final(self) == with_view(*old(self), CrudView::Edit(entity_id)),
    {
        self.view = CrudView::Edit(entity_id);
    }

    /// Shows another page of the list view.
    pub fn set_page(&mut self, page_number: PageNr)
        ensures
            *final(self) == (CrudInstanceContext { current_page: page_number, ..*old(self) }),
    {
        self.current_page = page_number;
    }

    /// Changes the number of items per page of the list view.
    pub fn set_items_per_page(&mut self, items_per_page: ItemsPerPage)
        ensures
            *final(self) == (CrudInstanceContext { items_per_page, ..*old(self) }),
    {
        self.items_per_page = items_per_page;
    }

    /// Updates the list view's ordering after a click on the header of `field`.
    pub fn oder_by(&mut self, field: FieldId, options: OrderByUpdateOptions)
        requires
            old(self).wf(),
        ensures
            final(self).wf(),
            final(self).order_by@ == spec_update_order_by(old(self).order_by@, field, options.append),
            final(self).default_config == old(self).default_config,
            final(self).view == old(self).view,
            final(self).current_page == old(self).current_page,
            final(self).items_per_page == old(self).items_per_page,
            final(self).deletion_request == old(self).deletion_request,
            final(self).reload == old(self).reload,
    {
        self.order_by.update(field, options);
    }

    /// The user asked to delete `entity`: the confirmation opens.
    pub fn request_deletion_of(&mut self, entity: DeletableModel)
        ensures
            *final(self) == (CrudInstanceContext { deletion_request: Some(entity), ..*old(self) }),
    {
        self.deletion_request = Some(entity);
    }

    /// The user cancelled the delete request.
    pub fn cancel_deletion(&mut self)
        ensures
            *final(self) == (CrudInstanceContext { deletion_request: None, ..*old(self) }),
    {
        self.deletion_request = None;
    }

    /// Asks the current view to reload its data: a fresh random marker is drawn.
    pub fn reload(&mut self)
        ensures
            final(self).reloads@ == old(self).reloads@ + 1,
            *final(self) == (CrudInstanceContext {
                reload: final(self).reload,
                reloads: final(self).reloads,
                ..*old(self)
            }),
    {
        self.reload = new_reload_marker();
        proof {
            self.reloads = Ghost(self.reloads@ + 1);
        }
    }

    /// Handles the outcome of an action, success or failure alike: returns the
    /// notification to show, if any, and reloads the data when the action asks for it.
    pub fn handle_action_outcome(
        &mut self,
        outcome: Result<CrudActionAftermath, CrudActionAftermath>,
    ) -> (r: Option<Toast>)
        ensures
            ({
                let a = match outcome {
                    Ok(a) => a,
                    Err(a) => a,
                };
                &&& r == a.show_toast
                &&& a.reload_data ==> final(self).reloads@ == old(self).reloads@ + 1
                &&& !a.reload_data ==> final(self).reload == old(self).reload
                    && final(self).reloads == old(self).reloads
            }),
            *final(self) == (CrudInstanceContext {
                reload: final(self).reload,
                reloads: final(self).reloads,
                ..*old(self)
            }),
    {
        let aftermath = match outcome {
            Ok(outcome) => outcome,
            Err(outcome) => outcome,
        };
        if aftermath.reload_data {
            self.reload();
        }
        aftermath.show_toast
    }

    /// Resets the instance to its default configuration: every change the user made is
    /// reverted and the pending delete request dropped.
    pub fn reset(&mut self)
        requires
            old(self).wf(),
        ensures
            final(self).wf(),
            final(self).default_config == old(self).default_config,
            final(self).view == old(self).default_config.view,
            final(self).current_page == old(self).default_config.page,
            final(self).items_per_page == old(self).default_config.items_per_page,
            final(self).order_by@ == old(self).default_config.order_by@,
            final(self).deletion_request is None,
            final(self).reload == old(self).reload,
            final(self).reloads == old(self).reloads,
    {
        self.deletion_request = None;
        self.current_page = self.default_config.page;
        self.items_per_page = self.default_config.items_per_page;
        self.order_by = self.default_config.order_by.duplicate();
        self.view = self.default_config.view;
    }

    /// The server answered the delete request: the request is dropped, the list view
    /// is shown, the data reloaded, and the returned notification tells the user how it
    /// went.
    pub fn deletion_finished(&mut self, result: &Result<DeleteResult, RequestError>) -> (r:
        Toast)
        ensures
            (r.variant, r.heading@, r.message@) == delete_toast(*result),
            final(self).deletion_request is None,
            final(self).view == CrudView::List,
            final(self).reloads@ == old(self).reloads@ + 1,
            *final(self) == (CrudInstanceContext {
                deletion_request: None,
                view: CrudView::List,
                reload: final(self).reload,
                reloads: final(self).reloads,
                ..*old(self)
            }),
    {
        self.deletion_request = None;
        self.list();
        let toast = handle_delete_result(result);
        self.reload();
        toast
    }
}

/// The state survives view changes: a user who configured the list view, opens another
/// view (say, to edit an entry, which may reload the data) and returns, finds the list
/// view as it was.
pub proof fn lemma_list_view_survives_view_changes(
    ctx: CrudInstanceContext,
    other: CrudView,
    reload: Uuid,
)
    ensures
        ({
            let away = with_view(ctx, other);
            let reloaded = CrudInstanceContext { reload, ..away };
            let back = with_view(reloaded, CrudView::List);
            &&& back.view == CrudView::List
            &&& same_list_configuration(back, ctx)
            &&& back.deletion_request == ctx.deletion_request
            &&& back.default_config == ctx.default_config
        }),
{
}

} // verus!
