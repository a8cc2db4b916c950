//! The views of a CRUD instance and the entities they show.

use vstd::prelude::*;

verus! {

/// An entity, identified by its key.
pub type EntityId = u64;

/// The view a CRUD instance currently shows. It acts like a router.
#[derive(Debug, Clone, Copy, PartialEq, Eq, Structural)]
pub enum CrudView {
    List,
    Create,
    Read(EntityId),
    Edit(EntityId),
}

impl CrudView {
    /// The entity the view is about: the one read or edited, none for the list and
    /// create views.
    pub fn entity_id(&self) -> (r: Option<EntityId>)
        ensures
            r == match *self {
                CrudView::Read(id) => Some(id),
                CrudView::Edit(id) => Some(id),
                _ => None,
            },
    {
        match self {
            CrudView::List => None,
            CrudView::Create => None,
            CrudView::Read(id) => Some(*id),
            CrudView::Edit(id) => Some(*id),
        }
    }
}

impl Default for CrudView {
    fn default() -> (r: Self)
        ensures
            r == CrudView::List,
    {
        CrudView::List
    }
}

/// An entity the user asked to delete, as shown by a read view (read model) or an
/// edit view (update model).
#[derive(Debug, Clone, Copy, PartialEq, Eq, Structural)]
pub enum DeletableModel {
    Read(EntityId),
    Update(EntityId),
}

impl DeletableModel {
    /// The key of the entity to delete.
    pub open spec fn key(self) -> EntityId {
        match self {
            DeletableModel::Read(id) => id,
            DeletableModel::Update(id) => id,
        }
    }

    /// The key of the entity to delete.
    pub fn id(&self) -> (r: EntityId)
        ensures
            r == self.key(),
    {
        match self {
            DeletableModel::Read(id) => *id,
            DeletableModel::Update(id) => *id,
        }
    }
}

/// Why a view has no data to show.
#[derive(Debug, Clone, PartialEq)]
pub enum NoDataAvailable {
    NotYetLoaded,
    /// The request failed; the text describes the request error.
    RequestFailed(String),
    RequestReturnedNoData(String),
}

} // verus!
