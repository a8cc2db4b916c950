//! The configuration of a CRUD instance that changes while the user works with it.

use vstd::prelude::*;
use crate::order::{FieldId, OrderBy, OrderByUpdateOptions, spec_update_order_by};
use crate::view::CrudView;

verus! {

/// The number of items shown per page in the list view.
#[derive(Debug, Clone, Copy, PartialEq, Eq, Structural, PartialOrd, Ord)]
pub struct ItemsPerPage(pub u64);

impl Default for ItemsPerPage {
    fn default() -> (r: Self)
        ensures
            r.0 == 10,
    {
        ItemsPerPage(10)
    }
}

/// A page number of the list view, counted from one.
#[derive(Debug, Clone, Copy, PartialEq, Eq, Structural, PartialOrd, Ord)]
pub struct PageNr(pub u64);

impl PageNr {
    /// The first page.
    pub fn first() -> (r: Self)
        ensures
            r.0 == 1,
    {
        PageNr(1)
    }
}

impl Default for PageNr {
    fn default() -> (r: Self)
        ensures
            r.0 == 1,
    {
        Self::first()
    }
}

/// Where a nested instance finds the id of the entity it belongs to.
#[derive(Debug, Clone, PartialEq)]
pub struct CrudParentConfig {
    /// The name of the parent instance from which the referenced id should be loaded.
    pub name: &'static str,
    /// The field of the parent instance from which the referenced id should be loaded.
    pub referenced_field: String,
    /// The own field in which the reference is stored.
    pub referencing_field: String,
}

/// The part of an instance configuration that changes while the user works with it.
pub struct CrudMutableInstanceConfig {
    pub api_base_url: String,
    pub view: CrudView,
    pub order_by: OrderBy,
    pub items_per_page: ItemsPerPage,
    pub page: PageNr,
    /// The label of the active tab, if one is selected.
    pub active_tab: Option<String>,
}

impl CrudMutableInstanceConfig {
    /// The ordering holds each field at most once.
    pub open spec fn wf(&self) -> bool {
        self.order_by.wf()
    }

    /// The configuration of a fresh instance: the list view of the first page, ten items
    /// per page, unordered, no tab selected.
    pub fn new(api_base_url: String) -> (r: Self)
        ensures
            r.wf(),
            r.api_base_url@ == api_base_url@,
            r.view == CrudView::List,
            r.order_by@ == Seq::<(FieldId, crate::order::Order)>::empty(),
            r.items_per_page.0 == 10,
            r.page.0 == 1,
            r.active_tab is None,
    {
        CrudMutableInstanceConfig {
            api_base_url,
            view: CrudView::List,
            order_by: OrderBy::new(),
            items_per_page: ItemsPerPage::default(),
            page: PageNr::first(),
            active_tab: None,
        }
    }

    /// Whether `other` holds the same settings.
    pub open spec fn same_as(&self, other: &Self) -> bool {
        &&& self.api_base_url@ == other.api_base_url@
        &&& self.view == other.view
        &&& self.order_by@ == other.order_by@
        &&& self.items_per_page == other.items_per_page
        &&& self.page == other.page
        &&& match (self.active_tab, other.active_tab) {
            (Some(a), Some(b)) => a@ == b@,
            (None, None) => true,
            _ => false,
        }
    }

    /// A copy of this configuration.
    pub fn duplicate(&self) -> (r: Self)
        requires
            self.wf(),
        ensures
            r.wf(),
            r.same_as(self),
    {
        let active_tab = match &self.active_tab {
            Some(tab) => Some(tab.clone()),
            None => None,
        };
        CrudMutableInstanceConfig {
            api_base_url: self.api_base_url.clone(),
            view: self.view,
            order_by: self.order_by.duplicate(),
            items_per_page: self.items_per_page,
            page: self.page,
            active_tab,
        }
    }

    /// Updates the ordering after a click on the header of `field`.
    pub fn update_order_by(&mut self, field: FieldId, options: OrderByUpdateOptions)
        requires
            old(self).wf(),
        ensures
            final(self).wf(),
            final(self).order_by@ == spec_update_order_by(old(self).order_by@, field, options.append),
            final(self).api_base_url == old(self).api_base_url,
            final(self).view == old(self).view,
            final(self).items_per_page == old(self).items_per_page,
            final(self).page == old(self).page,
            final(self).active_tab == old(self).active_tab,
    {
        self.order_by.update(field, options);
    }
}

} // verus!
