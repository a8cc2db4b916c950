//! A button with an optional custom name and a dropdown of alternative actions.

use vstd::prelude::*;

verus! {

/// The size of a button.
#[derive(Debug, Clone, Copy, PartialEq, Eq, Structural)]
pub enum Size {
    Small,
    Normal,
    Big,
}

/// The CSS class of a button size.
pub fn size_class(size: Size) -> (r: &'static str)
    ensures
        r@ == match size {
            Size::Small => "small"@,
            Size::Normal => "normal"@,
            Size::Big => "big"@,
        },
{
    match size {
        Size::Small => "small",
        Size::Normal => "normal",
        Size::Big => "big",
    }
}

/// A child of a button: a custom name, or an alternative action shown in its dropdown.
#[derive(Debug, Clone, Copy, PartialEq, Eq, Structural)]
pub enum Item {
    Name,
    AlternativeAction,
}

/// A message to a button.
#[derive(Debug, Clone, Copy, PartialEq, Eq, Structural)]
pub enum Msg {
    Clicked,
    DropdownTriggerClicked,
}

/// Whether the children hold a custom name, and whether they hold alternative actions.
pub fn inspect_children(items: &Vec<Item>) -> (r: (bool, bool))
    ensures
        r.0 == items@.contains(Item::Name),
        r.1 == items@.contains(Item::AlternativeAction),
{
    let mut has_custom_name = false;
    let mut has_variations = false;
    let mut i: usize = 0;
    while i < items.len()
        invariant
            i <= items@.len(),
            has_custom_name == items@.subrange(0, i as int).contains(Item::Name),
            has_variations == items@.subrange(0, i as int).contains(Item::AlternativeAction),
        decreases items@.len() - i,
    {
        let ghost before = items@.subrange(0, i as int);
        match items[i] {
            Item::Name => has_custom_name = true,
            Item::AlternativeAction => has_variations = true,
        }
        i = i + 1;
        proof {
            let now = items@.subrange(0, i as int);
            assert(now =~= before.push(items@[i - 1]));
            assert(now[i - 1] == items@[i - 1]);
            if before.contains(Item::Name) {
                let k = choose|k: int| 0 <= k < before.len() && before[k] == Item::Name;
                assert(now[k] == Item::Name);
            }
            if before.contains(Item::AlternativeAction) {
                let k = choose|k: int| 0 <= k < before.len() && before[k] == Item::AlternativeAction;
                assert(now[k] == Item::AlternativeAction);
            }
            if now.contains(Item::Name) && now[i - 1] != Item::Name {
                let k = choose|k: int| 0 <= k < now.len() && now[k] == Item::Name;
                assert(before[k] == Item::Name);
            }
            if now.contains(Item::AlternativeAction) && now[i - 1] != Item::AlternativeAction {
                let k = choose|k: int| 0 <= k < now.len() && now[k] == Item::AlternativeAction;
                assert(before[k] == Item::AlternativeAction);
            }
        }
    }
    assert(items@.subrange(0, items@.len() as int) =~= items@);
    (has_custom_name, has_variations)
}

/// The state of a button.
pub struct CrudBtn {
    pub has_custom_name: bool,
    pub has_variations: bool,
    pub dropdown_open: bool,
}

impl CrudBtn {
    /// A button with the given children; its dropdown is closed.
    pub fn create(children: &Vec<Item>) -> (r: Self)
        ensures
            r.has_custom_name == children@.contains(Item::Name),
            r.has_variations == children@.contains(Item::AlternativeAction),
            !r.dropdown_open,
    {
        let (has_custom_name, has_variations) = inspect_children(children);
        CrudBtn { has_custom_name, has_variations, dropdown_open: false }
    }

    /// The children changed.
    pub fn changed(&mut self, children: &Vec<Item>) -> (rerender: bool)
        ensures
            final(self).has_custom_name == children@.contains(Item::Name),
            final(self).has_variations == children@.contains(Item::AlternativeAction),
            final(self).dropdown_open == old(self).dropdown_open,
            rerender,
    {
        let (has_custom_name, has_variations) = inspect_children(children);
        self.has_custom_name = has_custom_name;
        self.has_variations = has_variations;
        true
    }

    /// Handles a message; returns whether to re-render and whether to report a click.
    /// A click on a disabled button is swallowed; the dropdown trigger opens or closes
    /// the dropdown.
    pub fn update(&mut self, msg: Msg, disabled: bool) -> (r: (bool, bool))
        ensures
            final(self).has_custom_name == old(self).has_custom_name,
            final(self).has_variations == old(self).has_variations,
            match msg {
                Msg::Clicked => r == (false, !disabled) && final(self).dropdown_open
                    == old(self).dropdown_open,
                Msg::DropdownTriggerClicked => r == (true, false) && final(self).dropdown_open
                    == !old(self).dropdown_open,
            },
    {
        match msg {
            Msg::Clicked => (false, !disabled),
            Msg::DropdownTriggerClicked => {
                self.dropdown_open = !self.dropdown_open;
                (true, false)
            },
        }
    }
}

} // verus!
