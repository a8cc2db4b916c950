//! Pagination of the list view: how many pages there are, which page buttons are
//! offered, and which "items per page" choices the selector shows.

use vstd::prelude::*;
use vstd::string::*;
use crate::text::{decimal, format_u64};

verus! {

/// The number of pages needed to show `item_count` items, `items_per_page` at a time:
/// the quotient rounded up. With zero items per page, no items need no page and any
/// positive number of items needs "infinitely" many, which saturates at `u64::MAX`.
pub open spec fn spec_page_count(item_count: nat, items_per_page: nat) -> nat {
    if items_per_page == 0 {
        if item_count == 0 {
            0
        } else {
            u64::MAX as nat
        }
    } else if item_count % items_per_page == 0 {
        item_count / items_per_page
    } else {
        item_count / items_per_page + 1
    }
}

/// Computes the number of pages of the list view.
pub fn page_count(item_count: u64, items_per_page: u64) -> (r: u64)
    ensures
        r == spec_page_count(item_count as nat, items_per_page as nat),
{
    if items_per_page == 0 {
        if item_count == 0 {
            0
        } else {
            u64::MAX
        }
    } else {
        let q = item_count / items_per_page;
        if item_count % items_per_page == 0 {
            q
        } else {
            assert(q < u64::MAX) by (nonlinear_arith)
                requires
                    q == item_count / items_per_page,
                    items_per_page > 0,
                    item_count % items_per_page != 0,
                    item_count <= u64::MAX,
            {
                if items_per_page == 1 {
                    assert(item_count % 1 == 0);
                }
                assert(items_per_page >= 2);
            }
            q + 1
        }
    }
}

/// The page buttons to show: `Some(n)` is a button for page `n`, `None` stands for a
/// gap ("..."). Up to ten pages are all listed; beyond that the first, the last and the
/// pages around the current one are shown, with gaps in between.
pub open spec fn spec_page_options(page_count: nat, current_page: nat) -> Seq<Option<u64>> {
    if page_count <= 10 {
        Seq::new(page_count, |i: int| Some((i + 1) as u64))
    } else if current_page <= 5 {
        seq![
            Some(1u64),
            Some(2u64),
            Some(3u64),
            Some(4u64),
            Some(5u64),
            Some(6u64),
            Some(7u64),
            None,
            Some((page_count - 1) as u64),
            Some(page_count as u64),
        ]
    } else if current_page < page_count - 4 {
        seq![
            Some(1u64),
            Some(2u64),
            None,
            Some((current_page - 2) as u64),
            Some((current_page - 1) as u64),
            Some(current_page as u64),
            Some((current_page + 1) as u64),
            Some((current_page + 2) as u64),
            None,
            Some((page_count - 1) as u64),
            Some(page_count as u64),
        ]
    } else {
        seq![
            Some(1u64),
            Some(2u64),
            None,
            Some((page_count - 6) as u64),
            Some((page_count - 5) as u64),
            Some((page_count - 4) as u64),
            Some((page_count - 3) as u64),
            Some((page_count - 2) as u64),
            Some((page_count - 1) as u64),
            Some(page_count as u64),
        ]
    }
}

/// The page buttons of the pagination bar, computed for one current page.
pub struct PageOptions {
    pub options: Vec<Option<u64>>,
    pub for_current_page: u64,
}

/// Computes the page buttons for `page_count` pages while `current_page` is shown.
pub fn create_page_options(page_count: u64, current_page: u64) -> (r: PageOptions)
    ensures
        r.options@ == spec_page_options(page_count as nat, current_page as nat),
        r.for_current_page == current_page,
{
    let mut options: Vec<Option<u64>> = Vec::new();
    if page_count <= 10 {
        let mut i: u64 = 1;
        while i <= page_count
            invariant
                page_count <= 10,
                1 <= i <= page_count + 1,
                options@.len() == i - 1,
                forall|j: int| 0 <= j < options@.len() ==> options@[j] == Some((j + 1) as u64),
            decreases page_count + 1 - i,
        {
            options.push(Some(i));
            i = i + 1;
        }
        assert(options@ =~= spec_page_options(page_count as nat, current_page as nat));
    } else if current_page <= 5 {
        options.push(Some(1));
        options.push(Some(2));
        options.push(Some(3));
        options.push(Some(4));
        options.push(Some(5));
        options.push(Some(6));
        options.push(Some(7));
        options.push(None);
        options.push(Some(page_count - 1));
        options.push(Some(page_count));
        assert(options@ =~= spec_page_options(page_count as nat, current_page as nat));
    } else if current_page < page_count - 4 {
        options.push(Some(1));
        options.push(Some(2));
        options.push(None);
        options.push(Some(current_page - 2));
        options.push(Some(current_page - 1));
        options.push(Some(current_page));
        options.push(Some(current_page + 1));
        options.push(Some(current_page + 2));
        options.push(None);
        options.push(Some(page_count - 1));
        options.push(Some(page_count));
        assert(options@ =~= spec_page_options(page_count as nat, current_page as nat));
    } else {
        options.push(Some(1));
        options.push(Some(2));
        options.push(None);
        options.push(Some(page_count - 6));
        options.push(Some(page_count - 5));
        options.push(Some(page_count - 4));
        options.push(Some(page_count - 3));
        options.push(Some(page_count - 2));
        options.push(Some(page_count - 1));
        options.push(Some(page_count));
        assert(options@ =~= spec_page_options(page_count as nat, current_page as nat));
    }
    PageOptions { options, for_current_page: current_page }
}


/// Page buttons are well formed: at most eleven of them, every page number lies in
/// `1..=page_count`, the numbers increase from left to right, the first and the last
/// page are always offered, the current page is offered when it exists, and a gap only
/// stands between two buttons whose pages are not adjacent.
pub proof fn lemma_page_options_well_formed(page_count: u64, current_page: u64)
    ensures
        ({
            let o = spec_page_options(page_count as nat, current_page as nat);
            &&& o.len() <= 11
            &&& forall|i: int| 0 <= i < o.len() && o[i] is Some ==> 1 <= o[i]->0 <= page_count
            &&& forall|i: int, j: int|
                0 <= i < j < o.len() && o[i] is Some && o[j] is Some ==> o[i]->0 < o[j]->0
            &&& page_count >= 1 ==> o[0] == Some(1u64) && o[o.len() - 1] == Some(page_count)
            &&& 1 <= current_page <= page_count ==> o.contains(Some(current_page))
            &&& forall|i: int|
                0 <= i < o.len() && #[trigger] o[i] is None ==> {
                    &&& 0 < i < o.len() - 1
                    &&& o[i - 1] is Some
                    &&& o[i + 1] is Some
                    &&& o[i - 1]->0 + 1 < o[i + 1]->0
                }
        }),
{
    let o = spec_page_options(page_count as nat, current_page as nat);
    if page_count as nat <= 10 {
        if 1 <= current_page <= page_count {
            assert(o[current_page - 1] == Some(current_page));
        }
    } else if current_page <= 5 {
        if 1 <= current_page {
            assert(o[current_page - 1] == Some(current_page));
        }
    } else if (current_page as nat) < page_count - 4 {
        assert(o[5] == Some(current_page));
    } else {
        if current_page <= page_count {
            assert(o[(current_page - page_count + 9) as int] == Some(current_page));
        }
    }
}

/// The fixed choices of the "items per page" selector.
pub open spec fn default_items_per_page_choices() -> Seq<u64> {
    seq![10u64, 25u64, 50u64, 100u64]
}

/// A choice of the "items per page" selector.
#[derive(Debug, Clone, Copy, PartialEq, Eq, Structural, PartialOrd, Ord, Hash)]
pub struct ItemsPerPage {
    pub items_per_page: u64,
    pub all: bool,
}

impl ItemsPerPage {
    /// A choice showing `items_per_page` items.
    pub fn some(items_per_page: u64) -> (r: Self)
        ensures
            r.items_per_page == items_per_page,
            !r.all,
    {
        Self { items_per_page, all: false }
    }

    /// A choice showing all items, of which there are `items_per_page`.
    pub fn all(items_per_page: u64) -> (r: Self)
        ensures
            r.items_per_page == items_per_page,
            r.all,
    {
        Self { items_per_page, all: true }
    }

    /// The number of items per page of this choice.
    pub fn items_per_page(&self) -> (r: u64)
        ensures
            r == self.items_per_page,
    {
        self.items_per_page
    }

    /// Whether this choice stands for "all items".
    pub fn is_all(&self) -> (r: bool)
        ensures
            r == self.all,
    {
        self.all
    }

    /// The text under which this choice is listed: the number, or `All (n)`.
    pub fn label(&self) -> (r: String)
        ensures
            r@ == (if self.all {
                "All ("@ + decimal(self.items_per_page as nat) + ")"@
            } else {
                decimal(self.items_per_page as nat)
            }),
    {
        let n = format_u64(self.items_per_page);
        if self.all {
            let mut s = String::from_str("All (");
            s.append(n.as_str());
            s.append(")");
            s
        } else {
            n
        }
    }
}

/// The numbers offered by the "items per page" selector: the fixed choices and the
/// current setting, each once, in ascending order.
pub open spec fn is_items_per_page_choice_list(current: u64, s: Seq<u64>) -> bool {
    &&& forall|i: int, j: int| 0 <= i < j < s.len() ==> s[i] < s[j]
    &&& s.contains(current)
    &&& forall|k: int|
        0 <= k < default_items_per_page_choices().len() ==> s.contains(
            default_items_per_page_choices()[k],
        )
    &&& forall|i: int|
        0 <= i < s.len() ==> s[i] == current || default_items_per_page_choices().contains(s[i])
}

/// Computes the choices of the "items per page" selector. The current setting is
/// always among them, as the selector shows it as selected.
pub fn items_per_page_options(items_per_page: u64) -> (r: Vec<ItemsPerPage>)
    ensures
        is_items_per_page_choice_list(items_per_page, r@.map_values(|o: ItemsPerPage| o.items_per_page)),
        forall|i: int| 0 <= i < r@.len() ==> !r@[i].all,
{
    let c = items_per_page;
    let mut v: Vec<ItemsPerPage> = Vec::new();
    if c < 10 {
        v.push(ItemsPerPage::some(c));
    }
    v.push(ItemsPerPage::some(10));
    if 10 < c && c < 25 {
        v.push(ItemsPerPage::some(c));
    }
    v.push(ItemsPerPage::some(25));
    if 25 < c && c < 50 {
        v.push(ItemsPerPage::some(c));
    }
    v.push(ItemsPerPage::some(50));
    if 50 < c && c < 100 {
        v.push(ItemsPerPage::some(c));
    }
    v.push(ItemsPerPage::some(100));
    if 100 < c {
        v.push(ItemsPerPage::some(c));
    }
    proof {
        let s = v@.map_values(|o: ItemsPerPage| o.items_per_page);
        let d = default_items_per_page_choices();
        assert(d[0] == 10 && d[1] == 25 && d[2] == 50 && d[3] == 100);
        if c < 10 {
            assert(s =~= seq![c, 10u64, 25u64, 50u64, 100u64]);
        } else if c == 10 || c == 25 || c == 50 || c == 100 {
            assert(s =~= seq![10u64, 25u64, 50u64, 100u64]);
        } else if c < 25 {
            assert(s =~= seq![10u64, c, 25u64, 50u64, 100u64]);
        } else if c < 50 {
            assert(s =~= seq![10u64, 25u64, c, 50u64, 100u64]);
        } else if c < 100 {
            assert(s =~= seq![10u64, 25u64, 50u64, c, 100u64]);
        } else {
            assert(s =~= seq![10u64, 25u64, 50u64, 100u64, c]);
        }
        assert(s.contains(c));
        assert(forall|k: int| 0 <= k < d.len() ==> s.contains(d[k]));
    }
    v
}

/// After the number of items per page changed, the page to switch to so that the
/// current page still shows items: the new last page if the current page lies beyond
/// it, otherwise `None` (the current page stays).
pub fn corrected_current_page(item_count: u64, current_page: u64, items_per_page: u64) -> (r:
    Option<u64>)
    ensures
        r == (if current_page as nat > spec_page_count(item_count as nat, items_per_page as nat) {
            Some(spec_page_count(item_count as nat, items_per_page as nat) as u64)
        } else {
            None
        }),
{
    let new_page_count = page_count(item_count, items_per_page);
    if current_page > new_page_count {
        Some(new_page_count)
    } else {
        None
    }
}

/// With a positive number of items per page, the pages hold all items and none is
/// wasted: `page_count` full pages hold at least `item_count` items, one page fewer
/// holds fewer, so the last page is never empty. No items need no page.
pub proof fn lemma_page_count_fits(item_count: nat, items_per_page: nat)
    requires
        items_per_page > 0,
    ensures
        spec_page_count(item_count, items_per_page) * items_per_page >= item_count,
        item_count > 0 ==> (spec_page_count(item_count, items_per_page) - 1) * items_per_page
            < item_count,
        (spec_page_count(item_count, items_per_page) == 0) == (item_count == 0),
{
    let q = item_count / items_per_page;
    let r = item_count % items_per_page;
    assert(item_count == q * items_per_page + r && 0 <= r < items_per_page) by (nonlinear_arith)
        requires
            items_per_page > 0,
            q == item_count / items_per_page,
            r == item_count % items_per_page,
    ;
    if r == 0 {
        assert(q * items_per_page == item_count);
        if item_count > 0 {
            assert(q > 0) by (nonlinear_arith)
                requires
                    q * items_per_page == item_count,
                    item_count > 0,
                    items_per_page > 0,
            ;
            assert((q - 1) * items_per_page == q * items_per_page - items_per_page) by (nonlinear_arith);
        } else {
            assert(q == 0) by (nonlinear_arith)
                requires
                    q * items_per_page == 0,
                    items_per_page > 0,
            ;
        }
    } else {
        assert((q + 1) * items_per_page == q * items_per_page + items_per_page) by (nonlinear_arith);
    }
}

} // verus!
