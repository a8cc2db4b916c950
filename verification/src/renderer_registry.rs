//! Renderers the instance configuration chooses for particular fields, overriding the
//! renderer a field gets from its type.

use std::collections::HashMap;
use vstd::prelude::*;
use crate::order::FieldId;

verus! {

broadcast use vstd::std_specs::hash::group_hash_axioms;

/// The renderers registered for fields.
pub struct FieldRendererRegistry<R> {
    pub reg: HashMap<FieldId, R>,
}

/// Collects renderers for fields, then builds the registry.
pub struct FieldRendererRegistryBuilder<R> {
    pub reg: HashMap<FieldId, R>,
}

impl<R> FieldRendererRegistry<R> {
    /// A builder without registrations.
    pub fn builder() -> (b: FieldRendererRegistryBuilder<R>)
        ensures
            b.reg@ == Map::<FieldId, R>::empty(),
    {
        FieldRendererRegistryBuilder::new()
    }

    /// The renderer registered for `field`, if any; a field without one is shown by the
    /// renderer of its type.
    pub fn renderer_for(&self, field: FieldId) -> (r: Option<&R>)
        ensures
            match r {
                Some(v) => self.reg@.contains_key(field) && *v == self.reg@[field],
                None => !self.reg@.contains_key(field),
            },
    {
        self.reg.get(&field)
    }
}

impl<R> FieldRendererRegistryBuilder<R> {
    fn new() -> (b: Self)
        ensures
            b.reg@ == Map::<FieldId, R>::empty(),
    {
        FieldRendererRegistryBuilder { reg: HashMap::new() }
    }

    /// Registers `renderer` for `field`; a later registration for the same field
    /// replaces an earlier one (see `lemma_registrations` for any number of them).
    pub fn register(self, field: FieldId, renderer: R) -> (b: Self)
        ensures
            b.reg@ == self.reg@.insert(field, renderer),
    {
        let mut reg = self.reg;
        reg.insert(field, renderer);
        FieldRendererRegistryBuilder { reg }
    }

    /// The registry holding the registrations made.
    pub fn build(self) -> (r: FieldRendererRegistry<R>)
        ensures
            r.reg@ == self.reg@,
    {
        FieldRendererRegistry { reg: self.reg }
    }
}

/// The renderers registered by the registrations `s`, made in order: each later one
/// replacing an earlier one for the same field.
pub open spec fn registered<R>(s: Seq<(FieldId, R)>) -> Map<FieldId, R>
    decreases s.len(),
{
    if s.len() == 0 {
        Map::empty()
    } else {
        registered(s.drop_last()).insert(s.last().0, s.last().1)
    }
}

/// Whether registration `i` of `s` is the last one for its field.
pub open spec fn is_last_for<R>(s: Seq<(FieldId, R)>, i: int) -> bool {
    forall|j: int| i < j < s.len() ==> s[j].0 != s[i].0
}

/// Over any sequence of registrations, the registry holds exactly the fields registered,
/// each with the renderer of its last registration.
pub proof fn lemma_registrations<R>(s: Seq<(FieldId, R)>)
    ensures
        forall|f: FieldId| #[trigger]
            registered(s).contains_key(f) <==> exists|i: int| 0 <= i < s.len() && s[i].0 == f,
        forall|i: int|
            0 <= i < s.len() && is_last_for(s, i) ==> #[trigger] registered(s)[s[i].0] == s[i].1,
    decreases s.len(),
{
    if s.len() > 0 {
        let t = s.drop_last();
        lemma_registrations(t);
        let n = s.len() - 1;
        assert forall|f: FieldId| #[trigger]
            registered(s).contains_key(f) <==> exists|i: int| 0 <= i < s.len() && s[i].0 == f by {
            if registered(t).contains_key(f) {
                let i = choose|i: int| 0 <= i < t.len() && t[i].0 == f;
                assert(s[i].0 == f);
            }
            if exists|i: int| 0 <= i < s.len() && s[i].0 == f {
                let i = choose|i: int| 0 <= i < s.len() && s[i].0 == f;
                if i < n {
                    assert(t[i].0 == f);
                } else {
                    assert(s.last().0 == f);
                }
            }
        }
        assert forall|i: int|
            0 <= i < s.len() && is_last_for(s, i) implies #[trigger] registered(s)[s[i].0] == s[i].1 by {
            if i < n {
                assert(s[n].0 != s[i].0);
                assert(t[i] == s[i]);
                assert forall|j: int| i < j < t.len() implies t[j].0 != t[i].0 by {
                    assert(t[j] == s[j]);
                }
                assert(registered(t)[t[i].0] == t[i].1);
            }
        }
    }
}

} // verus!
