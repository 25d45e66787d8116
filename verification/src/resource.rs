//! The resource-level catalog contract and the descriptor a connector
//! reports.

use vstd::prelude::*;
use vstd::pervasive::VecAdditionalExecFns;
use crate::service::{str_eq, Construct};

verus! {

/// Display name of one resource kind, as the catalog shows it.
pub struct ResourceType(pub String);

/// The character sequences of a sequence of resource-kind names.
pub open spec fn resource_names(kinds: Seq<ResourceType>) -> Seq<Seq<char>> {
    kinds.map_values(|k: ResourceType| k.0@)
}

/// A resource-level catalog member; resources own no child kinds.
pub trait ResourceKind: Construct {

}

/// One listed resource instance: it bears an identifier type and a display
/// name.
pub trait Resource {
    /// The identifier type, scoped to this resource kind.
    type Id;

    /// The display name, as characters.
    spec fn spec_name(&self) -> Seq<char>;

    /// The display name of this instance.
    fn get_name(&self) -> (name: String)
        ensures
            name@ == self.spec_name(),
    ;
}

/// What a connector's `describe` reports for one resource: its identifier, an
/// optional display name, and string-to-string properties with unique keys.
pub struct ResourceDescription<T: Resource> {
    id: T::Id,
    name: Option<String>,
    props: Vec<(String, String)>,
}

/// Whether the keys of a property sequence are pairwise distinct by
/// characters.
pub open spec fn keys_unique(props: Seq<(String, String)>) -> bool {
    forall|i: int, j: int| 0 <= i < j < props.len() ==> props[i].0@ != props[j].0@
}

/// The properties as a map from key characters to value characters; a later
/// pair wins over an earlier one with the same key.
pub open spec fn props_map(props: Seq<(String, String)>) -> Map<Seq<char>, Seq<char>>
    decreases props.len(),
{
    if props.len() == 0 {
        Map::empty()
    } else {
        props_map(props.drop_last()).insert(props.last().0@, props.last().1@)
    }
}

impl<T: Resource> ResourceDescription<T> {
    /// The descriptor's invariant: property keys are pairwise distinct.
    /// `new` establishes it and `set_prop` preserves it.
    pub closed spec fn wf(&self) -> bool {
        keys_unique(self.props@)
    }

    /// The identifier, as the contracts see it.
    pub closed spec fn spec_id(&self) -> T::Id {
        self.id
    }

    /// The optional display name, as the contracts see it.
    pub closed spec fn spec_display_name(&self) -> Option<String> {
        self.name
    }

    /// The properties as a map view.
    pub closed spec fn spec_props(&self) -> Map<Seq<char>, Seq<char>> {
        props_map(self.props@)
    }

    /// Builds a descriptor with no properties.
    pub fn new(id: T::Id, name: Option<String>) -> (d: ResourceDescription<T>)
        ensures
            d.spec_id() == id,
            d.spec_display_name() == name,
            d.spec_props() == Map::<Seq<char>, Seq<char>>::empty(),
            d.wf(),
    {
        ResourceDescription { id, name, props: Vec::new() }
    }

    /// The identifier of the described resource.
    pub fn id(&self) -> (id: &T::Id)
        ensures
            id == self.spec_id(),
    {
        &self.id
    }

    /// The display name, when the backend reported one.
    pub fn display_name(&self) -> (name: &Option<String>)
        ensures
            name == self.spec_display_name(),
    {
        &self.name
    }

    /// Looks one property up by key.
    pub fn get_prop(&self, key: &str) -> (value: Option<&String>)
        requires
            self.wf(),
        ensures
            (match value {
                Some(v) => self.spec_props().contains_key(key@) && v@ == self.spec_props()[key@],
                None => !self.spec_props().contains_key(key@),
            }),
    {
        let mut idx: usize = 0;
        while idx < self.props.len()
            invariant
                keys_unique(self.props@),
                idx <= self.props@.len(),
                forall|i: int| 0 <= i < idx ==> #[trigger] self.props@[i].0@ != key@,
            decreases self.props@.len() - idx,
        {
            if str_eq(self.props[idx].0.as_str(), key) {
                proof {
                    lemma_props_map_contains(self.props@, idx as int);
                }
                return Some(&self.props[idx].1);
            }
            idx += 1;
        }
        proof {
            lemma_props_map_absent(self.props@, key@);
        }
        None
    }

    /// Adds or overwrites one property, keeping the keys unique.
    pub fn set_prop(&mut self, key: String, value: String)
        requires
            old(self).wf(),
        ensures
            final(self).wf(),
            final(self).spec_id() == old(self).spec_id(),
            final(self).spec_display_name() == old(self).spec_display_name(),
            final(self).spec_props() == old(self).spec_props().insert(key@, value@),
    {
        let ghost pre = self.props@;
        let mut idx: usize = 0;
        while idx < self.props.len()
            invariant
                keys_unique(self.props@),
                self.props@ == pre,
                self.id == old(self).id,
                self.name == old(self).name,
                pre == old(self).props@,
                idx <= self.props@.len(),
                forall|i: int| 0 <= i < idx ==> #[trigger] self.props@[i].0@ != key@,
            decreases self.props@.len() - idx,
        {
            if str_eq(self.props[idx].0.as_str(), key.as_str()) {
                proof {
                    lemma_props_map_update(self.props@, idx as int, (key, value));
                    assert forall|i: int, j: int|
                        0 <= i < j < pre.update(idx as int, (key, value)).len() implies pre.update(
                        idx as int,
                        (key, value),
                    )[i].0@ != pre.update(idx as int, (key, value))[j].0@ by {
                        assert(pre[i].0@ != pre[j].0@);
                    }
                }
                self.props.set(idx, (key, value));
                return ;
            }
            idx += 1;
        }
        proof {
            lemma_props_map_absent(self.props@, key@);
            let pushed = pre.push((key, value));
            assert(pushed.drop_last() =~= pre);
            assert forall|i: int, j: int| 0 <= i < j < pushed.len() implies pushed[i].0@
                != pushed[j].0@ by {
                if j < pre.len() {
                    assert(pre[i].0@ != pre[j].0@);
                } else {
                    assert(pre[i].0@ != key@);
                }
            }
        }
        self.props.push((key, value));
    }
}

/// Every binding of a unique-keyed property sequence shows up in its map
/// view.
proof fn lemma_props_map_contains(props: Seq<(String, String)>, i: int)
    requires
        keys_unique(props),
        0 <= i < props.len(),
    ensures
        props_map(props).contains_key(props[i].0@),
        props_map(props)[props[i].0@] == props[i].1@,
    decreases props.len(),
{
    if i < props.len() - 1 {
        assert(keys_unique(props.drop_last())) by {
            assert forall|a: int, b: int|
                0 <= a < b < props.drop_last().len() implies props.drop_last()[a].0@
                != props.drop_last()[b].0@ by {
                assert(props[a].0@ != props[b].0@);
            }
        }
        lemma_props_map_contains(props.drop_last(), i);
        assert(props[i].0@ != props.last().0@);
    }
}

/// A key carried by no pair is absent from the map view.
proof fn lemma_props_map_absent(props: Seq<(String, String)>, key: Seq<char>)
    requires
        forall|i: int| 0 <= i < props.len() ==> #[trigger] props[i].0@ != key,
    ensures
        !props_map(props).contains_key(key),
    decreases props.len(),
{
    if props.len() > 0 {
        assert forall|i: int| 0 <= i < props.drop_last().len() implies #[trigger] props.drop_last()[i].0@
            != key by {
            assert(props[i].0@ != key);
        }
        lemma_props_map_absent(props.drop_last(), key);
        assert(props.last().0@ != key);
    }
}

/// Overwriting the pair that carries a key updates exactly that key's binding
/// in the map view.
proof fn lemma_props_map_update(props: Seq<(String, String)>, i: int, pair: (String, String))
    requires
        keys_unique(props),
        0 <= i < props.len(),
        props[i].0@ == pair.0@,
    ensures
        props_map(props.update(i, pair)) == props_map(props).insert(pair.0@, pair.1@),
    decreases props.len(),
{
    let updated = props.update(i, pair);
    if i == props.len() - 1 {
        assert(updated.drop_last() =~= props.drop_last());
        assert(props_map(updated) =~= props_map(props).insert(pair.0@, pair.1@));
    } else {
        assert(keys_unique(props.drop_last())) by {
            assert forall|a: int, b: int|
                0 <= a < b < props.drop_last().len() implies props.drop_last()[a].0@
                != props.drop_last()[b].0@ by {
                assert(props[a].0@ != props[b].0@);
            }
        }
        assert(updated.drop_last() =~= props.drop_last().update(i, pair));
        lemma_props_map_update(props.drop_last(), i, pair);
        assert(props[i].0@ != props.last().0@);
        assert(updated.last() == props.last());
        assert(props_map(updated) =~= props_map(props).insert(pair.0@, pair.1@));
    }
}

/// The display names of listed resources, in listing order: the computing
/// half of a resource view's initial fill.
pub fn resource_display_names<T: Resource>(items: &Vec<T>) -> (names: Vec<String>)
    ensures
        names@.len() == items@.len(),
        forall|i: int| 0 <= i < items@.len() ==> #[trigger] names@[i]@ == items@[i].spec_name(),
{
    let mut names: Vec<String> = Vec::new();
    let mut idx: usize = 0;
    while idx < items.len()
        invariant
            idx <= items@.len(),
            names@.len() == idx,
            forall|i: int| 0 <= i < idx ==> #[trigger] names@[i]@ == items@[i].spec_name(),
        decreases items@.len() - idx,
    {
        names.push(items[idx].get_name());
        idx += 1;
    }
    names
}

} // verus!
