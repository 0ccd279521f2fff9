//! The set of child resource types an operator manages, each with its
//! policy: a finite map keyed by the identity of the child type.

use crate::child::ChildConfig;
use crate::k8s_type::{K8sType, K8sTypeView};
use vstd::prelude::*;

verus! {

/// One stored association of a child type with its policy.
type Entry = (K8sType, ChildConfig);

/// Whether position `i` of `entries` holds the key `key`.
spec fn holds_key(entries: Seq<Entry>, i: int, key: K8sTypeView) -> bool {
    0 <= i < entries.len() && entries[i].0@ == key
}

/// No key is stored at two positions.
spec fn keys_distinct(entries: Seq<Entry>) -> bool {
    forall|i: int, j: int, key: K8sTypeView|
        holds_key(entries, i, key) && holds_key(entries, j, key) ==> i == j
}

/// The map that takes each stored key to the policy stored with it.
spec fn entries_map(entries: Seq<Entry>) -> Map<K8sTypeView, ChildConfig> {
    Map::new(
        |key: K8sTypeView| exists|i: int| holds_key(entries, i, key),
        |key: K8sTypeView| entries[choose|i: int| holds_key(entries, i, key)].1,
    )
}

/// The identities of a list of child types, in order.
pub open spec fn key_views(keys: Seq<K8sType>) -> Seq<K8sTypeView> {
    Seq::new(keys.len(), |i: int| keys[i]@)
}

/// The keys of `entries`, in storage order.
spec fn entry_keys(entries: Seq<Entry>) -> Seq<K8sTypeView> {
    Seq::new(entries.len(), |i: int| entries[i].0@)
}

/// A key stored at position `i` is mapped to the policy stored there.
proof fn lemma_entry_is_mapped(entries: Seq<Entry>, i: int)
    requires
        keys_distinct(entries),
        0 <= i < entries.len(),
    ensures
        entries_map(entries).contains_key(entries[i].0@),
        entries_map(entries)[entries[i].0@] == entries[i].1,
{
    let key = entries[i].0@;
    assert(holds_key(entries, i, key));
    let chosen = choose|j: int| holds_key(entries, j, key);
    assert(holds_key(entries, chosen, key));
}

/// A key stored nowhere is outside the map.
proof fn lemma_absent_is_unmapped(entries: Seq<Entry>, key: K8sTypeView)
    requires
        forall|i: int| 0 <= i < entries.len() ==> entries[i].0@ != key,
    ensures
        !entries_map(entries).contains_key(key),
{
    assert forall|i: int| !holds_key(entries, i, key) by {}
}

/// Appending a fresh key inserts it into the map.
proof fn lemma_push_inserts(entries: Seq<Entry>, entry: Entry)
    requires
        keys_distinct(entries),
        forall|i: int| 0 <= i < entries.len() ==> entries[i].0@ != entry.0@,
    ensures
        keys_distinct(entries.push(entry)),
        entries_map(entries.push(entry)) == entries_map(entries).insert(entry.0@, entry.1),
{
    let grown = entries.push(entry);
    let last = grown.len() - 1;
    assert forall|i: int, key: K8sTypeView| holds_key(grown, i, key) implies (i == last && key
        == entry.0@) || holds_key(entries, i, key) by {}
    assert forall|i: int, key: K8sTypeView| holds_key(entries, i, key) implies holds_key(
        grown,
        i,
        key,
    ) by {}
    assert(holds_key(grown, last, entry.0@));
    assert(keys_distinct(grown));
    let expected = entries_map(entries).insert(entry.0@, entry.1);
    assert forall|key: K8sTypeView| #[trigger]
        entries_map(grown).contains_key(key) == expected.contains_key(key) by {
        if expected.contains_key(key) && key != entry.0@ {
            let i = choose|i: int| holds_key(entries, i, key);
            assert(holds_key(grown, i, key));
        }
    }
    assert forall|key: K8sTypeView| #[trigger]
        entries_map(grown).contains_key(key) implies entries_map(grown)[key] == expected[key] by {
        let i = choose|i: int| holds_key(grown, i, key);
        assert(holds_key(grown, i, key));
        if key == entry.0@ {
            assert(i == last);
        } else {
            assert(holds_key(entries, i, key));
            lemma_entry_is_mapped(entries, i);
        }
    }
    assert(entries_map(grown) =~= expected);
}

/// Storing a new policy at the position of a key overwrites its mapping.
proof fn lemma_update_overwrites(entries: Seq<Entry>, i: int, entry: Entry)
    requires
        keys_distinct(entries),
        0 <= i < entries.len(),
        entries[i].0@ == entry.0@,
    ensures
        keys_distinct(entries.update(i, entry)),
        entries_map(entries.update(i, entry)) == entries_map(entries).insert(entry.0@, entry.1),
{
    let changed = entries.update(i, entry);
    assert forall|j: int, key: K8sTypeView| holds_key(changed, j, key) == holds_key(
        entries,
        j,
        key,
    ) by {}
    assert(keys_distinct(changed));
    let expected = entries_map(entries).insert(entry.0@, entry.1);
    assert(holds_key(entries, i, entry.0@));
    assert forall|key: K8sTypeView| #[trigger]
        entries_map(changed).contains_key(key) == expected.contains_key(key) by {}
    assert forall|key: K8sTypeView| #[trigger]
        entries_map(changed).contains_key(key) implies entries_map(changed)[key]
        == expected[key] by {
        let j = choose|j: int| holds_key(changed, j, key);
        assert(holds_key(changed, j, key));
        assert(holds_key(entries, j, key));
        if key == entry.0@ {
            assert(j == i);
        } else {
            lemma_entry_is_mapped(entries, j);
        }
    }
    assert(entries_map(changed) =~= expected);
}

/// With distinct keys the map has exactly as many keys as there are entries.
proof fn lemma_map_len(entries: Seq<Entry>)
    requires
        keys_distinct(entries),
    ensures
        entries_map(entries).dom().finite(),
        entries_map(entries).len() == entries.len(),
{
    let keys = entry_keys(entries);
    assert forall|i: int, j: int| 0 <= i < keys.len() && 0 <= j < keys.len() && i != j implies keys[i]
        != keys[j] by {
        assert(holds_key(entries, i, keys[i]));
        assert(holds_key(entries, j, keys[j]));
    }
    assert(keys.no_duplicates());
    assert forall|key: K8sTypeView| keys.to_set().contains(key) == entries_map(
        entries,
    ).dom().contains(key) by {
        if keys.to_set().contains(key) {
            let i = choose|i: int| 0 <= i < keys.len() && keys[i] == key;
            assert(holds_key(entries, i, key));
        }
        if entries_map(entries).dom().contains(key) {
            let i = choose|i: int| holds_key(entries, i, key);
            assert(keys[i] == key);
        }
    }
    assert(keys.to_set() =~= entries_map(entries).dom());
    keys.unique_seq_to_set();
    vstd::seq_lib::seq_to_set_is_finite(keys);
}

/// The child resource types of an operator, each with its policy.
///
/// Keys are unique and their order carries no meaning: the collection is the
/// finite map given by its view.
#[derive(Debug)]
pub struct ChildTypes {
    entries: Vec<Entry>,
}

impl View for ChildTypes {
    type V = Map<K8sTypeView, ChildConfig>;

    closed spec fn view(&self) -> Map<K8sTypeView, ChildConfig> {
        entries_map(self.entries@)
    }
}

impl ChildTypes {
    #[verifier::type_invariant]
    spec fn well_formed(&self) -> bool {
        keys_distinct(self.entries@)
    }

    /// The collection with no child types.
    pub fn new() -> (child_types: ChildTypes)
        ensures
            child_types@ == Map::<K8sTypeView, ChildConfig>::empty(),
    {
        let child_types = ChildTypes { entries: Vec::new() };
        assert(child_types@ =~= Map::<K8sTypeView, ChildConfig>::empty()) by {
            assert forall|key: K8sTypeView| !child_types@.contains_key(key) by {
                lemma_absent_is_unmapped(child_types.entries@, key);
            }
        }
        child_types
    }

    /// The number of child types.
    pub fn len(&self) -> (count: usize)
        ensures
            self@.dom().finite(),
            count == self@.len(),
    {
        proof {
            use_type_invariant(self);
            lemma_map_len(self.entries@);
        }
        self.entries.len()
    }

    /// Whether there is no child type at all.
    pub fn is_empty(&self) -> (empty: bool)
        ensures
            empty == (self@ == Map::<K8sTypeView, ChildConfig>::empty()),
    {
        proof {
            use_type_invariant(self);
            lemma_map_len(self.entries@);
            if self.entries@.len() == 0 {
                assert(self@.dom() =~= Set::<K8sTypeView>::empty());
                assert(self@ =~= Map::<K8sTypeView, ChildConfig>::empty());
            }
        }
        self.entries.len() == 0
    }

    /// The position at which `child_type` is stored, if it is stored.
    fn position(&self, child_type: &K8sType) -> (found: Option<usize>)
        ensures
            match found {
                Some(i) => holds_key(self.entries@, i as int, child_type@),
                None => forall|i: int|
                    0 <= i < self.entries@.len() ==> self.entries@[i].0@ != child_type@,
            },
    {
        let mut i: usize = 0;
        while i < self.entries.len()
            invariant
                i <= self.entries@.len(),
                forall|j: int| 0 <= j < i ==> self.entries@[j].0@ != child_type@,
            decreases self.entries@.len() - i,
        {
            if self.entries[i].0 == *child_type {
                return Some(i);
            }
            i += 1;
        }
        None
    }

    /// Whether `child_type` is one of the child types.
    pub fn contains_key(&self, child_type: &K8sType) -> (present: bool)
        ensures
            present == self@.contains_key(child_type@),
    {
        proof {
            use_type_invariant(self);
        }
        match self.position(child_type) {
            Some(i) => {
                proof {
                    lemma_entry_is_mapped(self.entries@, i as int);
                }
                true
            },
            None => {
                proof {
                    lemma_absent_is_unmapped(self.entries@, child_type@);
                }
                false
            },
        }
    }

    /// The policy of `child_type`, if it is one of the child types.
    pub fn get(&self, child_type: &K8sType) -> (config: Option<&ChildConfig>)
        ensures
            match config {
                Some(found) => self@.contains_key(child_type@) && *found == self@[child_type@],
                None => !self@.contains_key(child_type@),
            },
    {
        proof {
            use_type_invariant(self);
        }
        match self.position(child_type) {
            Some(i) => {
                proof {
                    lemma_entry_is_mapped(self.entries@, i as int);
                }
                Some(&self.entries[i].1)
            },
            None => {
                proof {
                    lemma_absent_is_unmapped(self.entries@, child_type@);
                }
                None
            },
        }
    }

    /// Maps `child_type` to `config`, replacing the policy it had before, and
    /// returns that earlier policy if there was one. Every other child type
    /// keeps its policy.
    pub fn insert(&mut self, child_type: K8sType, config: ChildConfig) -> (previous: Option<
        ChildConfig,
    >)
        ensures
            final(self)@ == old(self)@.insert(child_type@, config),
            previous == if old(self)@.contains_key(child_type@) {
                Some(old(self)@[child_type@])
            } else {
                None
            },
    {
        proof {
            use_type_invariant(&*self);
        }
        let found = self.position(&child_type);
        let mut entries = Vec::new();
        std::mem::swap(&mut entries, &mut self.entries);
        let previous = match found {
            Some(i) => {
                let previous = entries[i].1;
                proof {
                    lemma_entry_is_mapped(entries@, i as int);
                    lemma_update_overwrites(entries@, i as int, (child_type, config));
                }
                entries.set(i, (child_type, config));
                Some(previous)
            },
            None => {
                proof {
                    lemma_absent_is_unmapped(entries@, child_type@);
                    lemma_push_inserts(entries@, (child_type, config));
                }
                entries.push((child_type, config));
                None
            },
        };
        self.entries = entries;
        previous
    }

    /// The child types, each exactly once, in no particular order.
    pub fn keys(&self) -> (keys: Vec<K8sType>)
        ensures
            key_views(keys@).no_duplicates(),
            key_views(keys@).to_set() == self@.dom(),
    {
        proof {
            use_type_invariant(self);
        }
        let mut keys: Vec<K8sType> = Vec::new();
        let mut i: usize = 0;
        while i < self.entries.len()
            invariant
                i <= self.entries@.len(),
                keys@.len() == i,
                forall|j: int| 0 <= j < i ==> keys@[j]@ == self.entries@[j].0@,
            decreases self.entries@.len() - i,
        {
            keys.push(self.entries[i].0.clone());
            i += 1;
        }
        proof {
            let views = key_views(keys@);
            assert forall|a: int, b: int|
                0 <= a < views.len() && 0 <= b < views.len() && a != b implies views[a]
                != views[b] by {
                assert(holds_key(self.entries@, a, views[a]));
                assert(holds_key(self.entries@, b, views[b]));
            }
            assert forall|key: K8sTypeView| views.to_set().contains(key) == self@.dom().contains(
                key,
            ) by {
                if views.to_set().contains(key) {
                    let a = choose|a: int| 0 <= a < views.len() && views[a] == key;
                    assert(holds_key(self.entries@, a, key));
                }
                if self@.dom().contains(key) {
                    let a = choose|a: int| holds_key(self.entries@, a, key);
                    assert(views[a] == key);
                }
            }
            assert(views.to_set() =~= self@.dom());
        }
        keys
    }
}

impl Clone for ChildTypes {
    fn clone(&self) -> (copy: ChildTypes)
        ensures
            copy@ == self@,
    {
        proof {
            use_type_invariant(self);
        }
        let mut entries: Vec<Entry> = Vec::new();
        let mut i: usize = 0;
        while i < self.entries.len()
            invariant
                i <= self.entries@.len(),
                entries@ == self.entries@.take(i as int),
            decreases self.entries@.len() - i,
        {
            entries.push((self.entries[i].0.clone(), self.entries[i].1));
            assert(self.entries@.take(i + 1) =~= self.entries@.take(i as int).push(
                self.entries@[i as int],
            ));
            i += 1;
        }
        assert(entries@ =~= self.entries@);
        ChildTypes { entries }
    }
}

impl PartialEq for ChildTypes {
    /// Two collections are equal exactly when they map the same child types
    /// to the same policies, in whatever order these were added.
    fn eq(&self, other: &ChildTypes) -> (equal: bool) {
        proof {
            use_type_invariant(self);
            use_type_invariant(other);
            lemma_map_len(self.entries@);
            lemma_map_len(other.entries@);
        }
        if self.entries.len() != other.entries.len() {
            return false;
        }
        let mut i: usize = 0;
        while i < self.entries.len()
            invariant
                i <= self.entries@.len(),
                keys_distinct(self.entries@),
                forall|j: int|
                    0 <= j < i ==> other@.contains_key(#[trigger] self.entries@[j].0@)
                        && other@[self.entries@[j].0@] == self.entries@[j].1,
            decreases self.entries@.len() - i,
        {
            proof {
                lemma_entry_is_mapped(self.entries@, i as int);
            }
            match other.get(&self.entries[i].0) {
                Some(config) => {
                    if *config != self.entries[i].1 {
                        return false;
                    }
                },
                None => {
                    return false;
                },
            }
            i += 1;
        }
        proof {
            assert forall|key: K8sTypeView| self@.contains_key(key) implies other@.contains_key(
                key,
            ) && other@[key] == self@[key] by {
                let j = choose|j: int| holds_key(self.entries@, j, key);
                assert(holds_key(self.entries@, j, key));
                lemma_entry_is_mapped(self.entries@, j);
            }
            assert(self@.dom().subset_of(other@.dom()));
            vstd::set_lib::lemma_subset_equality(self@.dom(), other@.dom());
            assert(self@ =~= other@);
        }
        true
    }
}

impl vstd::std_specs::cmp::PartialEqSpecImpl for ChildTypes {
    open spec fn obeys_eq_spec() -> bool {
        true
    }

    open spec fn eq_spec(&self, other: &ChildTypes) -> bool {
        self@ == other@
    }
}

} // verus!
