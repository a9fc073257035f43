//! The import registry: a mapping from (namespace, field name) to entity.
//!
//! Entries are held in insertion order; a (namespace, name) pair occurs at
//! most once, and both halves of every key are valid UTF-8 text. Inserting
//! at an existing key overwrites in place, so the last write wins.

use vstd::prelude::*;

use crate::bytes::{bytes_eq, is_utf8};
use crate::entity::{Entity, EntityV};

verus! {

/// One binding: a namespace, a field name, and the entity bound to them.
pub struct RegistryEntry {
    pub namespace: Vec<u8>,
    pub name: Vec<u8>,
    pub entity: Entity,
}

/// The mathematical value of one binding.
pub struct EntryV {
    pub namespace: Seq<u8>,
    pub name: Seq<u8>,
    pub entity: EntityV,
}

impl View for RegistryEntry {
    type V = EntryV;

    open spec fn view(&self) -> EntryV {
        EntryV { namespace: self.namespace@, name: self.name@, entity: self.entity@ }
    }
}

/// Whether the binding `e` is keyed by (`ns`, `nm`).
pub open spec fn key_match(e: EntryV, ns: Seq<u8>, nm: Seq<u8>) -> bool {
    e.namespace == ns && e.name == nm
}

/// The position of the first binding keyed by (`ns`, `nm`), or -1.
pub open spec fn entry_index(s: Seq<EntryV>, ns: Seq<u8>, nm: Seq<u8>) -> int
    decreases s.len(),
{
    if s.len() == 0 {
        -1
    } else if key_match(s[0], ns, nm) {
        0
    } else {
        let r = entry_index(s.drop_first(), ns, nm);
        if r < 0 {
            -1
        } else {
            r + 1
        }
    }
}

/// The entity bound to (`ns`, `nm`), if any.
pub open spec fn lookup_spec(s: Seq<EntryV>, ns: Seq<u8>, nm: Seq<u8>) -> Option<EntityV> {
    let i = entry_index(s, ns, nm);
    if i < 0 {
        None
    } else {
        Some(s[i].entity)
    }
}

/// The entries after binding `e` to (`ns`, `nm`): overwritten in place if
/// the key is present, appended otherwise.
pub open spec fn insert_spec(s: Seq<EntryV>, ns: Seq<u8>, nm: Seq<u8>, e: EntityV) -> Seq<EntryV> {
    let i = entry_index(s, ns, nm);
    let entry = EntryV { namespace: ns, name: nm, entity: e };
    if i < 0 {
        s.push(entry)
    } else {
        s.update(i, entry)
    }
}

/// The entries after binding each record of `rs` in order; for a duplicate
/// key the last record wins.
pub open spec fn merge_spec(s: Seq<EntryV>, rs: Seq<EntryV>) -> Seq<EntryV>
    decreases rs.len(),
{
    if rs.len() == 0 {
        s
    } else {
        insert_spec(merge_spec(s, rs.drop_last()), rs.last().namespace, rs.last().name, rs.last().entity)
    }
}

/// The function-kind bindings among `s`, in order.
pub open spec fn functions_of(s: Seq<EntryV>) -> Seq<EntryV>
    decreases s.len(),
{
    if s.len() == 0 {
        Seq::empty()
    } else {
        functions_of(s.drop_last()) + (if s.last().entity is Function {
            seq![s.last()]
        } else {
            Seq::empty()
        })
    }
}

/// Extending the bindings by one extends the function-kind bindings by
/// that binding exactly when it is of function kind.
pub proof fn lemma_functions_of_push(s: Seq<EntryV>, e: EntryV)
    ensures
        functions_of(s.push(e)) == functions_of(s) + (if e.entity is Function {
            seq![e]
        } else {
            Seq::empty()
        }),
{
    assert(s.push(e).drop_last() =~= s);
    assert(s.push(e).last() == e);
}

/// The function-kind bindings of a concatenation are the concatenation of
/// the function-kind bindings.
pub proof fn lemma_functions_of_concat(a: Seq<EntryV>, b: Seq<EntryV>)
    ensures
        functions_of(a + b) == functions_of(a) + functions_of(b),
    decreases b.len(),
{
    if b.len() == 0 {
        assert(a + b =~= a);
        assert(functions_of(b) == Seq::<EntryV>::empty());
        assert(functions_of(a) + functions_of(b) =~= functions_of(a));
    } else {
        let b2 = b.drop_last();
        lemma_functions_of_concat(a, b2);
        assert((a + b).drop_last() =~= a + b2);
        assert((a + b).last() == b.last());
        let tail = if b.last().entity is Function {
            seq![b.last()]
        } else {
            Seq::<EntryV>::empty()
        };
        assert(functions_of(a + b) == functions_of(a) + functions_of(b2) + tail);
        assert(functions_of(b) == functions_of(b2) + tail);
        assert(functions_of(a) + functions_of(b2) + tail =~= functions_of(a) + (functions_of(b2)
            + tail));
    }
}

/// The position of the last record of `rs` keyed by (`ns`, `nm`), or -1.
pub open spec fn last_match(rs: Seq<EntryV>, ns: Seq<u8>, nm: Seq<u8>) -> int
    decreases rs.len(),
{
    if rs.len() == 0 {
        -1
    } else if key_match(rs.last(), ns, nm) {
        rs.len() - 1
    } else {
        last_match(rs.drop_last(), ns, nm)
    }
}

/// No (namespace, name) pair occurs twice.
pub open spec fn unique_keys(s: Seq<EntryV>) -> bool {
    forall|i: int, j: int|
        0 <= i < j < s.len() ==> !(#[trigger] s[i].namespace == #[trigger] s[j].namespace
            && s[i].name == s[j].name)
}

/// Every key is valid UTF-8 text and no key occurs twice.
pub open spec fn wf_entries(s: Seq<EntryV>) -> bool {
    unique_keys(s) && forall|i: int|
        0 <= i < s.len() ==> is_utf8(#[trigger] s[i].namespace) && is_utf8(s[i].name)
}

/// The import registry.
#[allow(non_camel_case_types)]
pub struct wasmer_import_object_t {
    pub entries: Vec<RegistryEntry>,
}

impl View for wasmer_import_object_t {
    type V = Seq<EntryV>;

    open spec fn view(&self) -> Seq<EntryV> {
        Seq::new(self.entries@.len(), |i: int| self.entries@[i]@)
    }
}

impl wasmer_import_object_t {
    /// The registry's invariant: unique, valid-text keys.
    pub open spec fn wf(&self) -> bool {
        wf_entries(self@)
    }
}

/// How `entry_index` relates to the bindings: it is -1 exactly when the
/// key is absent, and otherwise names the first binding with the key.
pub proof fn lemma_entry_index(s: Seq<EntryV>, ns: Seq<u8>, nm: Seq<u8>)
    ensures
        (entry_index(s, ns, nm) == -1 <==> forall|i: int|
            0 <= i < s.len() ==> !key_match(#[trigger] s[i], ns, nm)),
        entry_index(s, ns, nm) != -1 ==> {
            let idx = entry_index(s, ns, nm);
            &&& 0 <= idx < s.len()
            &&& key_match(s[idx], ns, nm)
            &&& forall|j: int| 0 <= j < idx ==> !key_match(#[trigger] s[j], ns, nm)
        },
    decreases s.len(),
{
    if s.len() == 0 {
    } else if key_match(s[0], ns, nm) {
    } else {
        let t = s.drop_first();
        lemma_entry_index(t, ns, nm);
        let r = entry_index(t, ns, nm);
        if r < 0 {
            assert forall|i: int| 0 <= i < s.len() implies !key_match(#[trigger] s[i], ns, nm) by {
                if i > 0 {
                    assert(t[i - 1] == s[i]);
                    assert(!key_match(t[i - 1], ns, nm));
                }
            }
        } else {
            assert(entry_index(s, ns, nm) == r + 1);
            assert(t[r] == s[r + 1]);
            assert(key_match(s[r + 1], ns, nm));
            assert forall|j: int| 0 <= j < r + 1 implies !key_match(#[trigger] s[j], ns, nm) by {
                if j > 0 {
                    assert(t[j - 1] == s[j]);
                    assert(!key_match(t[j - 1], ns, nm));
                }
            }
        }
    }
}

/// If the key stands at position `i` and nowhere earlier, `entry_index`
/// names `i`.
pub proof fn lemma_entry_index_at(s: Seq<EntryV>, ns: Seq<u8>, nm: Seq<u8>, i: int)
    requires
        0 <= i < s.len(),
        key_match(s[i], ns, nm),
        forall|j: int| 0 <= j < i ==> !key_match(#[trigger] s[j], ns, nm),
    ensures
        entry_index(s, ns, nm) == i,
    decreases s.len(),
{
    if i == 0 {
    } else {
        assert forall|j: int| 0 <= j < s.drop_first().len() implies s.drop_first()[j] == s[j + 1] by {}
        lemma_entry_index_at(s.drop_first(), ns, nm, i - 1);
    }
}

/// `entry_index` reads only the keys: on two binding lists whose keys
/// match the probe identically position by position, it agrees.
pub proof fn lemma_entry_index_pointwise(
    s1: Seq<EntryV>,
    s2: Seq<EntryV>,
    ns: Seq<u8>,
    nm: Seq<u8>,
)
    requires
        s1.len() == s2.len(),
        forall|i: int|
            #![trigger key_match(s1[i], ns, nm)]
            0 <= i < s1.len() ==> (key_match(s1[i], ns, nm) == key_match(s2[i], ns, nm)),
    ensures
        entry_index(s1, ns, nm) == entry_index(s2, ns, nm),
{
    lemma_entry_index(s1, ns, nm);
    lemma_entry_index(s2, ns, nm);
    let i1 = entry_index(s1, ns, nm);
    let i2 = entry_index(s2, ns, nm);
    if i1 == -1 {
        assert forall|i: int| 0 <= i < s2.len() implies !key_match(#[trigger] s2[i], ns, nm) by {
            assert(!key_match(s1[i], ns, nm));
        }
        assert(i2 == -1);
    } else {
        assert(key_match(s1[i1], ns, nm));
        assert(key_match(s2[i1], ns, nm));
        if i2 == -1 {
            assert(!key_match(s2[i1], ns, nm));
            assert(false);
        }
        if i1 < i2 {
            assert(!key_match(s2[i1], ns, nm));
            assert(false);
        }
        if i2 < i1 {
            assert(key_match(s2[i2], ns, nm));
            assert(key_match(s1[i2], ns, nm));
            assert(!key_match(s1[i2], ns, nm));
            assert(false);
        }
    }
}

/// Inserting binds the key to the entity and touches no other key: the
/// fresh binding is found, and every other key resolves as before.
pub proof fn lemma_insert_lookup(
    s: Seq<EntryV>,
    ns: Seq<u8>,
    nm: Seq<u8>,
    e: EntityV,
    ns2: Seq<u8>,
    nm2: Seq<u8>,
)
    ensures
        lookup_spec(insert_spec(s, ns, nm, e), ns, nm) == Some(e),
        !(ns2 == ns && nm2 == nm) ==> lookup_spec(insert_spec(s, ns, nm, e), ns2, nm2)
            == lookup_spec(s, ns2, nm2),
{
    lemma_entry_index(s, ns, nm);
    let i = entry_index(s, ns, nm);
    let entry = EntryV { namespace: ns, name: nm, entity: e };
    let s2 = insert_spec(s, ns, nm, e);
    if i < 0 {
        // Appended at the end: no earlier binding matches.
        lemma_entry_index_at(s2, ns, nm, s.len() as int);
        assert(lookup_spec(s2, ns, nm) == Some(e));
        if !(ns2 == ns && nm2 == nm) {
            lemma_entry_index(s2, ns2, nm2);
            lemma_entry_index(s, ns2, nm2);
            let j = entry_index(s, ns2, nm2);
            if j == -1 {
                assert(!key_match(entry, ns2, nm2));
                assert forall|k: int| 0 <= k < s2.len() implies !key_match(
                    #[trigger] s2[k],
                    ns2,
                    nm2,
                ) by {
                    if k < s.len() {
                        assert(s2[k] == s[k]);
                        assert(!key_match(s[k], ns2, nm2));
                    } else {
                        assert(s2[k] == entry);
                    }
                }
                assert(entry_index(s2, ns2, nm2) == -1);
            } else {
                assert(s2[j] == s[j]);
                assert forall|k: int| 0 <= k < j implies !key_match(#[trigger] s2[k], ns2, nm2) by {
                    assert(s2[k] == s[k]);
                    assert(!key_match(s[k], ns2, nm2));
                }
                lemma_entry_index_at(s2, ns2, nm2, j);
            }
        }
    } else {
        // Overwritten in place: the keys of every position are unchanged.
        lemma_entry_index_at(s2, ns, nm, i);
        assert(lookup_spec(s2, ns, nm) == Some(e));
        if !(ns2 == ns && nm2 == nm) {
            assert(s[i].namespace == ns && s[i].name == nm);
            assert forall|k: int|
                #![trigger key_match(s2[k], ns2, nm2)]
                0 <= k < s2.len() implies (key_match(s2[k], ns2, nm2) == key_match(
                s[k],
                ns2,
                nm2,
            )) by {
                if k == i {
                    assert(s2[k] == entry);
                    assert(!key_match(entry, ns2, nm2));
                    assert(!key_match(s[k], ns2, nm2));
                } else {
                    assert(s2[k] == s[k]);
                }
            }
            lemma_entry_index_pointwise(s2, s, ns2, nm2);
            let j = entry_index(s, ns2, nm2);
            if j != -1 {
                lemma_entry_index(s, ns2, nm2);
                assert(key_match(s[j], ns2, nm2));
                assert(j != i);
                assert(s2[j] == s[j]);
            }
        }
    }
}

/// Inserting a valid-text key preserves the registry invariant.
pub proof fn lemma_insert_wf(s: Seq<EntryV>, ns: Seq<u8>, nm: Seq<u8>, e: EntityV)
    requires
        wf_entries(s),
        is_utf8(ns),
        is_utf8(nm),
    ensures
        wf_entries(insert_spec(s, ns, nm, e)),
{
    lemma_entry_index(s, ns, nm);
    let i = entry_index(s, ns, nm);
    let s2 = insert_spec(s, ns, nm, e);
    if i < 0 {
        assert forall|a: int, b: int|
            0 <= a < b < s2.len() implies !(#[trigger] s2[a].namespace == #[trigger] s2[b].namespace
            && s2[a].name == s2[b].name) by {
            if b == s.len() as int {
                assert(!key_match(s[a], ns, nm));
            }
        }
    } else {
        assert forall|a: int, b: int|
            0 <= a < b < s2.len() implies !(#[trigger] s2[a].namespace == #[trigger] s2[b].namespace
            && s2[a].name == s2[b].name) by {
            assert(s2[a].namespace == s[a].namespace && s2[a].name == s[a].name);
            assert(s2[b].namespace == s[b].namespace && s2[b].name == s[b].name);
        }
    }
}

/// Creates a new empty registry.
#[allow(non_snake_case)]
pub fn wasmer_import_object_new() -> (r: wasmer_import_object_t)
    ensures
        r@ == Seq::<EntryV>::empty(),
        r.wf(),
{
    let r = wasmer_import_object_t { entries: Vec::new() };
    proof {
        assert(r@ =~= Seq::<EntryV>::empty());
    }
    r
}

impl wasmer_import_object_t {
    /// The entity bound to (`namespace`, `name`), or nothing.
    pub fn lookup(&self, namespace: &Vec<u8>, name: &Vec<u8>) -> (r: Option<&Entity>)
        ensures
            match r {
                Some(e) => lookup_spec(self@, namespace@, name@) == Some(e@),
                None => lookup_spec(self@, namespace@, name@) is None,
            },
    {
        let n = self.entries.len();
        let mut i: usize = 0;
        while i < n
            invariant
                i <= n,
                n == self.entries@.len(),
                self@.len() == n,
                forall|j: int| 0 <= j < i ==> !key_match(#[trigger] self@[j], namespace@, name@),
            decreases n - i,
        {
            let entry = &self.entries[i];
            if bytes_eq(&entry.namespace, namespace) && bytes_eq(&entry.name, name) {
                proof {
                    lemma_entry_index_at(self@, namespace@, name@, i as int);
                }
                return Some(&self.entries[i].entity);
            }
            i = i + 1;
        }
        proof {
            lemma_entry_index(self@, namespace@, name@);
        }
        None
    }

    /// Binds `entity` to (`namespace`, `name`), overwriting any existing
    /// binding at that key.
    #[verifier::loop_isolation(false)]
    pub fn insert(&mut self, namespace: Vec<u8>, name: Vec<u8>, entity: Entity)
        requires
            old(self).wf(),
            is_utf8(namespace@),
            is_utf8(name@),
        ensures
            final(self).wf(),
            final(self)@ == insert_spec(old(self)@, namespace@, name@, entity@),
    {
        let ghost s = self@;
        let n = self.entries.len();
        let mut i: usize = 0;
        while i < n
            invariant
                i <= n,
                *self == *old(self),
                n == self.entries@.len(),
                self@.len() == n,
                wf_entries(self@),
                forall|j: int| 0 <= j < i ==> !key_match(#[trigger] self@[j], namespace@, name@),
            decreases n - i,
        {
            if bytes_eq(&self.entries[i].namespace, &namespace) && bytes_eq(
                &self.entries[i].name,
                &name,
            ) {
                proof {
                    lemma_entry_index_at(self@, namespace@, name@, i as int);
                    lemma_insert_wf(self@, namespace@, name@, entity@);
                }
                self.entries.set(i, RegistryEntry { namespace, name, entity });
                proof {
                    assert(self@ =~= insert_spec(s, namespace@, name@, entity@));
                }
                return ;
            }
            i = i + 1;
        }
        proof {
            lemma_entry_index(self@, namespace@, name@);
            lemma_insert_wf(self@, namespace@, name@, entity@);
        }
        self.entries.push(RegistryEntry { namespace, name, entity });
        proof {
            assert(self@ =~= insert_spec(s, namespace@, name@, entity@));
        }
    }
}

/// An empty registry resolves no key.
pub proof fn lemma_lookup_empty(ns: Seq<u8>, nm: Seq<u8>)
    ensures
        lookup_spec(Seq::<EntryV>::empty(), ns, nm) is None,
{
}

/// Where `last_match` points, it points at a record with the key.
pub proof fn lemma_last_match_bounds(rs: Seq<EntryV>, ns: Seq<u8>, nm: Seq<u8>)
    ensures
        last_match(rs, ns, nm) >= 0 ==> 0 <= last_match(rs, ns, nm) < rs.len() && key_match(
            rs[last_match(rs, ns, nm)],
            ns,
            nm,
        ),
    decreases rs.len(),
{
    if rs.len() == 0 {
    } else if key_match(rs.last(), ns, nm) {
    } else {
        lemma_last_match_bounds(rs.drop_last(), ns, nm);
        let lm = last_match(rs.drop_last(), ns, nm);
        if lm >= 0 {
            assert(rs.drop_last()[lm] == rs[lm]);
        }
    }
}

/// Law: in a registry holding one binding, looking its key up returns the
/// entity that was inserted — its kind included — and looking up any
/// other key finds nothing.
pub proof fn lemma_singleton_registry_lookup(
    ns: Seq<u8>,
    nm: Seq<u8>,
    e: EntityV,
    ns2: Seq<u8>,
    nm2: Seq<u8>,
)
    ensures
        lookup_spec(insert_spec(Seq::<EntryV>::empty(), ns, nm, e), ns, nm) == Some(e),
        !(ns2 == ns && nm2 == nm) ==> lookup_spec(
            insert_spec(Seq::<EntryV>::empty(), ns, nm, e),
            ns2,
            nm2,
        ) is None,
{
    lemma_insert_lookup(Seq::<EntryV>::empty(), ns, nm, e, ns2, nm2);
    lemma_lookup_empty(ns2, nm2);
}

/// Law: a bulk merge applies its records in order, so for any key the last
/// record with that key wins; a key no record carries resolves as before
/// the merge.
pub proof fn lemma_merge_lookup(s: Seq<EntryV>, rs: Seq<EntryV>, ns: Seq<u8>, nm: Seq<u8>)
    ensures
        lookup_spec(merge_spec(s, rs), ns, nm) == (if last_match(rs, ns, nm) < 0 {
            lookup_spec(s, ns, nm)
        } else {
            Some(rs[last_match(rs, ns, nm)].entity)
        }),
    decreases rs.len(),
{
    if rs.len() == 0 {
    } else {
        let rs2 = rs.drop_last();
        let r = rs.last();
        lemma_merge_lookup(s, rs2, ns, nm);
        lemma_insert_lookup(merge_spec(s, rs2), r.namespace, r.name, r.entity, ns, nm);
        if key_match(r, ns, nm) {
            assert(lookup_spec(merge_spec(s, rs), ns, nm) == Some(r.entity));
        } else {
            assert(!(ns == r.namespace && nm == r.name));
            assert(last_match(rs, ns, nm) == last_match(rs2, ns, nm));
            lemma_last_match_bounds(rs2, ns, nm);
            let lm = last_match(rs2, ns, nm);
            if lm >= 0 {
                assert(rs2[lm] == rs[lm]);
            }
        }
    }
}

/// Releases the registry and every entity handle it owns.
#[allow(non_snake_case)]
pub fn wasmer_import_object_destroy(import_object: wasmer_import_object_t) {
    let _ = import_object;
}

} // verus!
