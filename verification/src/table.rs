//! Location tables: name-to-location maps built by reflection.
//!
//! A table keeps its entries in insertion order with unique keys; inserting an
//! existing key overwrites its value in place, so the last declaration of a
//! name wins.

use vstd::prelude::*;

verus! {

/// The map described by an entry list: later entries overwrite earlier ones.
pub open spec fn map_of<V>(entries: Seq<(Seq<u8>, V)>) -> Map<Seq<u8>, V>
    decreases entries.len(),
{
    if entries.len() == 0 {
        Map::empty()
    } else {
        map_of(entries.drop_last()).insert(entries.last().0, entries.last().1)
    }
}

/// The table built from declared names and the driver's answers, in order:
/// an unresolved name (`None`) is skipped, a resolved one is inserted, and a
/// later declaration of the same name overwrites the earlier entry.
pub open spec fn table_map<V>(names: Seq<Seq<u8>>, locs: Seq<Option<V>>) -> Map<Seq<u8>, V>
    decreases names.len(),
{
    if names.len() == 0 {
        Map::empty()
    } else {
        let m = table_map(names.drop_last(), locs.drop_last());
        match locs.last() {
            Some(v) => m.insert(names.last(), v),
            None => m,
        }
    }
}

/// A location table holds exactly the declared names that the driver
/// resolved: a name is a key if and only if some declaration of it got a
/// location.
pub proof fn lemma_table_map_exact<V>(names: Seq<Seq<u8>>, locs: Seq<Option<V>>)
    requires
        names.len() == locs.len(),
    ensures
        forall|n: Seq<u8>| #[trigger] table_map(names, locs).contains_key(n)
            <==> exists|k: int| 0 <= k < names.len() && names[k] == n && locs[k] is Some,
    decreases names.len(),
{
    if names.len() > 0 {
        let names0 = names.drop_last();
        let locs0 = locs.drop_last();
        let last = names.len() - 1;
        lemma_table_map_exact(names0, locs0);
        assert forall|n: Seq<u8>| #[trigger] table_map(names, locs).contains_key(n)
            implies exists|k: int| 0 <= k < names.len() && names[k] == n && locs[k] is Some
        by {
            if locs.last() is Some && n == names.last() {
                assert(names[last] == n && locs[last] is Some);
            } else {
                assert(table_map(names0, locs0).contains_key(n));
                let k = choose|k: int|
                    0 <= k < names0.len() && names0[k] == n && locs0[k] is Some;
                assert(names[k] == n && locs[k] is Some);
            }
        }
        assert forall|n: Seq<u8>|
            exists|k: int| 0 <= k < names.len() && names[k] == n && locs[k] is Some
            implies #[trigger] table_map(names, locs).contains_key(n)
        by {
            let k = choose|k: int| 0 <= k < names.len() && names[k] == n && locs[k] is Some;
            if k == last {
                assert(table_map(names, locs).contains_key(n));
            } else {
                assert(names0[k] == n && locs0[k] is Some);
                assert(table_map(names0, locs0).contains_key(n));
            }
        }
    }
}

/// A name-to-location table with unique keys in insertion order.
pub struct LocationTable<V> {
    entries: Vec<(Vec<u8>, V)>,
}

/// The entries of a table, with names as byte sequences.
spec fn entry_views<V>(entries: Seq<(Vec<u8>, V)>) -> Seq<(Seq<u8>, V)> {
    entries.map_values(|e: (Vec<u8>, V)| (e.0@, e.1))
}

/// The keys of a table, in entry order.
spec fn key_views<V>(entries: Seq<(Vec<u8>, V)>) -> Seq<Seq<u8>> {
    entries.map_values(|e: (Vec<u8>, V)| e.0@)
}

impl<V> View for LocationTable<V> {
    type V = Map<Seq<u8>, V>;

    closed spec fn view(&self) -> Map<Seq<u8>, V> {
        map_of(entry_views(self.entries@))
    }
}

impl<V> LocationTable<V> {
    /// The keys, in insertion order.
    pub closed spec fn key_seq(&self) -> Seq<Seq<u8>> {
        key_views(self.entries@)
    }

    /// Well-formed: no key occurs twice.
    pub open spec fn wf(&self) -> bool {
        forall|i: int, j: int|
            0 <= i < j < self.key_seq().len() ==> self.key_seq()[i] != self.key_seq()[j]
    }

    pub fn new() -> (r: Self)
        ensures
            r.wf(),
            r@ == Map::<Seq<u8>, V>::empty(),
            r.key_seq() == Seq::<Seq<u8>>::empty(),
    {
        let r = LocationTable { entries: Vec::new() };
        proof {
            assert(entry_views(r.entries@) =~= Seq::empty());
            assert(r.key_seq() =~= Seq::<Seq<u8>>::empty());
        }
        r
    }

    pub fn len(&self) -> (r: usize)
        ensures
            r == self.key_seq().len(),
    {
        self.entries.len()
    }

    /// The key at position `i` of the insertion order.
    pub fn key_at(&self, i: usize) -> (r: &Vec<u8>)
        requires
            i < self.key_seq().len(),
        ensures
            r@ == self.key_seq()[i as int],
    {
        &self.entries[i].0
    }

    /// With unique keys, the entries and the key order name the same keys.
    proof fn lemma_unique_entries(&self)
        requires
            self.wf(),
        ensures
            forall|a: int, b: int|
                0 <= a < b < entry_views(self.entries@).len()
                    ==> (#[trigger] entry_views(self.entries@)[a]).0
                        != (#[trigger] entry_views(self.entries@)[b]).0,
    {
        let es = entry_views(self.entries@);
        assert forall|a: int, b: int| 0 <= a < b < es.len() implies (#[trigger] es[a]).0
            != (#[trigger] es[b]).0 by {
            assert(es[a].0 == self.key_seq()[a]);
            assert(es[b].0 == self.key_seq()[b]);
        }
    }

    /// The value at position `i` of the insertion order.
    pub fn value_at(&self, i: usize) -> (r: &V)
        requires
            i < self.key_seq().len(),
        ensures
            self.wf() ==> self@.contains_key(self.key_seq()[i as int])
                && *r == self@[self.key_seq()[i as int]],
    {
        proof {
            if self.wf() {
                let es = entry_views(self.entries@);
                self.lemma_unique_entries();
                lemma_map_of_at(es, i as int);
                assert(es[i as int].0 == self.key_seq()[i as int]);
            }
        }
        &self.entries[i].1
    }

    /// Look a name up.
    pub fn get(&self, name: &Vec<u8>) -> (r: Option<&V>)
        requires
            self.wf(),
        ensures
            match r {
                Some(v) => self@.contains_key(name@) && *v == self@[name@],
                None => !self@.contains_key(name@),
            },
    {
        let ghost es = entry_views(self.entries@);
        let mut i: usize = 0;
        while i < self.entries.len()
            invariant
                0 <= i <= self.entries@.len(),
                self.wf(),
                es == entry_views(self.entries@),
                forall|k: int| 0 <= k < i ==> self.key_seq()[k] != name@,
            decreases self.entries@.len() - i,
        {
            if bytes_eq(&self.entries[i].0, name) {
                proof {
                    self.lemma_unique_entries();
                    lemma_map_of_at(es, i as int);
                    assert(es[i as int].0 == name@);
                }
                return Some(&self.entries[i].1);
            }
            i += 1;
        }
        proof {
            lemma_map_of_keys(es);
            if self@.contains_key(name@) {
                let k = choose|k: int| 0 <= k < es.len() && es[k].0 == name@;
                assert(self.key_seq()[k] == name@);
            }
        }
        None
    }

    /// Insert a name. An existing key keeps its place and gets the new value;
    /// a new key goes to the end.
    pub fn insert(&mut self, name: Vec<u8>, value: V)
        requires
            old(self).wf(),
        ensures
            final(self).wf(),
            final(self)@ == old(self)@.insert(name@, value),
            final(self).key_seq() == (if old(self).key_seq().contains(name@) {
                old(self).key_seq()
            } else {
                old(self).key_seq().push(name@)
            }),
    {
        let ghost es0 = entry_views(self.entries@);
        let mut i: usize = 0;
        while i < self.entries.len()
            invariant
                0 <= i <= self.entries@.len(),
                self.wf(),
                *self == *old(self),
                es0 == entry_views(self.entries@),
                forall|k: int| 0 <= k < i ==> self.key_seq()[k] != name@,
            decreases self.entries@.len() - i,
        {
            if bytes_eq(&self.entries[i].0, &name) {
                let ghost old_keys = self.key_seq();
                proof {
                    self.lemma_unique_entries();
                    assert(es0[i as int].0 == old_keys[i as int]);
                    assert(old_keys[i as int] == name@);
                }
                self.entries[i] = (name, value);
                proof {
                    let es1 = entry_views(self.entries@);
                    assert forall|k: int| 0 <= k < es1.len()
                        implies #[trigger] es1[k] == es0.update(i as int, (name@, value))[k]
                    by {
                        if k != i {
                            assert(self.entries@[k] == old(self).entries@[k]);
                        }
                    }
                    assert(es1 =~= es0.update(i as int, (name@, value)));
                    assert forall|k: int| 0 <= k < self.key_seq().len()
                        implies #[trigger] self.key_seq()[k] == old_keys[k]
                    by {
                        if k != i {
                            assert(self.entries@[k] == old(self).entries@[k]);
                        }
                    }
                    assert(self.key_seq() =~= old_keys);
                    lemma_map_of_update(es0, i as int, value);
                    assert(old_keys.contains(name@)) by {
                        assert(old_keys[i as int] == name@);
                    }
                }
                return;
            }
            i += 1;
        }
        let ghost old_keys = self.key_seq();
        self.entries.push((name, value));
        proof {
            let es1 = entry_views(self.entries@);
            assert(es1 =~= es0.push((name@, value)));
            assert(es1.drop_last() =~= es0);
            assert(es1.last() == (name@, value));
            assert(self.key_seq() =~= old_keys.push(name@));
            assert(!old_keys.contains(name@)) by {
                if old_keys.contains(name@) {
                    let j = choose|j: int| 0 <= j < old_keys.len() && old_keys[j] == name@;
                }
            }
            assert forall|a: int, b: int|
                0 <= a < b < self.key_seq().len() implies self.key_seq()[a] != self.key_seq()[b]
            by {
                assert(self.key_seq()[a] == old_keys.push(name@)[a]);
                assert(self.key_seq()[b] == old_keys.push(name@)[b]);
                if b < old_keys.len() {
                } else {
                    assert(old_keys[a] != name@);
                }
            }
        }
    }
}

/// With unique keys, the entry at `i` gives the map's value for its key.
proof fn lemma_map_of_at<V>(es: Seq<(Seq<u8>, V)>, i: int)
    requires
        0 <= i < es.len(),
        forall|a: int, b: int| 0 <= a < b < es.len() ==> es[a].0 != es[b].0,
    ensures
        map_of(es).contains_key(es[i].0),
        map_of(es)[es[i].0] == es[i].1,
    decreases es.len(),
{
    if i == es.len() - 1 {
    } else {
        lemma_map_of_at(es.drop_last(), i);
        assert(es.last().0 != es[i].0);
    }
}

/// Every key of the map stands in the entry list.
proof fn lemma_map_of_keys<V>(es: Seq<(Seq<u8>, V)>)
    ensures
        forall|n: Seq<u8>| #[trigger] map_of(es).contains_key(n)
            ==> exists|k: int| 0 <= k < es.len() && es[k].0 == n,
    decreases es.len(),
{
    if es.len() > 0 {
        lemma_map_of_keys(es.drop_last());
        assert forall|n: Seq<u8>| #[trigger] map_of(es).contains_key(n)
            implies exists|k: int| 0 <= k < es.len() && es[k].0 == n
        by {
            if n == es.last().0 {
                assert(es[es.len() - 1].0 == n);
            } else {
                assert(map_of(es.drop_last()).contains_key(n));
                let k = choose|k: int| 0 <= k < es.len() - 1 && es.drop_last()[k].0 == n;
                assert(es[k].0 == n);
            }
        }
    }
}

/// With unique keys, overwriting the entry holding a key changes the map as
/// an insert of that key does.
proof fn lemma_map_of_update<V>(es: Seq<(Seq<u8>, V)>, i: int, value: V)
    requires
        0 <= i < es.len(),
        forall|a: int, b: int| 0 <= a < b < es.len() ==> es[a].0 != es[b].0,
    ensures
        map_of(es.update(i, (es[i].0, value))) == map_of(es).insert(es[i].0, value),
    decreases es.len(),
{
    let es1 = es.update(i, (es[i].0, value));
    if i == es.len() - 1 {
        assert(es1.drop_last() =~= es.drop_last());
        assert(map_of(es1) =~= map_of(es).insert(es[i].0, value));
    } else {
        lemma_map_of_update(es.drop_last(), i, value);
        assert(es1.drop_last() =~= es.drop_last().update(i, (es[i].0, value)));
        assert(es1.last() == es.last());
        assert(es.last().0 != es[i].0);
        assert(map_of(es1) =~= map_of(es).insert(es[i].0, value));
    }
}

/// A well-formed table maps a name if and only if the name stands in its key
/// order: the view and the keys agree, with no extra entries on either side.
pub proof fn lemma_view_keys<V>(t: &LocationTable<V>)
    requires
        t.wf(),
    ensures
        forall|n: Seq<u8>| #[trigger] t@.contains_key(n) <==> t.key_seq().contains(n),
{
    let es = entry_views(t.entries@);
    lemma_map_of_keys(es);
    assert forall|n: Seq<u8>| #[trigger] t@.contains_key(n) implies t.key_seq().contains(n) by {
        let k = choose|k: int| 0 <= k < es.len() && es[k].0 == n;
        assert(t.key_seq()[k] == n);
    }
    assert forall|n: Seq<u8>| t.key_seq().contains(n) implies #[trigger] t@.contains_key(n) by {
        let k = choose|k: int| 0 <= k < t.key_seq().len() && t.key_seq()[k] == n;
        t.lemma_unique_entries();
        lemma_map_of_at(es, k);
        assert(es[k].0 == n);
    }
}

/// Build a location table from declared names and the driver's answers, in
/// order: an unresolved name is skipped, a resolved one is inserted, and a
/// later declaration of the same name overwrites the earlier entry.
pub fn build_table<V>(names: &Vec<Vec<u8>>, locs: Vec<Option<V>>) -> (t: LocationTable<V>)
    requires
        names@.len() == locs@.len(),
    ensures
        t.wf(),
        t@ == table_map(names@.map_values(|n: Vec<u8>| n@), locs@),
{
    let ghost names_v = names@.map_values(|n: Vec<u8>| n@);
    let ghost all_locs = locs@;
    let mut rest = locs;
    let mut t: LocationTable<V> = LocationTable::new();
    let mut k: usize = 0;
    proof {
        assert(names_v.take(0) =~= Seq::<Seq<u8>>::empty());
        assert(all_locs.take(0) =~= Seq::<Option<V>>::empty());
        assert(rest@ =~= all_locs.skip(0));
    }
    while k < names.len()
        invariant
            0 <= k <= names@.len(),
            names_v == names@.map_values(|n: Vec<u8>| n@),
            names_v.len() == all_locs.len(),
            rest@ == all_locs.skip(k as int),
            t.wf(),
            t@ == table_map(names_v.take(k as int), all_locs.take(k as int)),
        decreases names@.len() - k,
    {
        let v = rest.remove(0);
        proof {
            assert(all_locs.skip(k as int)[0] == all_locs[k as int]);
            assert(all_locs.skip(k as int).remove(0) =~= all_locs.skip(k + 1));
        }
        match v {
            Some(value) => {
                t.insert(clone_bytes(&names[k]), value);
            },
            None => (),
        }
        proof {
            assert(names_v.take(k + 1).drop_last() =~= names_v.take(k as int));
            assert(all_locs.take(k + 1).drop_last() =~= all_locs.take(k as int));
            assert(names_v.take(k + 1).last() == names_v[k as int]);
            assert(all_locs.take(k + 1).last() == all_locs[k as int]);
            assert(t@ == table_map(names_v.take(k + 1), all_locs.take(k + 1)));
        }
        k += 1;
    }
    proof {
        assert(names_v.take(names_v.len() as int) =~= names_v);
        assert(all_locs.take(all_locs.len() as int) =~= all_locs);
    }
    t
}

/// Byte-for-byte equality of two names.
pub fn bytes_eq(a: &Vec<u8>, b: &Vec<u8>) -> (r: bool)
    ensures
        r == (a@ == b@),
{
    if a.len() != b.len() {
        return false;
    }
    let mut i: usize = 0;
    while i < a.len()
        invariant
            0 <= i <= a@.len(),
            a@.len() == b@.len(),
            forall|k: int| 0 <= k < i ==> a@[k] == b@[k],
        decreases a@.len() - i,
    {
        if a[i] != b[i] {
            return false;
        }
        i += 1;
    }
    proof {
        assert(a@ =~= b@);
    }
    true
}

/// Copy a name.
pub fn clone_bytes(v: &Vec<u8>) -> (r: Vec<u8>)
    ensures
        r@ == v@,
{
    let mut r: Vec<u8> = Vec::new();
    let mut i: usize = 0;
    while i < v.len()
        invariant
            0 <= i <= v@.len(),
            r@ == v@.take(i as int),
        decreases v@.len() - i,
    {
        r.push(v[i]);
        proof {
            assert(r@ =~= v@.take(i + 1));
        }
        i += 1;
    }
    proof {
        assert(v@.take(v@.len() as int) =~= v@);
    }
    r
}

} // verus!
