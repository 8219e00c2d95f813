//! Stored records and the mapping from caller-facing identifiers to them.

use vstd::prelude::*;
use crate::id::{PointIdType, PseudoId, PseudoIdView, canonical, pseudo};
use crate::uuid_text::uuid_parse;

verus! {

/// A stored point as a retrieval returns it. `P` is the payload's type and `V` the
/// vector's: neither is looked into here.
#[derive(Debug, Clone, PartialEq)]
pub struct Record<P, V> {
    pub id: PointIdType,
    pub payload: Option<P>,
    pub vector: Option<V>,
}

/// The mapping that a list of keyed records stands for. Where a key occurs more than once,
/// its last record is the one that counts.
pub open spec fn entries_map<P, V>(entries: Seq<(PseudoId, Record<P, V>)>) -> Map<
    PseudoIdView,
    Record<P, V>,
>
    decreases entries.len(),
{
    if entries.len() == 0 {
        Map::empty()
    } else {
        entries_map(entries.drop_last()).insert(entries.last().0@, entries.last().1)
    }
}

/// No key occurs twice in the list.
pub open spec fn keys_distinct<P, V>(entries: Seq<(PseudoId, Record<P, V>)>) -> bool {
    forall|i: int, j: int| 0 <= i < j < entries.len() ==> entries[i].0@ != entries[j].0@
}

/// The mapping that retrieved records give once each is filed under the caller-facing form
/// of its own identifier. Where two records share an identifier, the later one counts.
pub open spec fn rekey<P, V>(records: Seq<Record<P, V>>) -> Map<PseudoIdView, Record<P, V>>
    decreases records.len(),
{
    if records.len() == 0 {
        Map::empty()
    } else {
        rekey(records.drop_last()).insert(pseudo(records.last().id), records.last())
    }
}

/// Every key converts to the identifier of the record filed under it.
pub open spec fn keyed_by_id<P, V>(m: Map<PseudoIdView, Record<P, V>>) -> bool {
    forall|k: PseudoIdView| #[trigger] m.contains_key(k) ==> canonical(k) == Some(m[k].id)
}

proof fn lemma_entries_map_keys<P, V>(entries: Seq<(PseudoId, Record<P, V>)>)
    ensures
        entries_map(entries).dom().finite(),
        forall|k: PseudoIdView| #[trigger]
            entries_map(entries).contains_key(k) <==> exists|i: int|
                0 <= i < entries.len() && #[trigger] entries[i].0@ == k,
    decreases entries.len(),
{
    if entries.len() > 0 {
        let rest = entries.drop_last();
        lemma_entries_map_keys(rest);
        assert forall|k: PseudoIdView| #[trigger]
            entries_map(entries).contains_key(k) <==> exists|i: int|
                0 <= i < entries.len() && #[trigger] entries[i].0@ == k by {
            if entries_map(entries).contains_key(k) {
                if k == entries.last().0@ {
                    assert(entries[entries.len() - 1].0@ == k);
                } else {
                    assert(entries_map(rest).contains_key(k));
                    let i = choose|i: int| 0 <= i < rest.len() && #[trigger] rest[i].0@ == k;
                    assert(entries[i].0@ == k);
                }
            }
            if exists|i: int| 0 <= i < entries.len() && #[trigger] entries[i].0@ == k {
                let i = choose|i: int| 0 <= i < entries.len() && #[trigger] entries[i].0@ == k;
                if i < rest.len() {
                    assert(rest[i].0@ == k);
                }
            }
        }
    }
}

proof fn lemma_entries_map_distinct<P, V>(entries: Seq<(PseudoId, Record<P, V>)>)
    requires
        keys_distinct(entries),
    ensures
        entries_map(entries).dom().finite(),
        entries_map(entries).dom().len() == entries.len(),
        forall|i: int|
            0 <= i < entries.len() ==> entries_map(entries)[#[trigger] entries[i].0@]
                == entries[i].1,
    decreases entries.len(),
{
    if entries.len() > 0 {
        let rest = entries.drop_last();
        let last = entries.last();
        assert(keys_distinct(rest)) by {
            assert forall|i: int, j: int| 0 <= i < j < rest.len() implies rest[i].0@
                != rest[j].0@ by {
                assert(entries[i].0@ != entries[j].0@);
            }
        }
        lemma_entries_map_distinct(rest);
        lemma_entries_map_keys(rest);
        assert(!entries_map(rest).contains_key(last.0@)) by {
            if entries_map(rest).contains_key(last.0@) {
                let i = choose|i: int| 0 <= i < rest.len() && #[trigger] rest[i].0@ == last.0@;
                assert(entries[i].0@ != entries[entries.len() - 1].0@);
            }
        }
        assert forall|i: int| 0 <= i < entries.len() implies entries_map(
            entries,
        )[#[trigger] entries[i].0@] == entries[i].1 by {
            if i < rest.len() {
                assert(rest[i].0@ == entries[i].0@);
                assert(entries[i].0@ != entries[entries.len() - 1].0@);
            }
        }
    }
}

proof fn lemma_entries_map_replace<P, V>(
    entries: Seq<(PseudoId, Record<P, V>)>,
    at: int,
    entry: (PseudoId, Record<P, V>),
)
    requires
        keys_distinct(entries),
        0 <= at < entries.len(),
        entries[at].0@ == entry.0@,
    ensures
        keys_distinct(entries.update(at, entry)),
        entries_map(entries.update(at, entry)) == entries_map(entries).insert(entry.0@, entry.1),
    decreases entries.len(),
{
    let changed = entries.update(at, entry);
    assert forall|i: int, j: int| 0 <= i < j < changed.len() implies changed[i].0@
        != changed[j].0@ by {
        assert(entries[i].0@ != entries[j].0@);
    }
    let rest = entries.drop_last();
    let last = entries.last();
    if at == entries.len() - 1 {
        assert(changed.drop_last() =~= rest);
        assert(entries_map(changed) =~= entries_map(entries).insert(entry.0@, entry.1));
    } else {
        assert(keys_distinct(rest)) by {
            assert forall|i: int, j: int| 0 <= i < j < rest.len() implies rest[i].0@
                != rest[j].0@ by {
                assert(entries[i].0@ != entries[j].0@);
            }
        }
        lemma_entries_map_replace(rest, at, entry);
        assert(changed.drop_last() =~= rest.update(at, entry));
        assert(changed.last() == last);
        assert(entries[at].0@ != entries[entries.len() - 1].0@);
        assert(entries_map(changed) =~= entries_map(entries).insert(entry.0@, entry.1));
    }
}

/// Where every key converts to the identifier of its record, no key is a negative number,
/// and no key is a text that does not read as a UUID.
pub proof fn lemma_keys_are_identifiers<P, V>(m: Map<PseudoIdView, Record<P, V>>, key: PseudoIdView)
    requires
        keyed_by_id(m),
        m.contains_key(key),
    ensures
        canonical(key) == Some(m[key].id),
        key matches PseudoIdView::NumberI64(n) ==> n >= 0,
        key matches PseudoIdView::String(text) ==> uuid_parse(text) is Some,
{
}

/// The keys of the filed mapping are the caller-facing forms of the records' identifiers,
/// no others; and under each key lies one of the records, whose identifier has that form.
pub proof fn lemma_rekey_keys<P, V>(records: Seq<Record<P, V>>)
    ensures
        rekey(records).dom().finite(),
        forall|k: PseudoIdView| #[trigger]
            rekey(records).contains_key(k) <==> exists|i: int|
                0 <= i < records.len() && pseudo((#[trigger] records[i]).id) == k,
        forall|k: PseudoIdView| #[trigger]
            rekey(records).contains_key(k) ==> records.contains(rekey(records)[k]) && pseudo(
                rekey(records)[k].id,
            ) == k,
    decreases records.len(),
{
    if records.len() > 0 {
        let rest = records.drop_last();
        let last = records.last();
        lemma_rekey_keys(rest);
        assert forall|k: PseudoIdView| #[trigger]
            rekey(records).contains_key(k) <==> exists|i: int|
                0 <= i < records.len() && pseudo((#[trigger] records[i]).id) == k by {
            if rekey(records).contains_key(k) {
                if k == pseudo(last.id) {
                    assert(pseudo(records[records.len() - 1].id) == k);
                } else {
                    assert(rekey(rest).contains_key(k));
                    let i = choose|i: int|
                        0 <= i < rest.len() && pseudo((#[trigger] rest[i]).id) == k;
                    assert(pseudo(records[i].id) == k);
                }
            }
            if exists|i: int| 0 <= i < records.len() && pseudo((#[trigger] records[i]).id) == k {
                let i = choose|i: int|
                    0 <= i < records.len() && pseudo((#[trigger] records[i]).id) == k;
                if i < rest.len() {
                    assert(pseudo(rest[i].id) == k);
                }
            }
        }
        assert forall|k: PseudoIdView| #[trigger]
            rekey(records).contains_key(k) implies records.contains(rekey(records)[k])
            && pseudo(rekey(records)[k].id) == k by {
            if k == pseudo(last.id) {
                assert(records[records.len() - 1] == last);
            } else {
                let kept = rekey(rest)[k];
                assert(rest.contains(kept));
                let i = choose|i: int| 0 <= i < rest.len() && rest[i] == kept;
                assert(records[i] == kept);
            }
        }
    }
}

/// Filing does not depend on the order of the records: where two lists hold the same
/// records, no identifier twice, and the keys of both mappings convert back to their
/// records' identifiers, as they do in every mapping that `join_records` returns, the two
/// mappings are equal.
pub proof fn lemma_rekey_ignores_order<P, V>(
    first: Seq<Record<P, V>>,
    second: Seq<Record<P, V>>,
)
    requires
        first.to_multiset() == second.to_multiset(),
        forall|i: int, j: int| 0 <= i < j < first.len() ==> first[i].id != first[j].id,
        keyed_by_id(rekey(first)),
        keyed_by_id(rekey(second)),
    ensures
        rekey(first) == rekey(second),
{
    broadcast use vstd::seq_lib::group_to_multiset_ensures;

    lemma_rekey_keys(first);
    lemma_rekey_keys(second);
    let a = rekey(first);
    let b = rekey(second);
    assert forall|k: PseudoIdView| a.contains_key(k) implies #[trigger] b.contains_key(k) && a[k]
        == b[k] by {
        let record = a[k];
        assert(first.contains(record));
        assert(first.to_multiset().count(record) > 0);
        assert(second.contains(record));
        let j = choose|j: int| 0 <= j < second.len() && second[j] == record;
        assert(pseudo(second[j].id) == k);
        assert(b.contains_key(k));
        lemma_same_id_same_record(first, second, record, b[k]);
    }
    assert forall|k: PseudoIdView| b.contains_key(k) implies #[trigger] a.contains_key(k) by {
        let record = b[k];
        assert(second.contains(record));
        assert(second.to_multiset().count(record) > 0);
        assert(first.contains(record));
        let i = choose|i: int| 0 <= i < first.len() && first[i] == record;
        assert(pseudo(first[i].id) == k);
    }
    assert(a =~= b);
}

proof fn lemma_same_id_same_record<P, V>(
    first: Seq<Record<P, V>>,
    second: Seq<Record<P, V>>,
    x: Record<P, V>,
    y: Record<P, V>,
)
    requires
        first.to_multiset() == second.to_multiset(),
        forall|i: int, j: int| 0 <= i < j < first.len() ==> first[i].id != first[j].id,
        first.contains(x),
        second.contains(y),
        x.id == y.id,
    ensures
        x == y,
{
    broadcast use vstd::seq_lib::group_to_multiset_ensures;

    assert(second.to_multiset().count(y) > 0);
    assert(first.contains(y));
    let i = choose|i: int| 0 <= i < first.len() && first[i] == x;
    let j = choose|j: int| 0 <= j < first.len() && first[j] == y;
    if i < j {
        assert(first[i].id != first[j].id);
    } else if j < i {
        assert(first[j].id != first[i].id);
    }
}

/// The outcome of a lookup: records by caller-facing identifier, each key held once.
#[derive(Debug)]
pub struct LookupResult<P, V> {
    entries: Vec<(PseudoId, Record<P, V>)>,
}

impl<P, V> View for LookupResult<P, V> {
    type V = Map<PseudoIdView, Record<P, V>>;

    closed spec fn view(&self) -> Map<PseudoIdView, Record<P, V>> {
        entries_map(self.entries@)
    }
}

impl<P, V> LookupResult<P, V> {
    #[verifier::type_invariant]
    spec fn no_key_twice(&self) -> bool {
        keys_distinct(self.entries@)
    }

    /// A mapping that holds nothing.
    pub fn new() -> (r: LookupResult<P, V>)
        ensures
            r@ == Map::<PseudoIdView, Record<P, V>>::empty(),
    {
        LookupResult { entries: Vec::new() }
    }

    fn position(&self, key: &PseudoId) -> (r: Option<usize>)
        ensures
            match r {
                Some(at) => at < self.entries@.len() && self.entries@[at as int].0@ == key@,
                None => forall|i: int|
                    0 <= i < self.entries@.len() ==> self.entries@[i].0@ != key@,
            },
    {
        let mut at: usize = 0;
        while at < self.entries.len()
            invariant
                at <= self.entries@.len(),
                forall|i: int| 0 <= i < at ==> self.entries@[i].0@ != key@,
            decreases self.entries@.len() - at,
        {
            if self.entries[at].0 == *key {
                return Some(at);
            }
            at += 1;
        }
        None
    }

    /// The number of keys.
    pub fn len(&self) -> (r: usize)
        ensures
            self@.dom().finite(),
            r == self@.len(),
    {
        proof {
            use_type_invariant(self);
            lemma_entries_map_distinct(self.entries@);
        }
        self.entries.len()
    }

    /// Whether the mapping holds nothing.
    pub fn is_empty(&self) -> (r: bool)
        ensures
            r == (self@ == Map::<PseudoIdView, Record<P, V>>::empty()),
    {
        proof {
            use_type_invariant(self);
            lemma_entries_map_distinct(self.entries@);
            if self.entries@.len() == 0 {
                assert(self@ == Map::<PseudoIdView, Record<P, V>>::empty());
            } else {
                assert(self@.dom().len() > 0);
                assert(self@ != Map::<PseudoIdView, Record<P, V>>::empty());
            }
        }
        self.entries.len() == 0
    }

    /// Whether a record is filed under the key.
    pub fn contains_key(&self, key: &PseudoId) -> (r: bool)
        ensures
            r == self@.contains_key(key@),
    {
        proof {
            lemma_entries_map_keys(self.entries@);
        }
        self.position(key).is_some()
    }

    /// The record filed under the key, if there is one.
    pub fn get(&self, key: &PseudoId) -> (r: Option<&Record<P, V>>)
        ensures
            match r {
                Some(record) => self@.contains_key(key@) && *record == self@[key@],
                None => !self@.contains_key(key@),
            },
    {
        proof {
            use_type_invariant(self);
            lemma_entries_map_keys(self.entries@);
            lemma_entries_map_distinct(self.entries@);
        }
        match self.position(key) {
            Some(at) => Some(&self.entries[at].1),
            None => None,
        }
    }

    /// Files the record under the key, in place of any record filed there before.
    pub fn insert(&mut self, key: PseudoId, record: Record<P, V>)
        ensures
            final(self)@ == old(self)@.insert(key@, record),
    {
        proof {
            use_type_invariant(&*self);
            lemma_entries_map_keys(self.entries@);
        }
        let found = self.position(&key);
        let mut entries: Vec<(PseudoId, Record<P, V>)> = Vec::new();
        std::mem::swap(&mut self.entries, &mut entries);
        match found {
            Some(at) => {
                proof {
                    lemma_entries_map_replace(entries@, at as int, (key, record));
                }
                entries.set(at, (key, record));
            },
            None => {
                proof {
                    let grown = entries@.push((key, record));
                    assert(grown.drop_last() =~= entries@);
                    assert forall|i: int, j: int| 0 <= i < j < grown.len() implies grown[i].0@
                        != grown[j].0@ by {
                        if j < entries@.len() {
                            assert(entries@[i].0@ != entries@[j].0@);
                        }
                    }
                }
                entries.push((key, record));
            },
        }
        std::mem::swap(&mut self.entries, &mut entries);
    }

    /// Gives the mapping up as a list of keyed records, no key twice.
    pub fn into_entries(self) -> (r: Vec<(PseudoId, Record<P, V>)>)
        ensures
            keys_distinct(r@),
            entries_map(r@) == self@,
    {
        proof {
            use_type_invariant(&self);
        }
        self.entries
    }
}

} // verus!
