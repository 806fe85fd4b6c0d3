//! The entity cache: the records fetched so far, by identifier.

use crate::entity::EntityRecord;
use crate::text::same_text;
use vstd::prelude::*;

verus! {

/// Some record of `records` has the identifier `id`.
pub open spec fn has_id(records: Seq<EntityRecord>, id: Seq<char>) -> bool {
    exists|i: int| 0 <= i < records.len() && #[trigger] records[i].id@ == id
}

/// The place of the record with the identifier `id`.
pub open spec fn slot(records: Seq<EntityRecord>, id: Seq<char>) -> int {
    choose|i: int| 0 <= i < records.len() && #[trigger] records[i].id@ == id
}

/// No two records of `records` share an identifier.
pub open spec fn unique_ids(records: Seq<EntityRecord>) -> bool {
    forall|i: int, j: int|
        0 <= i < records.len() && 0 <= j < records.len() && i != j ==> #[trigger] records[i].id@
            != #[trigger] records[j].id@
}

/// The records as a map from identifier to record.
pub open spec fn as_map(records: Seq<EntityRecord>) -> Map<Seq<char>, EntityRecord> {
    Map::new(|id: Seq<char>| has_id(records, id), |id: Seq<char>| records[slot(records, id)])
}

/// Where identifiers are unique, the record at `i` is the one that the map
/// gives for its identifier.
pub proof fn lemma_slot(records: Seq<EntityRecord>, i: int)
    requires
        unique_ids(records),
        0 <= i < records.len(),
    ensures
        has_id(records, records[i].id@),
        slot(records, records[i].id@) == i,
        as_map(records)[records[i].id@] == records[i],
{
    let id = records[i].id@;
    assert(has_id(records, id));
    let j = slot(records, id);
    assert(0 <= j < records.len() && records[j].id@ == id);
}

/// Appending a record with a new identifier inserts it into the map.
pub proof fn lemma_push(records: Seq<EntityRecord>, record: EntityRecord)
    requires
        unique_ids(records),
        !has_id(records, record.id@),
    ensures
        unique_ids(records.push(record)),
        as_map(records.push(record)) == as_map(records).insert(record.id@, record),
{
    let after = records.push(record);
    assert(unique_ids(after)) by {
        assert forall|i: int, j: int|
            0 <= i < after.len() && 0 <= j < after.len() && i != j implies #[trigger] after[i].id@
            != #[trigger] after[j].id@ by {
            if i < records.len() {
                assert(after[i] == records[i]);
            }
            if j < records.len() {
                assert(after[j] == records[j]);
            }
        }
    }
    assert forall|id: Seq<char>| has_id(after, id) == (id == record.id@ || has_id(records, id)) by {
        if has_id(after, id) {
            let i = slot(after, id);
            if i < records.len() {
                assert(records[i].id@ == id);
            }
        }
        if id == record.id@ {
            assert(after[records.len() as int].id@ == id);
        }
        if has_id(records, id) {
            let i = slot(records, id);
            assert(after[i].id@ == id);
        }
    }
    assert forall|id: Seq<char>| has_id(after, id) implies #[trigger] as_map(after)[id] == as_map(
        records,
    ).insert(record.id@, record)[id] by {
        let i = slot(after, id);
        lemma_slot(after, i);
        if i < records.len() {
            assert(after[i] == records[i]);
            lemma_slot(records, i);
        }
    }
    assert(as_map(after) =~= as_map(records).insert(record.id@, record));
}

/// Putting a record in the place of the one with the same identifier
/// overwrites that identifier in the map.
pub proof fn lemma_replace(records: Seq<EntityRecord>, i: int, record: EntityRecord)
    requires
        unique_ids(records),
        0 <= i < records.len(),
        records[i].id@ == record.id@,
    ensures
        unique_ids(records.update(i, record)),
        as_map(records.update(i, record)) == as_map(records).insert(record.id@, record),
{
    let after = records.update(i, record);
    assert(unique_ids(after)) by {
        assert forall|a: int, b: int|
            0 <= a < after.len() && 0 <= b < after.len() && a != b implies #[trigger] after[a].id@
            != #[trigger] after[b].id@ by {
            assert(after[a].id@ == records[a].id@);
            assert(after[b].id@ == records[b].id@);
        }
    }
    assert forall|id: Seq<char>| has_id(after, id) == has_id(records, id) by {
        if has_id(after, id) {
            let k = slot(after, id);
            assert(records[k].id@ == id);
        }
        if has_id(records, id) {
            let k = slot(records, id);
            assert(after[k].id@ == id);
        }
    }
    lemma_slot(records, i);
    assert forall|id: Seq<char>| has_id(after, id) implies #[trigger] as_map(after)[id] == as_map(
        records,
    ).insert(record.id@, record)[id] by {
        let k = slot(after, id);
        lemma_slot(after, k);
        if k != i {
            assert(after[k] == records[k]);
            lemma_slot(records, k);
        }
    }
    assert(as_map(after) =~= as_map(records).insert(record.id@, record));
}

/// Taking the record at `i` out removes its identifier from the map.
pub proof fn lemma_remove(records: Seq<EntityRecord>, i: int)
    requires
        unique_ids(records),
        0 <= i < records.len(),
    ensures
        unique_ids(records.remove(i)),
        as_map(records.remove(i)) == as_map(records).remove(records[i].id@),
{
    let after = records.remove(i);
    let gone = records[i].id@;
    assert forall|k: int| 0 <= k < after.len() implies #[trigger] after[k] == records[if k < i {
        k
    } else {
        k + 1
    }] by {}
    assert(unique_ids(after)) by {
        assert forall|a: int, b: int|
            0 <= a < after.len() && 0 <= b < after.len() && a != b implies #[trigger] after[a].id@
            != #[trigger] after[b].id@ by {
            let a0 = if a < i { a } else { a + 1 };
            let b0 = if b < i { b } else { b + 1 };
            assert(after[a] == records[a0]);
            assert(after[b] == records[b0]);
        }
    }
    assert forall|id: Seq<char>| has_id(after, id) == (id != gone && has_id(records, id)) by {
        if has_id(after, id) {
            let k = slot(after, id);
            let k0 = if k < i { k } else { k + 1 };
            assert(after[k] == records[k0]);
            assert(records[k0].id@ == id);
        }
        if id != gone && has_id(records, id) {
            let k0 = slot(records, id);
            let k = if k0 < i { k0 } else { k0 - 1 };
            assert(after[k] == records[k0]);
            assert(after[k].id@ == id);
        }
    }
    assert forall|id: Seq<char>| has_id(after, id) implies #[trigger] as_map(after)[id] == as_map(
        records,
    ).remove(gone)[id] by {
        let k = slot(after, id);
        lemma_slot(after, k);
        let k0 = if k < i { k } else { k + 1 };
        assert(after[k] == records[k0]);
        lemma_slot(records, k0);
    }
    assert(as_map(after) =~= as_map(records).remove(gone));
}

/// The records fetched so far. No identifier occurs twice.
#[derive(Clone, Debug)]
pub struct EntityCache {
    records: Vec<EntityRecord>,
}

impl View for EntityCache {
    type V = Map<Seq<char>, EntityRecord>;

    closed spec fn view(&self) -> Map<Seq<char>, EntityRecord> {
        as_map(self.records@)
    }
}

impl EntityCache {
    /// The cache is in order: no identifier occurs twice.
    pub closed spec fn wf(self) -> bool {
        unique_ids(self.records@)
    }

    /// An empty cache.
    pub fn new() -> (out: EntityCache)
        ensures
            out.wf(),
            out@ == Map::<Seq<char>, EntityRecord>::empty(),
    {
        let out = EntityCache { records: Vec::new() };
        proof {
            assert(out@ =~= Map::<Seq<char>, EntityRecord>::empty());
        }
        out
    }

    fn position(&self, id: &str) -> (out: Option<usize>)
        ensures
            out is Some == has_id(self.records@, id@),
            out matches Some(i) ==> i < self.records@.len() && self.records@[i as int].id@ == id@,
    {
        let mut i: usize = 0;
        while i < self.records.len()
            invariant
                i <= self.records.len(),
                forall|k: int| 0 <= k < i ==> self.records@[k].id@ != id@,
            decreases self.records.len() - i,
        {
            if same_text(self.records[i].id.as_str(), id) {
                return Some(i);
            }
            i += 1;
        }
        None
    }

    /// The number of records held.
    pub fn len(&self) -> (out: usize)
        requires
            self.wf(),
        ensures
            out == self@.dom().len(),
            self@.dom().finite(),
    {
        proof {
            lemma_count(self.records@);
        }
        self.records.len()
    }

    /// Whether a record with the identifier `id` is held.
    pub fn has_entity(&self, id: &str) -> (out: bool)
        ensures
            out == self@.contains_key(id@),
    {
        self.position(id).is_some()
    }

    /// The record with the identifier `id`, if one is held. Nothing is
    /// fetched.
    pub fn get_entity(&self, id: &str) -> (out: Option<&EntityRecord>)
        requires
            self.wf(),
        ensures
            out is Some == self@.contains_key(id@),
            out matches Some(r) ==> *r == self@[id@],
    {
        match self.position(id) {
            Some(i) => {
                proof {
                    lemma_slot(self.records@, i as int);
                }
                Some(&self.records[i])
            },
            None => None,
        }
    }

    /// Stores `record` under its identifier, in place of any record held
    /// under it before.
    pub fn set_entity(&mut self, record: EntityRecord)
        requires
            old(self).wf(),
        ensures
            final(self).wf(),
            final(self)@ == old(self)@.insert(record.id@, record),
    {
        match self.position(record.id.as_str()) {
            Some(i) => {
                proof {
                    lemma_replace(self.records@, i as int, record);
                }
                self.records.set(i, record);
            },
            None => {
                proof {
                    lemma_push(self.records@, record);
                }
                self.records.push(record);
            },
        }
    }

    /// Drops the record with the identifier `id` and hands it out; `None`
    /// where none was held.
    pub fn remove_entity(&mut self, id: &str) -> (out: Option<EntityRecord>)
        requires
            old(self).wf(),
        ensures
            final(self).wf(),
            final(self)@ == old(self)@.remove(id@),
            out is Some == old(self)@.contains_key(id@),
            out matches Some(r) ==> r == old(self)@[id@],
    {
        match self.position(id) {
            Some(i) => {
                proof {
                    lemma_slot(self.records@, i as int);
                    lemma_remove(self.records@, i as int);
                }
                Some(self.records.remove(i))
            },
            None => {
                proof {
                    assert(self@ =~= self@.remove(id@));
                }
                None
            },
        }
    }
}

/// The text of each string of `ids`.
pub open spec fn id_texts(ids: Seq<String>) -> Seq<Seq<char>> {
    ids.map_values(|s: String| s@)
}

/// Which of `ids` are to be fetched: those that `cache` lacks, each once, in
/// the order in which they first come.
pub open spec fn missing_of(cache: Map<Seq<char>, EntityRecord>, ids: Seq<String>) -> Seq<
    Seq<char>,
>
    decreases ids.len(),
{
    if ids.len() == 0 {
        Seq::empty()
    } else {
        let before = missing_of(cache, ids.drop_last());
        let id = ids.last()@;
        if cache.contains_key(id) || before.contains(id) {
            before
        } else {
            before.push(id)
        }
    }
}

fn holds_text(list: &Vec<String>, text: &str) -> (out: bool)
    ensures
        out == id_texts(list@).contains(text@),
{
    let mut i: usize = 0;
    while i < list.len()
        invariant
            i <= list.len(),
            forall|k: int| 0 <= k < i ==> list@[k]@ != text@,
        decreases list.len() - i,
    {
        if same_text(list[i].as_str(), text) {
            proof {
                assert(id_texts(list@)[i as int] == text@);
            }
            return true;
        }
        i += 1;
    }
    proof {
        assert forall|k: int| 0 <= k < id_texts(list@).len() implies id_texts(list@)[k]
            != text@ by {
            assert(id_texts(list@)[k] == list@[k]@);
        }
    }
    false
}

impl EntityCache {
    /// Which of `ids` are to be fetched: those that the cache lacks, each
    /// once, in the order in which they first come.
    pub fn to_fetch(&self, ids: &Vec<String>) -> (out: Vec<String>)
        ensures
            id_texts(out@) == missing_of(self@, ids@),
    {
        let mut out: Vec<String> = Vec::new();
        let mut i: usize = 0;
        while i < ids.len()
            invariant
                i <= ids.len(),
                id_texts(out@) == missing_of(self@, ids@.take(i as int)),
            decreases ids.len() - i,
        {
            proof {
                assert(ids@.take(i + 1).drop_last() =~= ids@.take(i as int));
                assert(ids@.take(i + 1).last() == ids@[i as int]);
            }
            if !self.has_entity(ids[i].as_str()) && !holds_text(&out, ids[i].as_str()) {
                proof {
                    assert(id_texts(out@.push(ids@[i as int])) =~= id_texts(out@).push(
                        ids@[i as int]@,
                    ));
                }
                out.push(ids[i].clone());
            }
            i += 1;
        }
        proof {
            assert(ids@.take(ids.len() as int) =~= ids@);
        }
        out
    }
}

/// Where identifiers are unique, the map has as many keys as there are
/// records.
pub proof fn lemma_count(records: Seq<EntityRecord>)
    requires
        unique_ids(records),
    ensures
        as_map(records).dom().finite(),
        as_map(records).dom().len() == records.len(),
    decreases records.len(),
{
    if records.len() == 0 {
        assert(as_map(records).dom() =~= Set::<Seq<char>>::empty());
    } else {
        let last = records.last();
        let before = records.drop_last();
        assert(unique_ids(before)) by {
            assert forall|i: int, j: int|
                0 <= i < before.len() && 0 <= j < before.len() && i != j implies #[trigger] before[i].id@
                != #[trigger] before[j].id@ by {
                assert(before[i] == records[i]);
                assert(before[j] == records[j]);
            }
        }
        assert(!has_id(before, last.id@)) by {
            if has_id(before, last.id@) {
                let k = slot(before, last.id@);
                assert(before[k] == records[k]);
                assert(records[records.len() - 1] == last);
            }
        }
        lemma_count(before);
        lemma_push(before, last);
        assert(before.push(last) =~= records);
        assert(as_map(records).dom() =~= as_map(before).dom().insert(last.id@));
    }
}

} // verus!
