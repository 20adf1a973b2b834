use vstd::prelude::*;

verus! {

use crate::types::copy_ids;

// ---------------------------------------------------------------------------
// Secondary index
//
// Each domain keeps denormalized lookup lists: for every value of an
// attribute (blood type, owner, status, urgency, donor) the ordered list of
// entity ids carrying that value. `IdIndex` is that mapping, keyed by plain
// numbers; enumeration keys are mapped to numbers by the code functions in
// `types`. A bucket that was never written is the empty list.
// ---------------------------------------------------------------------------

/// One bucket of a secondary index: the ordered ids filed under one key.
pub struct IndexEntry {
    pub key: u64,
    pub ids: Vec<u64>,
}

/// A secondary index from numeric keys to ordered id lists.
pub struct IdIndex {
    pub entries: Vec<IndexEntry>,
}

/// The ids filed under `key`: the bucket of the first entry carrying that
/// key, or the empty sequence where no entry does.
pub open spec fn spec_bucket_in(entries: Seq<IndexEntry>, key: u64) -> Seq<u64>
    decreases entries.len(),
{
    if entries.len() == 0 {
        Seq::empty()
    } else if entries[0].key == key {
        entries[0].ids@
    } else {
        spec_bucket_in(entries.drop_first(), key)
    }
}

/// The ids grow strictly along a bucket; since ids are handed out in
/// creation order, this says the bucket lists its ids in creation order.
pub open spec fn strictly_increasing(s: Seq<u64>) -> bool {
    forall|i: int, j: int| 0 <= i < j < s.len() ==> s[i] < s[j]
}

impl IdIndex {
    /// No two entries carry the same key, so each key owns one bucket.
    pub open spec fn wf(self) -> bool {
        forall|i: int, j: int|
            0 <= i < j < self.entries@.len() ==> (#[trigger] self.entries@[i]).key
                != (#[trigger] self.entries@[j]).key
    }

    pub open spec fn bucket(self, key: u64) -> Seq<u64> {
        spec_bucket_in(self.entries@, key)
    }

    /// An index with every bucket empty.
    pub fn new() -> (r: IdIndex)
        ensures
            r.wf(),
            forall|k: u64| #[trigger] r.bucket(k) == Seq::<u64>::empty(),
    {
        let r = IdIndex { entries: Vec::new() };
        proof {
            assert(forall|k: u64| #[trigger] r.bucket(k) == Seq::<u64>::empty());
        }
        r
    }

    /// Finds the position of the entry carrying `key`, if any.
    fn find_entry(&self, key: u64) -> (r: Option<usize>)
        ensures
            match r {
                Some(i) => {
                    &&& i < self.entries@.len()
                    &&& self.entries@[i as int].key == key
                    &&& self.bucket(key) == self.entries@[i as int].ids@
                    &&& forall|j: int| 0 <= j < i ==> (#[trigger] self.entries@[j]).key != key
                },
                None => {
                    &&& self.bucket(key) == Seq::<u64>::empty()
                    &&& forall|j: int|
                        0 <= j < self.entries@.len() ==> (#[trigger] self.entries@[j]).key != key
                },
            },
    {
        let n: usize = self.entries.len();
        let mut i: usize = 0;
        proof {
            assert(self.entries@.skip(0) =~= self.entries@);
        }
        while i < n
            invariant
                i <= n,
                n == self.entries@.len(),
                forall|j: int| 0 <= j < i ==> (#[trigger] self.entries@[j]).key != key,
                self.bucket(key) == spec_bucket_in(self.entries@.skip(i as int), key),
            decreases n - i,
        {
            if self.entries[i].key == key {
                proof {
                    assert(self.entries@.skip(i as int)[0] == self.entries@[i as int]);
                }
                return Some(i);
            }
            proof {
                lemma_bucket_skip_step(self.entries@, key, i as int);
            }
            i = i + 1;
        }
        proof {
            assert(self.entries@.skip(n as int) =~= Seq::<IndexEntry>::empty());
        }
        None
    }

    /// Returns a copy of the bucket filed under `key`.
    pub fn get(&self, key: u64) -> (r: Vec<u64>)
        ensures
            r@ == self.bucket(key),
    {
        match self.find_entry(key) {
            Some(i) => copy_ids(&self.entries[i].ids),
            None => Vec::new(),
        }
    }

    /// Appends `id` to the bucket filed under `key`, creating the bucket on
    /// first use; every other bucket is untouched.
    pub fn append(&mut self, key: u64, id: u64)
        requires
            old(self).wf(),
        ensures
            final(self).wf(),
            final(self).bucket(key) == old(self).bucket(key).push(id),
            forall|k: u64| k != key ==> #[trigger] final(self).bucket(k) == old(self).bucket(k),
    {
        match self.find_entry(key) {
            Some(i) => {
                let ghost pre = self.entries@;
                let mut entry = self.entries.remove(i);
                entry.ids.push(id);
                self.entries.insert(i, entry);
                proof {
                    assert(self.entries@ =~= pre.update(i as int, self.entries@[i as int]));
                    lemma_bucket_update(pre, i as int, self.entries@[i as int], key);
                }
            },
            None => {
                let mut ids: Vec<u64> = Vec::new();
                ids.push(id);
                let ghost pre = self.entries@;
                self.entries.push(IndexEntry { key, ids });
                proof {
                    lemma_bucket_push(pre, self.entries@[pre.len() as int]);
                    assert(old(self).bucket(key) == Seq::<u64>::empty());
                    assert(final(self).bucket(key) =~= old(self).bucket(key).push(id));
                }
            },
        }
    }

    /// Removes the first occurrence of `id` from the bucket filed under
    /// `key`, keeping the relative order of the remaining ids; a bucket
    /// that does not hold `id` is untouched, and so is every other bucket.
    pub fn remove_id(&mut self, key: u64, id: u64)
        requires
            old(self).wf(),
        ensures
            final(self).wf(),
            final(self).bucket(key) == old(self).bucket(key).remove_value(id),
            forall|k: u64| k != key ==> #[trigger] final(self).bucket(k) == old(self).bucket(k),
    {
        match self.find_entry(key) {
            Some(i) => {
                let ghost pre = self.entries@;
                let mut entry = self.entries.remove(i);
                remove_first(&mut entry.ids, id);
                self.entries.insert(i, entry);
                proof {
                    assert(self.entries@ =~= pre.update(i as int, self.entries@[i as int]));
                    lemma_bucket_update(pre, i as int, self.entries@[i as int], key);
                }
            },
            None => {
                proof {
                    old(self).bucket(key).index_of_first_ensures(id);
                }
            },
        }
    }
}

/// Whether `v` holds `x`.
pub fn contains_id(v: &Vec<u64>, x: u64) -> (r: bool)
    ensures
        r == v@.contains(x),
{
    let n: usize = v.len();
    let mut i: usize = 0;
    while i < n
        invariant
            i <= n,
            n == v@.len(),
            forall|j: int| 0 <= j < i ==> v@[j] != x,
        decreases n - i,
    {
        if v[i] == x {
            return true;
        }
        i = i + 1;
    }
    proof {
        assert(!v@.contains(x)) by {
            if v@.contains(x) {
                let j = choose|j: int| 0 <= j < v@.len() && v@[j] == x;
                assert(v@[j] != x);
            }
        };
    }
    false
}

/// Removes the first occurrence of `id` from `v`, shifting the rest left.
pub fn remove_first(v: &mut Vec<u64>, id: u64)
    ensures
        final(v)@ == old(v)@.remove_value(id),
{
    let n: usize = v.len();
    let mut i: usize = 0;
    while i < n
        invariant
            i <= n,
            n == v@.len(),
            v@ == old(v)@,
            forall|j: int| 0 <= j < i ==> v@[j] != id,
        decreases n - i,
    {
        if v[i] == id {
            proof {
                assert(v@.contains(id)) by {
                    assert(v@[i as int] == id);
                };
                v@.index_of_first_ensures(id);
                let fi = v@.index_of_first(id).unwrap();
                assert(v@.index_of_first(id) == Some(fi));
                assert(v@[fi] == id);
                assert(fi == i as int) by {
                    if fi < i as int {
                        assert(v@[fi] != id);
                    }
                    if fi > i as int {
                        assert(v@[i as int] != id);
                    }
                };
                assert(v@.remove_value(id) == v@.remove(i as int));
            }
            v.remove(i);
            return;
        }
        i = i + 1;
    }
    proof {
        assert(!v@.contains(id)) by {
            if v@.contains(id) {
                let j = choose|j: int| 0 <= j < v@.len() && v@[j] == id;
                assert(v@[j] != id);
            }
        };
        v@.index_of_first_ensures(id);
        assert(v@.index_of_first(id) is None);
        assert(v@.remove_value(id) == v@);
    }
}

// ---------------------------------------------------------------------------
// Lemmas about buckets
// ---------------------------------------------------------------------------

/// Skipping past an entry whose key differs does not change a bucket.
proof fn lemma_bucket_skip_step(entries: Seq<IndexEntry>, key: u64, i: int)
    requires
        0 <= i < entries.len(),
        entries[i].key != key,
    ensures
        spec_bucket_in(entries.skip(i), key) == spec_bucket_in(entries.skip(i + 1), key),
{
    assert(entries.skip(i)[0] == entries[i]);
    assert(entries.skip(i).drop_first() =~= entries.skip(i + 1));
}

/// Replacing the entry that owns `key` rewrites exactly that bucket.
proof fn lemma_bucket_update(entries: Seq<IndexEntry>, i: int, e: IndexEntry, key: u64)
    requires
        0 <= i < entries.len(),
        entries[i].key == key,
        e.key == key,
        forall|j: int| 0 <= j < i ==> (#[trigger] entries[j]).key != key,
    ensures
        spec_bucket_in(entries.update(i, e), key) == e.ids@,
        forall|k: u64|
            k != key ==> spec_bucket_in(entries.update(i, e), k) == spec_bucket_in(entries, k),
    decreases i,
{
    let upd = entries.update(i, e);
    if i == 0 {
        assert(upd[0] == e);
        assert forall|k: u64| k != key implies spec_bucket_in(upd, k) == spec_bucket_in(
            entries,
            k,
        ) by {
            assert(upd.drop_first() =~= entries.drop_first());
        }
    } else {
        assert(upd[0] == entries[0]);
        assert(entries[0].key != key);
        assert(upd.drop_first() =~= entries.drop_first().update(i - 1, e));
        assert(entries.drop_first()[i - 1] == entries[i]);
        assert forall|j: int| 0 <= j < i - 1 implies (#[trigger] entries.drop_first()[j]).key
            != key by {
            assert(entries.drop_first()[j] == entries[j + 1]);
        }
        lemma_bucket_update(entries.drop_first(), i - 1, e, key);
        assert(spec_bucket_in(upd, key) == spec_bucket_in(upd.drop_first(), key));
        assert forall|k: u64| k != key implies spec_bucket_in(upd, k) == spec_bucket_in(
            entries,
            k,
        ) by {
            if entries[0].key == k {
                assert(upd[0].ids@ == entries[0].ids@);
            } else {
                assert(spec_bucket_in(upd, k) == spec_bucket_in(upd.drop_first(), k));
                assert(spec_bucket_in(entries, k) == spec_bucket_in(entries.drop_first(), k));
            }
        }
    }
}

/// Appending an entry under a fresh key creates that bucket and leaves the
/// others alone.
proof fn lemma_bucket_push(entries: Seq<IndexEntry>, e: IndexEntry)
    requires
        forall|j: int| 0 <= j < entries.len() ==> (#[trigger] entries[j]).key != e.key,
    ensures
        spec_bucket_in(entries.push(e), e.key) == e.ids@,
        forall|k: u64|
            k != e.key ==> spec_bucket_in(entries.push(e), k) == spec_bucket_in(entries, k),
    decreases entries.len(),
{
    let ext = entries.push(e);
    if entries.len() == 0 {
        assert(ext[0] == e);
        assert forall|k: u64| k != e.key implies spec_bucket_in(ext, k) == spec_bucket_in(
            entries,
            k,
        ) by {
            assert(ext.drop_first() =~= Seq::<IndexEntry>::empty());
            assert(spec_bucket_in(Seq::<IndexEntry>::empty(), k) == Seq::<u64>::empty());
            assert(spec_bucket_in(ext, k) == spec_bucket_in(ext.drop_first(), k));
            assert(spec_bucket_in(entries, k) == Seq::<u64>::empty());
        }
    } else {
        assert(ext[0] == entries[0]);
        assert(ext.drop_first() =~= entries.drop_first().push(e));
        assert forall|j: int| 0 <= j < entries.drop_first().len() implies (
        #[trigger] entries.drop_first()[j]).key != e.key by {
            assert(entries.drop_first()[j] == entries[j + 1]);
        }
        lemma_bucket_push(entries.drop_first(), e);
        assert(entries[0].key != e.key);
        assert(spec_bucket_in(ext, e.key) == spec_bucket_in(ext.drop_first(), e.key));
        assert forall|k: u64| k != e.key implies spec_bucket_in(ext, k) == spec_bucket_in(
            entries,
            k,
        ) by {
            assert(ext[0] == entries[0]);
            if entries[0].key == k {
                assert(spec_bucket_in(ext, k) == ext[0].ids@);
                assert(spec_bucket_in(entries, k) == entries[0].ids@);
            } else {
                assert(spec_bucket_in(ext, k) == spec_bucket_in(ext.drop_first(), k));
                assert(spec_bucket_in(entries, k) == spec_bucket_in(entries.drop_first(), k));
                assert(spec_bucket_in(ext.drop_first(), k) == spec_bucket_in(
                    entries.drop_first(),
                    k,
                ));
            }
        }
    }
}

// ---------------------------------------------------------------------------
// Consistency between an index and the record store
//
// Records are stored in creation order and carry sequential ids, so the
// record with id `i` sits at position `i - 1`. `key_of` names the bucket
// key a record belongs under in one index dimension (`None`: the record is
// filed nowhere, as with an anonymous donor).
// ---------------------------------------------------------------------------

/// The index files exactly the ids of the records carrying each key.
pub open spec fn indexes_records<T>(
    idx: IdIndex,
    recs: Seq<T>,
    key_of: spec_fn(T) -> Option<u64>,
) -> bool {
    &&& idx.wf()
    &&& forall|k: u64, id: u64|
        #[trigger] idx.bucket(k).contains(id) <==> (1 <= id <= recs.len() && key_of(
            recs[id - 1],
        ) == Some(k))
}

/// Every bucket lists its ids in strictly increasing order, which is
/// creation order for sequential ids.
pub open spec fn indexes_in_order(idx: IdIndex) -> bool {
    forall|k: u64| strictly_increasing(#[trigger] idx.bucket(k))
}

/// No bucket files the same id twice.
pub open spec fn buckets_distinct(idx: IdIndex) -> bool {
    forall|k: u64| (#[trigger] idx.bucket(k)).no_duplicates()
}

/// Strict order forbids duplicates.
pub proof fn lemma_in_order_implies_distinct(idx: IdIndex)
    requires
        indexes_in_order(idx),
    ensures
        buckets_distinct(idx),
{
    assert forall|k: u64| (#[trigger] idx.bucket(k)).no_duplicates() by {
        let b = idx.bucket(k);
        assert forall|i: int, j: int|
            0 <= i < b.len() && 0 <= j < b.len() && i != j implies b[i] != b[j] by {
            if i < j {
                assert(b[i] < b[j]);
            } else {
                assert(b[j] < b[i]);
            }
        }
    }
}

/// A freshly built index is consistent with an empty record store.
pub proof fn lemma_empty_index_records<T>(
    idx: IdIndex,
    recs: Seq<T>,
    key_of: spec_fn(T) -> Option<u64>,
)
    requires
        idx.wf(),
        forall|k: u64| #[trigger] idx.bucket(k) == Seq::<u64>::empty(),
        recs.len() == 0,
    ensures
        indexes_records(idx, recs, key_of),
        indexes_in_order(idx),
{
    assert forall|k: u64, id: u64|
        #[trigger] idx.bucket(k).contains(id) <==> (1 <= id <= recs.len() && key_of(
            recs[id - 1],
        ) == Some(k)) by {
        assert(!idx.bucket(k).contains(id));
    }
}

/// One record appended with the next sequential id, and one append on the
/// bucket of its key (none where it carries no key), leave the index
/// consistent with the records; buckets stay ordered.
pub proof fn lemma_index_after_create<T>(
    pre: IdIndex,
    post: IdIndex,
    old_recs: Seq<T>,
    new_recs: Seq<T>,
    key_of: spec_fn(T) -> Option<u64>,
    new_id: u64,
)
    requires
        new_recs.len() == old_recs.len() + 1,
        forall|i: int| 0 <= i < old_recs.len() ==> new_recs[i] == old_recs[i],
        new_id == old_recs.len() + 1,
        indexes_records(pre, old_recs, key_of),
        indexes_in_order(pre),
        (key_of(new_recs[new_id - 1]) matches Some(c) ==> post.bucket(c) == pre.bucket(c).push(
            new_id,
        ) && (forall|k: u64| k != c ==> #[trigger] post.bucket(k) == pre.bucket(k))),
        (key_of(new_recs[new_id - 1]) is None ==> (forall|k: u64|
            #[trigger] post.bucket(k) == pre.bucket(k))),
        post.wf(),
    ensures
        indexes_records(post, new_recs, key_of),
        indexes_in_order(post),
{
    let rec = new_recs[new_id - 1];
    assert forall|k: u64, id: u64|
        #[trigger] post.bucket(k).contains(id) <==> (1 <= id <= new_recs.len() && key_of(
            new_recs[id - 1],
        ) == Some(k)) by {
        if key_of(rec) == Some(k) {
            let c = key_of(rec)->Some_0;
            assert(post.bucket(k) == pre.bucket(k).push(new_id));
            lemma_push_contains(pre.bucket(k), new_id, id);
            if 1 <= id <= old_recs.len() {
                assert(new_recs[id - 1] == old_recs[id - 1]);
            }
        } else {
            assert(post.bucket(k) == pre.bucket(k));
            if 1 <= id <= old_recs.len() {
                assert(new_recs[id - 1] == old_recs[id - 1]);
            }
        }
    }
    assert forall|k: u64| strictly_increasing(#[trigger] post.bucket(k)) by {
        if key_of(rec) == Some(k) {
            let b = pre.bucket(k);
            assert(post.bucket(k) == b.push(new_id));
            assert forall|i: int, j: int|
                0 <= i < j < b.push(new_id).len() implies b.push(new_id)[i] < b.push(
                new_id,
            )[j] by {
                if j < b.len() {
                    assert(b[i] < b[j]);
                } else {
                    assert(b.push(new_id)[j] == new_id);
                    assert(b.contains(b[i]));
                    assert(b[i] <= old_recs.len());
                }
            }
        } else {
            assert(post.bucket(k) == pre.bucket(k));
        }
    }
}

/// Like `lemma_index_after_create`, for a dimension whose buckets are
/// only duplicate-free rather than ordered (the status index, whose
/// buckets transitions rewrite).
pub proof fn lemma_index_after_create_distinct<T>(
    pre: IdIndex,
    post: IdIndex,
    old_recs: Seq<T>,
    new_recs: Seq<T>,
    key_of: spec_fn(T) -> Option<u64>,
    new_id: u64,
)
    requires
        new_recs.len() == old_recs.len() + 1,
        forall|i: int| 0 <= i < old_recs.len() ==> new_recs[i] == old_recs[i],
        new_id == old_recs.len() + 1,
        indexes_records(pre, old_recs, key_of),
        buckets_distinct(pre),
        (key_of(new_recs[new_id - 1]) matches Some(c) ==> post.bucket(c) == pre.bucket(c).push(
            new_id,
        ) && (forall|k: u64| k != c ==> #[trigger] post.bucket(k) == pre.bucket(k))),
        (key_of(new_recs[new_id - 1]) is None ==> (forall|k: u64|
            #[trigger] post.bucket(k) == pre.bucket(k))),
        post.wf(),
    ensures
        indexes_records(post, new_recs, key_of),
        buckets_distinct(post),
{
    let rec = new_recs[new_id - 1];
    assert forall|k: u64, id: u64|
        #[trigger] post.bucket(k).contains(id) <==> (1 <= id <= new_recs.len() && key_of(
            new_recs[id - 1],
        ) == Some(k)) by {
        if key_of(rec) == Some(k) {
            assert(post.bucket(k) == pre.bucket(k).push(new_id));
            lemma_push_contains(pre.bucket(k), new_id, id);
            if 1 <= id <= old_recs.len() {
                assert(new_recs[id - 1] == old_recs[id - 1]);
            }
        } else {
            assert(post.bucket(k) == pre.bucket(k));
            if 1 <= id <= old_recs.len() {
                assert(new_recs[id - 1] == old_recs[id - 1]);
            }
        }
    }
    assert forall|k: u64| (#[trigger] post.bucket(k)).no_duplicates() by {
        if key_of(rec) == Some(k) {
            let b = pre.bucket(k);
            assert(post.bucket(k) == b.push(new_id));
            assert(!b.contains(new_id));
            assert forall|i: int, j: int|
                0 <= i < b.push(new_id).len() && 0 <= j < b.push(new_id).len() && i != j implies b
                .push(new_id)[i] != b.push(new_id)[j] by {
                if i < b.len() && j < b.len() {
                    assert(b[i] != b[j]);
                } else if i < b.len() {
                    assert(b.contains(b[i]));
                } else if j < b.len() {
                    assert(b.contains(b[j]));
                }
            }
        } else {
            assert(post.bucket(k) == pre.bucket(k));
        }
    }
}

/// A record rewrite that keeps every key of a dimension leaves that
/// dimension's index consistent.
pub proof fn lemma_index_unchanged<T>(
    idx: IdIndex,
    old_recs: Seq<T>,
    new_recs: Seq<T>,
    key_of: spec_fn(T) -> Option<u64>,
)
    requires
        new_recs.len() == old_recs.len(),
        forall|i: int| 0 <= i < old_recs.len() ==> key_of(new_recs[i]) == key_of(old_recs[i]),
        indexes_records(idx, old_recs, key_of),
    ensures
        indexes_records(idx, new_recs, key_of),
{
    assert forall|k: u64, id: u64|
        #[trigger] idx.bucket(k).contains(id) <==> (1 <= id <= new_recs.len() && key_of(
            new_recs[id - 1],
        ) == Some(k)) by {
        if 1 <= id <= old_recs.len() {
            assert(key_of(new_recs[id - 1]) == key_of(old_recs[id - 1]));
        }
    }
}

/// One record's key rewritten from `from_k` to `to_k`, its id removed from
/// the old bucket and appended to the new one, leave the index consistent
/// with the records; buckets stay duplicate-free.
pub proof fn lemma_index_after_move<T>(
    pre: IdIndex,
    post: IdIndex,
    old_recs: Seq<T>,
    new_recs: Seq<T>,
    key_of: spec_fn(T) -> Option<u64>,
    moved: u64,
    from_k: u64,
    to_k: u64,
)
    requires
        new_recs.len() == old_recs.len(),
        1 <= moved <= old_recs.len(),
        forall|i: int| 0 <= i < old_recs.len() && i != moved - 1 ==> new_recs[i] == old_recs[i],
        key_of(old_recs[moved - 1]) == Some(from_k),
        key_of(new_recs[moved - 1]) == Some(to_k),
        from_k != to_k,
        indexes_records(pre, old_recs, key_of),
        buckets_distinct(pre),
        post.bucket(from_k) == pre.bucket(from_k).remove_value(moved),
        post.bucket(to_k) == pre.bucket(to_k).push(moved),
        forall|k: u64| k != from_k && k != to_k ==> #[trigger] post.bucket(k) == pre.bucket(k),
        post.wf(),
    ensures
        indexes_records(post, new_recs, key_of),
        buckets_distinct(post),
{
    lemma_remove_value_membership(pre.bucket(from_k), moved);
    assert forall|k: u64, id: u64|
        #[trigger] post.bucket(k).contains(id) <==> (1 <= id <= new_recs.len() && key_of(
            new_recs[id - 1],
        ) == Some(k)) by {
        if k == from_k {
            if id != moved && 1 <= id <= old_recs.len() {
                assert(new_recs[id - 1] == old_recs[id - 1]);
            }
        } else if k == to_k {
            lemma_push_contains(pre.bucket(k), moved, id);
            if id != moved && 1 <= id <= old_recs.len() {
                assert(new_recs[id - 1] == old_recs[id - 1]);
            }
        } else {
            assert(post.bucket(k) == pre.bucket(k));
            if id != moved && 1 <= id <= old_recs.len() {
                assert(new_recs[id - 1] == old_recs[id - 1]);
            }
        }
    }
    assert forall|k: u64| (#[trigger] post.bucket(k)).no_duplicates() by {
        if k == from_k {
        } else if k == to_k {
            let b = pre.bucket(k);
            assert(!b.contains(moved));
            assert forall|i: int, j: int|
                0 <= i < b.push(moved).len() && 0 <= j < b.push(moved).len() && i != j implies b
                .push(moved)[i] != b.push(moved)[j] by {
                if i < b.len() && j < b.len() {
                    assert(b[i] != b[j]);
                } else if i < b.len() {
                    assert(b.contains(b[i]));
                } else if j < b.len() {
                    assert(b.contains(b[j]));
                }
            }
        } else {
            assert(post.bucket(k) == pre.bucket(k));
        }
    }
}

/// Membership in a pushed sequence.
pub proof fn lemma_push_contains(s: Seq<u64>, v: u64, x: u64)
    ensures
        s.push(v).contains(x) <==> (s.contains(x) || x == v),
{
    if s.push(v).contains(x) {
        let i = choose|i: int| 0 <= i < s.push(v).len() && s.push(v)[i] == x;
        if i < s.len() {
            assert(s[i] == x);
        }
    }
    if s.contains(x) {
        let i = choose|i: int| 0 <= i < s.len() && s[i] == x;
        assert(s.push(v)[i] == x);
    }
    if x == v {
        assert(s.push(v)[s.len() as int] == x);
    }
}

/// What removing the first occurrence of a value does to membership, under
/// no duplicates: the value leaves, everything else stays, order kept.
pub proof fn lemma_remove_value_membership(s: Seq<u64>, id: u64)
    requires
        s.no_duplicates(),
    ensures
        s.remove_value(id).no_duplicates(),
        !s.remove_value(id).contains(id),
        forall|x: u64| x != id ==> (#[trigger] s.remove_value(id).contains(x) <==> s.contains(x)),
        s.contains(id) ==> s.remove_value(id).len() == s.len() - 1,
        !s.contains(id) ==> s.remove_value(id) == s,
{
    s.index_of_first_ensures(id);
    let r = s.remove_value(id);
    match s.index_of_first(id) {
        Some(fi) => {
            s.remove_ensures(fi);
            assert forall|j: int| 0 <= j < r.len() implies r[j] == (if j < fi {
                s[j]
            } else {
                s[j + 1]
            }) by {}
            assert(r.no_duplicates());
            assert forall|x: u64| r.contains(x) implies s.contains(x) by {
                let j = choose|j: int| 0 <= j < r.len() && r[j] == x;
                if j < fi {
                    assert(s[j] == x);
                } else {
                    assert(s[j + 1] == x);
                }
            }
            assert(!r.contains(id)) by {
                if r.contains(id) {
                    let j = choose|j: int| 0 <= j < r.len() && r[j] == id;
                    if j < fi {
                        assert(s[j] == id);
                        assert(false);
                    } else {
                        assert(s[j + 1] == id);
                        assert(s[fi] == id);
                        assert(false);
                    }
                }
            }
            assert forall|x: u64| x != id && s.contains(x) implies r.contains(x) by {
                let j = choose|j: int| 0 <= j < s.len() && s[j] == x;
                if j < fi {
                    assert(r[j] == x);
                } else {
                    assert(j != fi);
                    assert(r[j - 1] == x);
                }
            }
        },
        None => {},
    }
}

} // verus!
