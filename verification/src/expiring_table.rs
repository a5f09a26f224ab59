use crate::text::str_equal;
use vstd::prelude::*;

verus! {

/// An entry under a text key that lapses at `expires_at_ms`.
pub struct Expiring<T> {
    pub key: String,
    pub expires_at_ms: i64,
    pub value: T,
}

/// Entries under distinct keys, oldest first. Inserting past a bound evicts
/// the oldest entries; expiring drops the lapsed ones.
pub struct ExpiringTable<T> {
    entries: Vec<Expiring<T>>,
}

/// No key occurs twice.
pub open spec fn distinct_keys<T>(entries: Seq<Expiring<T>>) -> bool {
    forall|i: int, j: int|
        0 <= i < entries.len() && 0 <= j < entries.len() && i != j ==> (#[trigger] entries[i]).key@
            != (#[trigger] entries[j]).key@
}

/// Whether an entry is still current at `now_ms`.
pub open spec fn unexpired<T>(now_ms: i64) -> spec_fn(Expiring<T>) -> bool {
    |e: Expiring<T>| e.expires_at_ms > now_ms
}

/// Whether an entry is under another key than `key`.
pub open spec fn other_key<T>(key: Seq<char>) -> spec_fn(Expiring<T>) -> bool {
    |e: Expiring<T>| e.key@ != key
}

/// The index of the entry under `key`, if there is one.
pub open spec fn key_index<T>(entries: Seq<Expiring<T>>, key: Seq<char>) -> Option<int> {
    if exists|i: int| 0 <= i < entries.len() && (#[trigger] entries[i]).key@ == key {
        Some(choose|i: int| 0 <= i < entries.len() && (#[trigger] entries[i]).key@ == key)
    } else {
        None
    }
}

/// The newest `keep` entries of `entries`: the oldest go first.
pub open spec fn newest<T>(entries: Seq<Expiring<T>>, keep: int) -> Seq<Expiring<T>> {
    if entries.len() > keep {
        entries.subrange(entries.len() - keep, entries.len() as int)
    } else {
        entries
    }
}

/// What inserting `entry` into `entries` under a bound of `max` entries
/// leaves: any entry under the same key goes, then the oldest entries until
/// there is room, and the new entry comes last.
pub open spec fn bounded_insert<T>(entries: Seq<Expiring<T>>, entry: Expiring<T>, max: int) -> Seq<
    Expiring<T>,
> {
    newest(entries.filter(other_key(entry.key@)), max - 1).push(entry)
}

proof fn lemma_filter_step<A>(s: Seq<A>, pred: spec_fn(A) -> bool, n: int)
    requires
        0 <= n < s.len(),
    ensures
        s.take(n + 1).filter(pred) == (if pred(s[n]) {
            s.take(n).filter(pred).push(s[n])
        } else {
            s.take(n).filter(pred)
        }),
{
    reveal(Seq::filter);
    assert(s.take(n + 1).drop_last() =~= s.take(n));
}

/// Keeping some entries of a sequence with distinct keys keeps the keys
/// distinct.
proof fn lemma_filter_distinct<T>(s: Seq<Expiring<T>>, pred: spec_fn(Expiring<T>) -> bool)
    requires
        distinct_keys(s),
    ensures
        distinct_keys(s.filter(pred)),
        forall|e: Expiring<T>| s.filter(pred).contains(e) ==> s.contains(e),
    decreases s.len(),
{
    reveal(Seq::filter);
    if s.len() > 0 {
        let rest = s.drop_last();
        assert(distinct_keys(rest)) by {
            assert forall|i: int, j: int|
                0 <= i < rest.len() && 0 <= j < rest.len() && i != j implies (#[trigger] rest[i]).key@
                != (#[trigger] rest[j]).key@ by {
                assert(rest[i] == s[i]);
                assert(rest[j] == s[j]);
            }
        }
        lemma_filter_distinct(rest, pred);
        let sub = rest.filter(pred);
        if pred(s.last()) {
            let out = sub.push(s.last());
            assert forall|i: int, j: int|
                0 <= i < out.len() && 0 <= j < out.len() && i != j implies (#[trigger] out[i]).key@
                != (#[trigger] out[j]).key@ by {
                if i < sub.len() && j < sub.len() {
                    assert(out[i] == sub[i] && out[j] == sub[j]);
                } else if i < sub.len() {
                    assert(out[i] == sub[i]);
                    assert(sub.contains(out[i]));
                    assert(rest.contains(out[i]));
                    let k = choose|k: int| 0 <= k < rest.len() && rest[k] == out[i];
                    assert(rest[k] == s[k]);
                    assert(s[s.len() - 1] == out[j]);
                } else {
                    assert(out[j] == sub[j]);
                    assert(sub.contains(out[j]));
                    assert(rest.contains(out[j]));
                    let k = choose|k: int| 0 <= k < rest.len() && rest[k] == out[j];
                    assert(rest[k] == s[k]);
                    assert(s[s.len() - 1] == out[i]);
                }
            }
            assert forall|e: Expiring<T>| out.contains(e) implies s.contains(e) by {
                let k = choose|k: int| 0 <= k < out.len() && out[k] == e;
                if k == sub.len() {
                    assert(s[s.len() - 1] == e);
                } else {
                    assert(sub[k] == e);
                    assert(sub.contains(e));
                    assert(rest.contains(e));
                    let m = choose|m: int| 0 <= m < rest.len() && rest[m] == e;
                    assert(rest[m] == s[m]);
                }
            }
        } else {
            assert forall|e: Expiring<T>| sub.contains(e) implies s.contains(e) by {
                assert(rest.contains(e));
                let m = choose|m: int| 0 <= m < rest.len() && rest[m] == e;
                assert(rest[m] == s[m]);
            }
        }
    }
}

impl<T> ExpiringTable<T> {
    /// The entries, oldest first.
    pub closed spec fn entries(&self) -> Seq<Expiring<T>> {
        self.entries@
    }

    pub open spec fn wf(&self) -> bool {
        distinct_keys(self.entries())
    }

    pub fn new() -> (table: Self)
        ensures
            table.wf(),
            table.entries() == Seq::<Expiring<T>>::empty(),
    {
        ExpiringTable { entries: Vec::new() }
    }

    pub fn len(&self) -> (n: usize)
        ensures
            n == self.entries().len(),
    {
        self.entries.len()
    }

    /// The index of the entry under `key`.
    pub fn find(&self, key: &str) -> (index: Option<usize>)
        ensures
            match index {
                Some(i) => i < self.entries().len() && self.entries()[i as int].key@ == key@,
                None => forall|i: int|
                    0 <= i < self.entries().len() ==> (#[trigger] self.entries()[i]).key@ != key@,
            },
    {
        let mut i: usize = 0;
        while i < self.entries.len()
            invariant
                i <= self.entries@.len(),
                forall|j: int| 0 <= j < i ==> (#[trigger] self.entries@[j]).key@ != key@,
            decreases self.entries@.len() - i,
        {
            if str_equal(self.entries[i].key.as_str(), key) {
                return Some(i);
            }
            i = i + 1;
        }
        None
    }

    /// The entry under `key`.
    pub fn get(&self, key: &str) -> (entry: Option<&Expiring<T>>)
        ensures
            match entry {
                Some(e) => exists|i: int|
                    0 <= i < self.entries().len() && self.entries()[i] == *e && e.key@ == key@,
                None => forall|i: int|
                    0 <= i < self.entries().len() ==> (#[trigger] self.entries()[i]).key@ != key@,
            },
    {
        match self.find(key) {
            Some(i) => Some(&self.entries[i]),
            None => None,
        }
    }

    pub fn clear(&mut self)
        ensures
            final(self).wf(),
            final(self).entries() == Seq::<Expiring<T>>::empty(),
    {
        self.entries = Vec::new();
    }

    /// Drops every entry that has lapsed at `now_ms`; the others keep their
    /// order.
    pub fn retain_unexpired(&mut self, now_ms: i64)
        requires
            old(self).wf(),
        ensures
            final(self).wf(),
            final(self).entries() == old(self).entries().filter(unexpired(now_ms)),
    {
        let ghost orig = self.entries@;
        let mut rest: Vec<Expiring<T>> = Vec::new();
        std::mem::swap(&mut rest, &mut self.entries);
        let mut kept: Vec<Expiring<T>> = Vec::new();
        let ghost mut n: int = 0;
        while rest.len() > 0
            invariant
                0 <= n <= orig.len(),
                rest@ == orig.skip(n),
                kept@ == orig.take(n).filter(unexpired(now_ms)),
            decreases rest@.len(),
        {
            let e = rest.remove(0);
            proof {
                assert(orig[n] == e);
                lemma_filter_step(orig, unexpired(now_ms), n);
            }
            if e.expires_at_ms > now_ms {
                kept.push(e);
            }
            proof {
                assert(rest@ =~= orig.skip(n + 1));
                n = n + 1;
            }
        }
        proof {
            assert(orig.take(n) =~= orig);
            lemma_filter_distinct(orig, unexpired(now_ms));
        }
        self.entries = kept;
    }

    /// Removes the entry under `key` and returns it.
    pub fn remove_key(&mut self, key: &str) -> (removed: Option<Expiring<T>>)
        requires
            old(self).wf(),
        ensures
            final(self).wf(),
            final(self).entries() == old(self).entries().filter(other_key(key@)),
            removed is None ==> final(self).entries() == old(self).entries(),
            match removed {
                Some(e) => e.key@ == key@ && old(self).entries().contains(e),
                None => forall|i: int|
                    0 <= i < old(self).entries().len() ==> (#[trigger] old(self).entries()[i]).key@
                        != key@,
            },
    {
        let ghost orig = self.entries@;
        match self.find(key) {
            None => {
                proof {
                    lemma_filter_all(orig, other_key(key@));
                }
                None
            },
            Some(i) => {
                let e = self.entries.remove(i);
                proof {
                    lemma_filter_removes_one(orig, key@, i as int);
                    lemma_filter_distinct(orig, other_key(key@));
                }
                Some(e)
            },
        }
    }

    /// Inserts `entry` as the newest, dropping any entry under its key.
    pub fn insert(&mut self, entry: Expiring<T>)
        requires
            old(self).wf(),
        ensures
            final(self).wf(),
            final(self).entries() == old(self).entries().filter(other_key(entry.key@)).push(entry),
    {
        let ghost orig = self.entries@;
        let ghost key = entry.key@;
        self.remove_key(entry.key.as_str());
        let ghost kept = self.entries@;
        proof {
            lemma_filter_distinct(orig, other_key(key));
            assert forall|i: int| 0 <= i < kept.len() implies (#[trigger] kept[i]).key@ != key by {
                orig.lemma_filter_pred(other_key(key), i);
            }
        }
        self.entries.push(entry);
        proof {
            assert forall|i: int, j: int|
                0 <= i < self.entries@.len() && 0 <= j < self.entries@.len() && i != j implies (
                #[trigger] self.entries@[i]).key@ != (#[trigger] self.entries@[j]).key@ by {
                if i < kept.len() && j < kept.len() {
                    assert(self.entries@[i] == kept[i] && self.entries@[j] == kept[j]);
                } else if i < kept.len() {
                    assert(self.entries@[i] == kept[i]);
                } else {
                    assert(self.entries@[j] == kept[j]);
                }
            }
        }
    }

    /// Inserts `entry` as the newest, first dropping any entry under its key
    /// and then the oldest entries until fewer than `max` remain.
    pub fn insert_bounded(&mut self, entry: Expiring<T>, max: usize)
        requires
            old(self).wf(),
            max > 0,
        ensures
            final(self).wf(),
            final(self).entries() == bounded_insert(old(self).entries(), entry, max as int),
            final(self).entries().len() <= max,
    {
        let ghost orig = self.entries@;
        let ghost key = entry.key@;
        self.remove_key(entry.key.as_str());
        let ghost filtered = self.entries@;
        proof {
            lemma_filter_distinct(orig, other_key(key));
        }
        let ghost mut dropped: int = 0;
        while self.entries.len() >= max
            invariant
                max > 0,
                0 <= dropped <= filtered.len(),
                dropped > 0 ==> filtered.len() - dropped >= max - 1,
                self.entries@ == filtered.subrange(dropped, filtered.len() as int),
                distinct_keys(filtered),
                forall|i: int| 0 <= i < filtered.len() ==> (#[trigger] filtered[i]).key@ != key,
            decreases self.entries@.len(),
        {
            self.entries.remove(0);
            proof {
                assert(self.entries@ =~= filtered.subrange(dropped + 1, filtered.len() as int));
                dropped = dropped + 1;
            }
        }
        assert(self.entries@ == newest(filtered, max - 1)) by {
            if filtered.len() > max - 1 {
                assert(dropped == filtered.len() - (max - 1));
            } else {
                assert(dropped == 0);
                assert(self.entries@ =~= filtered);
            }
        }
        let ghost kept = self.entries@;
        self.entries.push(entry);
        proof {
            assert forall|i: int, j: int|
                0 <= i < self.entries@.len() && 0 <= j < self.entries@.len() && i != j implies (
                #[trigger] self.entries@[i]).key@ != (#[trigger] self.entries@[j]).key@ by {
                if i < kept.len() && j < kept.len() {
                    assert(self.entries@[i] == filtered[i + dropped]);
                    assert(self.entries@[j] == filtered[j + dropped]);
                } else if i < kept.len() {
                    assert(self.entries@[i] == filtered[i + dropped]);
                } else {
                    assert(self.entries@[j] == filtered[j + dropped]);
                }
            }
        }
    }
}

/// A filter that keeps everything changes nothing.
proof fn lemma_filter_all<A>(s: Seq<A>, pred: spec_fn(A) -> bool)
    requires
        forall|i: int| 0 <= i < s.len() ==> pred(#[trigger] s[i]),
    ensures
        s.filter(pred) == s,
    decreases s.len(),
{
    reveal(Seq::filter);
    if s.len() > 0 {
        lemma_filter_all(s.drop_last(), pred);
        assert(s.drop_last().push(s.last()) =~= s);
    }
}

/// In a sequence with distinct keys, dropping the entries under the key of
/// entry `i` drops exactly entry `i`.
proof fn lemma_filter_removes_one<T>(s: Seq<Expiring<T>>, key: Seq<char>, i: int)
    requires
        distinct_keys(s),
        0 <= i < s.len(),
        s[i].key@ == key,
    ensures
        s.filter(other_key(key)) == s.remove(i),
    decreases s.len(),
{
    reveal(Seq::filter);
    let rest = s.drop_last();
    assert(distinct_keys(rest)) by {
        assert forall|a: int, b: int|
            0 <= a < rest.len() && 0 <= b < rest.len() && a != b implies (#[trigger] rest[a]).key@
            != (#[trigger] rest[b]).key@ by {
            assert(rest[a] == s[a] && rest[b] == s[b]);
        }
    }
    if i == s.len() - 1 {
        assert forall|j: int| 0 <= j < rest.len() implies other_key(key)(#[trigger] rest[j]) by {
            assert(rest[j] == s[j]);
        }
        lemma_filter_all(rest, other_key(key));
        assert(s.remove(i) =~= rest);
    } else {
        lemma_filter_removes_one(rest, key, i);
        assert(s.last().key@ != key) by {
            assert(s[s.len() - 1] == s.last());
        }
        assert(rest.remove(i).push(s.last()) =~= s.remove(i));
    }
}

} // verus!
