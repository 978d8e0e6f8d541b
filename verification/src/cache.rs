//! The source cache: a mapping from server-assigned identifier to the cached
//! attributes of that source.
//!
//! The cache is held as a vector of `(id, datum)` entries with pairwise
//! distinct identifiers. Its view is the sequence of entries, so that the
//! contracts can pin down not only the mapping but also the entry order that
//! the resolver scans.

use vstd::prelude::*;

use crate::source::{SourceDatum, SourceView};

verus! {

/// Whether some entry of `s` carries the identifier `id`.
pub open spec fn has_id(s: Seq<(u32, SourceView)>, id: u32) -> bool {
    exists|i: int| 0 <= i < s.len() && s[i].0 == id
}

/// The index of the entry carrying `id` (meaningful when `has_id` holds and
/// the identifiers are distinct).
pub open spec fn idx_of(s: Seq<(u32, SourceView)>, id: u32) -> int {
    choose|i: int| 0 <= i < s.len() && s[i].0 == id
}

/// The cached attributes stored under `id`.
pub open spec fn datum_of(s: Seq<(u32, SourceView)>, id: u32) -> SourceView {
    s[idx_of(s, id)].1
}

/// No two entries carry the same identifier.
pub open spec fn distinct_ids(s: Seq<(u32, SourceView)>) -> bool {
    forall|i: int, j: int| 0 <= i < j < s.len() ==> s[i].0 != s[j].0
}

/// `s` with the attributes under `id` replaced, or a fresh entry appended
/// when `id` was absent.
pub open spec fn upsert(s: Seq<(u32, SourceView)>, id: u32, d: SourceView) -> Seq<(u32, SourceView)> {
    if has_id(s, id) {
        s.update(idx_of(s, id), (id, d))
    } else {
        s.push((id, d))
    }
}

/// `s` with the entry carrying `id` removed, or `s` itself when `id` was
/// absent.
pub open spec fn without(s: Seq<(u32, SourceView)>, id: u32) -> Seq<(u32, SourceView)> {
    if has_id(s, id) {
        s.remove(idx_of(s, id))
    } else {
        s
    }
}

/// With distinct identifiers, an entry that carries `id` is the entry that
/// `idx_of` names.
pub proof fn lemma_idx_of_unique(s: Seq<(u32, SourceView)>, id: u32, i: int)
    requires
        distinct_ids(s),
        0 <= i < s.len(),
        s[i].0 == id,
    ensures
        has_id(s, id),
        idx_of(s, id) == i,
{
    assert(has_id(s, id));
    let k = idx_of(s, id);
    assert(0 <= k < s.len() && s[k].0 == id);
    if k < i {
        assert(s[k].0 != s[i].0);
    } else if i < k {
        assert(s[i].0 != s[k].0);
    }
}

/// Upserting keeps the identifiers distinct.
pub proof fn lemma_upsert_distinct(s: Seq<(u32, SourceView)>, id: u32, d: SourceView)
    requires
        distinct_ids(s),
    ensures
        distinct_ids(upsert(s, id, d)),
        has_id(upsert(s, id, d), id),
        datum_of(upsert(s, id, d), id) == d,
{
    let t = upsert(s, id, d);
    if has_id(s, id) {
        let k = idx_of(s, id);
        assert(0 <= k < s.len() && s[k].0 == id);
        assert(forall|i: int, j: int| 0 <= i < j < t.len() ==> t[i].0 != t[j].0) by {
            assert(forall|i: int| 0 <= i < t.len() && i != k ==> t[i].0 == s[i].0);
        }
        lemma_idx_of_unique(t, id, k);
    } else {
        assert(forall|i: int| 0 <= i < s.len() ==> s[i].0 != id);
        lemma_idx_of_unique(t, id, s.len() as int);
    }
}

/// Upserting one identifier leaves every other identifier's presence and
/// attributes unchanged.
pub proof fn lemma_upsert_other(s: Seq<(u32, SourceView)>, id: u32, d: SourceView, other: u32)
    requires
        distinct_ids(s),
        other != id,
    ensures
        has_id(upsert(s, id, d), other) == has_id(s, other),
        has_id(s, other) ==> datum_of(upsert(s, id, d), other) == datum_of(s, other),
{
    let t = upsert(s, id, d);
    if has_id(s, id) {
        let k = idx_of(s, id);
        assert(0 <= k < s.len() && s[k].0 == id);
        if has_id(s, other) {
            let j = idx_of(s, other);
            assert(0 <= j < s.len() && s[j].0 == other);
            assert(j != k);
            assert(t[j].0 == other);
            lemma_upsert_distinct(s, id, d);
            lemma_idx_of_unique(t, other, j);
        }
        if has_id(t, other) {
            let j = choose|i: int| 0 <= i < t.len() && t[i].0 == other;
            assert(j != k);
            assert(s[j].0 == other);
            assert(has_id(s, other));
        }
    } else {
        if has_id(s, other) {
            let j = idx_of(s, other);
            assert(0 <= j < s.len() && s[j].0 == other);
            assert(t[j].0 == other);
            lemma_upsert_distinct(s, id, d);
            lemma_idx_of_unique(t, other, j);
            lemma_idx_of_unique(s, other, j);
        }
        if has_id(t, other) {
            let j = choose|i: int| 0 <= i < t.len() && t[i].0 == other;
            assert(j != s.len());
            assert(s[j].0 == other);
            assert(has_id(s, other));
        }
    }
}

/// Upserting the attributes an identifier already has changes nothing.
pub proof fn lemma_upsert_same(s: Seq<(u32, SourceView)>, id: u32, d: SourceView)
    requires
        distinct_ids(s),
        has_id(s, id),
        datum_of(s, id) == d,
    ensures
        upsert(s, id, d) == s,
{
    let k = idx_of(s, id);
    assert(0 <= k < s.len() && s[k].0 == id);
    assert(s[k] == (id, d));
    assert(s.update(k, (id, d)) =~= s);
}

/// Removing keeps the identifiers distinct, and removes exactly the named
/// identifier.
pub proof fn lemma_without_distinct(s: Seq<(u32, SourceView)>, id: u32)
    requires
        distinct_ids(s),
    ensures
        distinct_ids(without(s, id)),
        !has_id(without(s, id), id),
{
    let t = without(s, id);
    if has_id(s, id) {
        let k = idx_of(s, id);
        assert(0 <= k < s.len() && s[k].0 == id);
        assert(forall|i: int| 0 <= i < t.len() ==> t[i] == (if i < k { s[i] } else { s[i + 1] }));
        assert(distinct_ids(t));
        if has_id(t, id) {
            let j = choose|i: int| 0 <= i < t.len() && t[i].0 == id;
            if j < k {
                assert(s[j].0 == id);
                lemma_idx_of_unique(s, id, j);
            } else {
                assert(s[j + 1].0 == id);
                lemma_idx_of_unique(s, id, j + 1);
            }
        }
    }
}

/// The identifier of the first entry of `s` whose name is exactly `name`,
/// in entry order; `None` when no entry's name matches.
pub open spec fn resolve_name(s: Seq<(u32, SourceView)>, name: Seq<char>) -> Option<u32>
    decreases s.len(),
{
    if s.len() == 0 {
        None
    } else if s[0].1.name == name {
        Some(s[0].0)
    } else {
        resolve_name(s.drop_first(), name)
    }
}

/// The view of an optional default-source name.
pub open spec fn opt_name_view(name: Option<String>) -> Option<Seq<char>> {
    match name {
        None => None,
        Some(n) => Some(n@),
    }
}

/// Default-source resolution: no reported name resolves to no default;
/// otherwise the name is matched against the cache by exact equality.
pub open spec fn resolve_spec(s: Seq<(u32, SourceView)>, name: Option<Seq<char>>) -> Option<u32> {
    match name {
        None => None,
        Some(n) => resolve_name(s, n),
    }
}

/// A resolved identifier is cached under exactly the resolved name; a failed
/// resolution means no cached name matches.
pub proof fn lemma_resolve_name_props(s: Seq<(u32, SourceView)>, name: Seq<char>)
    requires
        distinct_ids(s),
    ensures
        match resolve_name(s, name) {
            Some(id) => has_id(s, id) && datum_of(s, id).name == name,
            None => forall|i: int| 0 <= i < s.len() ==> s[i].1.name != name,
        },
    decreases s.len(),
{
    if s.len() == 0 {
    } else if s[0].1.name == name {
        lemma_idx_of_unique(s, s[0].0, 0);
    } else {
        let t = s.drop_first();
        assert(forall|i: int| 0 <= i < t.len() ==> t[i] == s[i + 1]);
        assert(distinct_ids(t));
        lemma_resolve_name_props(t, name);
        match resolve_name(t, name) {
            Some(id) => {
                let j = choose|i: int| 0 <= i < t.len() && t[i].0 == id;
                assert(s[j + 1].0 == id);
                lemma_idx_of_unique(s, id, j + 1);
                lemma_idx_of_unique(t, id, j);
            }
            None => {
                assert(forall|i: int| 1 <= i < s.len() ==> s[i] == t[i - 1]);
            }
        }
    }
}

/// The source cache, owned by the consumer side of the listener.
#[derive(Debug)]
pub struct Sources {
    entries: Vec<(u32, SourceDatum)>,
}

impl View for Sources {
    type V = Seq<(u32, SourceView)>;

    closed spec fn view(&self) -> Seq<(u32, SourceView)> {
        self.entries@.map_values(|e: (u32, SourceDatum)| (e.0, e.1@))
    }
}

impl Sources {
    /// An empty cache.
    pub fn new() -> (r: Sources)
        ensures
            r@ == Seq::<(u32, SourceView)>::empty(),
            distinct_ids(r@),
    {
        let entries: Vec<(u32, SourceDatum)> = Vec::new();
        let r = Sources { entries };
        proof {
            assert(r@ =~= Seq::<(u32, SourceView)>::empty());
        }
        r
    }

    /// How many sources are cached.
    pub fn len(&self) -> (n: usize)
        ensures
            n == self@.len(),
    {
        self.entries.len()
    }

    /// The position of the entry carrying `id`, scanning in entry order.
    fn position_of(&self, id: u32) -> (r: Option<usize>)
        ensures
            match r {
                Some(i) => 0 <= i < self@.len() && self@[i as int].0 == id,
                None => !has_id(self@, id),
            },
    {
        let n = self.entries.len();
        let mut i: usize = 0;
        while i < n
            invariant
                0 <= i <= n,
                n == self@.len(),
                self@.len() == self.entries@.len(),
                forall|j: int| 0 <= j < i ==> self@[j].0 != id,
            decreases n - i,
        {
            if self.entries[i].0 == id {
                return Some(i);
            }
            i = i + 1;
        }
        None
    }

    /// Look up a source by identifier.
    pub fn get(&self, id: u32) -> (r: Option<&SourceDatum>)
        requires
            distinct_ids(self@),
        ensures
            match r {
                Some(d) => has_id(self@, id) && d@ == datum_of(self@, id),
                None => !has_id(self@, id),
            },
    {
        match self.position_of(id) {
            Some(i) => {
                proof {
                    lemma_idx_of_unique(self@, id, i as int);
                }
                Some(&self.entries[i].1)
            }
            None => None,
        }
    }

    /// Insert or replace the attributes cached under `id`.
    pub fn insert(&mut self, id: u32, datum: SourceDatum)
        requires
            distinct_ids(old(self)@),
        ensures
            final(self)@ == upsert(old(self)@, id, datum@),
            distinct_ids(final(self)@),
            has_id(final(self)@, id),
            datum_of(final(self)@, id) == datum@,
    {
        let ghost s = self@;
        let ghost dv = datum@;
        match self.position_of(id) {
            Some(i) => {
                self.entries.set(i, (id, datum));
                proof {
                    lemma_idx_of_unique(s, id, i as int);
                    assert(self@ =~= s.update(i as int, (id, dv)));
                    lemma_upsert_distinct(s, id, dv);
                }
            }
            None => {
                self.entries.push((id, datum));
                proof {
                    assert(self@ =~= s.push((id, dv)));
                    lemma_upsert_distinct(s, id, dv);
                }
            }
        }
    }

    /// Remove the entry cached under `id`, returning its attributes when it
    /// was present.
    pub fn remove(&mut self, id: u32) -> (r: Option<SourceDatum>)
        requires
            distinct_ids(old(self)@),
        ensures
            final(self)@ == without(old(self)@, id),
            distinct_ids(final(self)@),
            !has_id(final(self)@, id),
            match r {
                Some(d) => has_id(old(self)@, id) && d@ == datum_of(old(self)@, id),
                None => !has_id(old(self)@, id),
            },
    {
        let ghost s = self@;
        match self.position_of(id) {
            Some(i) => {
                let e = self.entries.remove(i);
                proof {
                    lemma_idx_of_unique(s, id, i as int);
                    assert(self@ =~= s.remove(i as int));
                    lemma_without_distinct(s, id);
                }
                Some(e.1)
            }
            None => None,
        }
    }

    /// Resolve the server's reported default-source name against the cache:
    /// the first entry whose name matches exactly, `None` when no name was
    /// reported or none matches.
    pub fn resolve(&self, name: &Option<String>) -> (r: Option<u32>)
        requires
            distinct_ids(self@),
        ensures
            r == resolve_spec(self@, opt_name_view(*name)),
            match r {
                Some(id) => {
                    &&& has_id(self@, id)
                    &&& (*name) matches Some(n) && datum_of(self@, id).name == n@
                },
                None => (*name) matches Some(n) ==> forall|i: int|
                    0 <= i < self@.len() ==> self@[i].1.name != n@,
            },
    {
        match name.as_ref() {
            None => None,
            Some(n) => {
                let ghost s = self@;
                let ghost nv = n@;
                proof {
                    assert(s.skip(0) =~= s);
                }
                let count = self.entries.len();
                let mut i: usize = 0;
                while i < count
                    invariant
                        0 <= i <= count,
                        count == s.len(),
                        s == self@,
                        s.len() == self.entries@.len(),
                        distinct_ids(s),
                        nv == n@,
                        opt_name_view(*name) == Some(nv),
                        resolve_name(s, nv) == resolve_name(s.skip(i as int), nv),
                    decreases count - i,
                {
                    proof {
                        assert(s[i as int] == (self.entries@[i as int].0, self.entries@[i as int].1@));
                        assert(s.skip(i as int)[0] == s[i as int]);
                    }
                    if self.entries[i].1.name == *n {
                        proof {
                            assert(resolve_name(s.skip(i as int), nv) == Some(s[i as int].0));
                            lemma_resolve_name_props(s, nv);
                        }
                        return Some(self.entries[i].0);
                    }
                    proof {
                        assert(s.skip(i as int).drop_first() =~= s.skip(i as int + 1));
                    }
                    i = i + 1;
                }
                proof {
                    assert(s.skip(count as int) =~= Seq::<(u32, SourceView)>::empty());
                    lemma_resolve_name_props(s, nv);
                }
                None
            }
        }
    }
}

} // verus!
