//! The bounded capture store: a least-recently-used cache of captured
//! requests keyed by their identifier, with filtered queries.
//!
//! Entries are kept oldest-first; any insert or lookup of an identifier
//! refreshes its recency, and an insert into a full store evicts the
//! least-recently-touched entry.

use vstd::prelude::*;
use crate::capture::{
    matches_filter, req_matches, CapturedRequest, FilterCriteria, FilterView, ReqView,
};
use crate::strutil::str_eq;

verus! {

/// Some entry of `s` has identifier `id`.
pub open spec fn has_id(s: Seq<ReqView>, id: Seq<char>) -> bool {
    exists|j: int| 0 <= j < s.len() && s[j].id == id
}

/// No two entries of `s` share an identifier.
pub open spec fn unique_ids(s: Seq<ReqView>) -> bool {
    forall|i: int, j: int| 0 <= i < j < s.len() ==> s[i].id != s[j].id
}

/// `s` with every entry of identifier `id` taken out, order kept.
pub open spec fn remove_id(s: Seq<ReqView>, id: Seq<char>) -> Seq<ReqView>
    decreases s.len(),
{
    if s.len() == 0 {
        Seq::empty()
    } else if s[0].id == id {
        remove_id(s.drop_first(), id)
    } else {
        seq![s[0]] + remove_id(s.drop_first(), id)
    }
}

/// The entry of `s` with identifier `id`, if any; the first one when several
/// exist.
pub open spec fn get_id(s: Seq<ReqView>, id: Seq<char>) -> Option<ReqView>
    decreases s.len(),
{
    if s.len() == 0 {
        None
    } else if s[0].id == id {
        Some(s[0])
    } else {
        get_id(s.drop_first(), id)
    }
}

/// What an insert does to the store's contents: any entry with the same
/// identifier is taken out, the least recently used entry is evicted if the
/// store would overflow, and the new entry becomes the most recent.
pub open spec fn store_put(s: Seq<ReqView>, r: ReqView, cap: nat) -> Seq<ReqView> {
    let s1 = remove_id(s, r.id);
    let s2 = if s1.len() >= cap {
        s1.drop_first()
    } else {
        s1
    };
    s2.push(r)
}

/// What a lookup does to the store's contents: a hit moves the entry to the
/// most recent position; a miss changes nothing.
pub open spec fn store_touch(s: Seq<ReqView>, id: Seq<char>) -> Seq<ReqView> {
    if has_id(s, id) {
        remove_id(s, id).push(get_id(s, id).unwrap())
    } else {
        s
    }
}

/// Entries that satisfy the filter, order kept; no filter keeps everything.
pub open spec fn filtered(s: Seq<ReqView>, f: Option<FilterView>) -> Seq<ReqView>
    decreases s.len(),
{
    match f {
        None => s,
        Some(fv) => {
            if s.len() == 0 {
                Seq::empty()
            } else if req_matches(s[0], fv) {
                seq![s[0]] + filtered(s.drop_first(), f)
            } else {
                filtered(s.drop_first(), f)
            }
        },
    }
}

/// A filtered query returns only entries that satisfy every supplied
/// predicate.
pub proof fn lemma_filtered_sound(s: Seq<ReqView>, fv: FilterView)
    ensures
        forall|i: int|
            0 <= i < filtered(s, Some(fv)).len() ==> req_matches(
                filtered(s, Some(fv))[i],
                fv,
            ),
    decreases s.len(),
{
    if s.len() > 0 {
        lemma_filtered_sound(s.drop_first(), fv);
        let res = filtered(s, Some(fv));
        let sub = filtered(s.drop_first(), Some(fv));
        if req_matches(s[0], fv) {
            assert(res == seq![s[0]] + sub);
            assert forall|i: int| 0 <= i < res.len() implies req_matches(res[i], fv) by {
                if i > 0 {
                    assert(res[i] == sub[i - 1]);
                }
            }
        }
    }
}

/// A filtered query keeps every entry that satisfies the filter: an entry
/// of `s` that matches is in the result.
pub proof fn lemma_filtered_complete(s: Seq<ReqView>, fv: FilterView, i: int)
    requires
        0 <= i < s.len(),
        req_matches(s[i], fv),
    ensures
        filtered(s, Some(fv)).contains(s[i]),
    decreases s.len(),
{
    if i == 0 {
        assert(filtered(s, Some(fv))[0] == s[0]);
    } else {
        lemma_filtered_complete(s.drop_first(), fv, i - 1);
        let sub = filtered(s.drop_first(), Some(fv));
        let k = choose|k: int| 0 <= k < sub.len() && sub[k] == s[i];
        if req_matches(s[0], fv) {
            assert(filtered(s, Some(fv))[k + 1] == s[i]);
        }
    }
}

proof fn lemma_remove_id_absent(s: Seq<ReqView>, id: Seq<char>)
    requires
        !has_id(s, id),
    ensures
        remove_id(s, id) == s,
    decreases s.len(),
{
    if s.len() > 0 {
        assert(s[0].id != id);
        assert(forall|j: int| 0 <= j < s.drop_first().len() ==> s.drop_first()[j] == s[j + 1]);
        lemma_remove_id_absent(s.drop_first(), id);
        assert(seq![s[0]] + s.drop_first() =~= s);
    } else {
        assert(remove_id(s, id) =~= s);
    }
}

proof fn lemma_remove_id_at(s: Seq<ReqView>, id: Seq<char>, j: int)
    requires
        unique_ids(s),
        0 <= j < s.len(),
        s[j].id == id,
    ensures
        remove_id(s, id) == s.remove(j),
        get_id(s, id) == Some(s[j]),
    decreases s.len(),
{
    if j == 0 {
        assert(!has_id(s.drop_first(), id)) by {
            assert(forall|k: int|
                0 <= k < s.drop_first().len() ==> s.drop_first()[k] == s[k + 1]);
        }
        lemma_remove_id_absent(s.drop_first(), id);
        assert(s.remove(0) =~= s.drop_first());
    } else {
        assert(s[0].id != id);
        assert(forall|k: int| 0 <= k < s.drop_first().len() ==> s.drop_first()[k] == s[k + 1]);
        assert(unique_ids(s.drop_first()));
        lemma_remove_id_at(s.drop_first(), id, j - 1);
        assert(seq![s[0]] + s.drop_first().remove(j - 1) =~= s.remove(j));
    }
}

proof fn lemma_unique_remove(s: Seq<ReqView>, j: int)
    requires
        unique_ids(s),
        0 <= j < s.len(),
    ensures
        unique_ids(s.remove(j)),
    decreases s.len(),
{
    let t = s.remove(j);
    assert forall|a: int, b: int| 0 <= a < b < t.len() implies t[a].id != t[b].id by {
        let oa = if a < j {
            a
        } else {
            a + 1
        };
        let ob = if b < j {
            b
        } else {
            b + 1
        };
        assert(t[a] == s[oa]);
        assert(t[b] == s[ob]);
    }
}

proof fn lemma_has_id_remove(s: Seq<ReqView>, j: int, id: Seq<char>)
    requires
        0 <= j < s.len(),
        !has_id(s, id),
    ensures
        !has_id(s.remove(j), id),
{
    let t = s.remove(j);
    assert forall|k: int| 0 <= k < t.len() implies t[k].id != id by {
        let ok = if k < j {
            k
        } else {
            k + 1
        };
        assert(t[k] == s[ok]);
    }
}

/// The views of the entries of a vector of captures.
pub open spec fn entry_views(v: Seq<CapturedRequest>) -> Seq<ReqView> {
    Seq::new(v.len(), |i: int| v[i]@)
}

/// The bounded, least-recently-used capture cache.
pub struct RequestStore {
    capacity: usize,
    entries: Vec<CapturedRequest>,
}

impl View for RequestStore {
    type V = Seq<ReqView>;

    closed spec fn view(&self) -> Seq<ReqView> {
        entry_views(self.entries@)
    }
}

impl RequestStore {
    /// The fixed capacity the store was created with.
    pub closed spec fn spec_capacity(&self) -> nat {
        self.capacity as nat
    }

    /// The store's internal invariant: entries fit the capacity and no two
    /// share an identifier.
    pub closed spec fn well_formed(&self) -> bool {
        self.capacity >= 1 && self@.len() <= self.capacity && unique_ids(self@)
    }

    /// An empty store of the given capacity.
    pub fn new(max_size: usize) -> (r: RequestStore)
        requires
            max_size >= 1,
        ensures
            r.well_formed(),
            r@ == Seq::<ReqView>::empty(),
            r.spec_capacity() == max_size,
    {
        let r = RequestStore { capacity: max_size, entries: Vec::new() };
        assert(r@ =~= Seq::<ReqView>::empty());
        r
    }

    /// The index of the entry with the given identifier, if any.
    fn find(&self, id: &str) -> (r: Option<usize>)
        ensures
            r is Some ==> 0 <= r.unwrap() < self@.len() && self@[r.unwrap() as int].id == id@,
            r is None ==> !has_id(self@, id@),
    {
        let n = self.entries.len();
        let mut i: usize = 0;
        while i < n
            invariant
                n == self.entries@.len(),
                i <= n,
                forall|k: int| 0 <= k < i ==> self@[k].id != id@,
            decreases n - i,
        {
            if str_eq(self.entries[i].id.as_str(), id) {
                return Some(i);
            }
            i = i + 1;
        }
        None
    }

    /// Insert a capture: an entry with the same identifier is replaced, the
    /// least recently used entry is evicted when a full store takes a new
    /// identifier, and the new entry becomes the most recent.
    pub fn add(&mut self, request: CapturedRequest)
        requires
            old(self).well_formed(),
        ensures
            final(self).well_formed(),
            final(self).spec_capacity() == old(self).spec_capacity(),
            final(self)@ == store_put(old(self)@, request@, old(self).spec_capacity()),
    {
        let ghost s0 = self@;
        let ghost cap = self.spec_capacity();
        let found = self.find(request.id.as_str());
        match found {
            Some(j) => {
                proof {
                    lemma_remove_id_at(s0, request@.id, j as int);
                    lemma_unique_remove(s0, j as int);
                }
                self.entries.remove(j);
                assert(self@ =~= s0.remove(j as int));
            },
            None => {
                proof {
                    lemma_remove_id_absent(s0, request@.id);
                }
                if self.entries.len() == self.capacity {
                    proof {
                        lemma_unique_remove(s0, 0);
                        lemma_has_id_remove(s0, 0, request@.id);
                    }
                    self.entries.remove(0);
                    assert(self@ =~= s0.remove(0));
                    assert(s0.remove(0) =~= s0.drop_first());
                }
            },
        }
        let ghost s1 = self@;
        proof {
            assert(s1 == (if remove_id(s0, request@.id).len() >= cap {
                remove_id(s0, request@.id).drop_first()
            } else {
                remove_id(s0, request@.id)
            }));
            assert(!has_id(s1, request@.id)) by {
                if found is Some {
                    lemma_remove_id_at(s0, request@.id, found.unwrap() as int);
                    assert(forall|k: int| 0 <= k < s1.len() ==> !(s1[k].id == request@.id))
                        by {
                        assert forall|k: int| 0 <= k < s1.len() implies s1[k].id != request@.id
                            by {
                            let j = found.unwrap() as int;
                            let ok = if k < j {
                                k
                            } else {
                                k + 1
                            };
                            assert(s1[k] == s0[ok]);
                        }
                    }
                }
            }
        }
        self.entries.push(request);
        assert(self@ =~= s1.push(request@));
        proof {
            assert forall|a: int, b: int| 0 <= a < b < self@.len() implies self@[a].id
                != self@[b].id by {
                if b < s1.len() {
                } else {
                    assert(self@[b] == request@);
                    assert(self@[a] == s1[a]);
                }
            }
        }
    }

    /// Look an entry up by identifier: a hit returns a copy and refreshes
    /// the entry's recency; a miss changes nothing.
    pub fn get(&mut self, id: &str) -> (r: Option<CapturedRequest>)
        requires
            old(self).well_formed(),
        ensures
            final(self).well_formed(),
            final(self).spec_capacity() == old(self).spec_capacity(),
            final(self)@ == store_touch(old(self)@, id@),
            r is Some <==> has_id(old(self)@, id@),
            r is Some ==> r.unwrap()@ == get_id(old(self)@, id@).unwrap(),
    {
        let ghost s0 = self@;
        let found = self.find(id);
        match found {
            Some(j) => {
                proof {
                    lemma_remove_id_at(s0, id@, j as int);
                    lemma_unique_remove(s0, j as int);
                }
                let entry = self.entries.remove(j);
                assert(self@ =~= s0.remove(j as int));
                let copy = entry.duplicate();
                let ghost s1 = self@;
                self.entries.push(entry);
                assert(self@ =~= s1.push(entry@));
                proof {
                    assert forall|a: int, b: int| 0 <= a < b < self@.len() implies self@[a].id
                        != self@[b].id by {
                        if b < s1.len() {
                        } else {
                            let oa = if a < j {
                                a
                            } else {
                                a + 1
                            };
                            assert(self@[a] == s0[oa]);
                            assert(self@[b] == s0[j as int]);
                        }
                    }
                }
                Some(copy)
            },
            None => {
                None
            },
        }
    }

    /// Every entry, most recently used first, as the capture UI lists them.
    pub fn get_all(&self) -> (r: Vec<CapturedRequest>)
        ensures
            entry_views(r@) == self@.reverse(),
    {
        let n = self.entries.len();
        let mut out: Vec<CapturedRequest> = Vec::new();
        let mut i: usize = 0;
        while i < n
            invariant
                n == self.entries@.len(),
                i <= n,
                out@.len() == i,
                forall|k: int| 0 <= k < i ==> out@[k]@ == self@[n - 1 - k],
            decreases n - i,
        {
            let copy = self.entries[n - 1 - i].duplicate();
            out.push(copy);
            i = i + 1;
        }
        assert(entry_views(out@) =~= self@.reverse());
        out
    }

    /// Entries satisfying every supplied predicate of the filter, most
    /// recently used first; an absent filter keeps everything.
    pub fn get_filtered(&self, filter: Option<FilterCriteria>) -> (r: Vec<CapturedRequest>)
        ensures
            entry_views(r@) == filtered(
                self@.reverse(),
                match filter {
                    Some(ref f) => Some(f@),
                    None => None,
                },
            ),
    {
        match filter {
            None => self.get_all(),
            Some(f) => {
                let ghost rev = self@.reverse();
                let n = self.entries.len();
                let mut out: Vec<CapturedRequest> = Vec::new();
                let mut i: usize = 0;
                while i < n
                    invariant
                        n == self.entries@.len(),
                        rev == self@.reverse(),
                        i <= n,
                        entry_views(out@) == filtered(rev.take(i as int), Some(f@)),
                    decreases n - i,
                {
                    let ghost prefix = rev.take(i as int);
                    let entry = &self.entries[n - 1 - i];
                    assert(entry@ == rev[i as int]);
                    if matches_filter(entry, &f) {
                        let copy = entry.duplicate();
                        out.push(copy);
                    }
                    proof {
                        lemma_filtered_snoc(rev.take(i + 1), f@);
                        assert(rev.take(i + 1).drop_last() =~= prefix);
                        assert(rev.take(i + 1).last() == rev[i as int]);
                        if req_matches(rev[i as int], f@) {
                            assert(entry_views(out@) =~= filtered(prefix, Some(f@)).push(
                                rev[i as int],
                            ));
                        }
                    }
                    i = i + 1;
                }
                assert(rev.take(n as int) =~= rev);
                out
            },
        }
    }

    /// Empty the store.
    pub fn clear(&mut self)
        ensures
            final(self)@ == Seq::<ReqView>::empty(),
            final(self).spec_capacity() == old(self).spec_capacity(),
            old(self).well_formed() ==> final(self).well_formed(),
    {
        self.entries.clear();
        assert(self@ =~= Seq::<ReqView>::empty());
    }

    /// How many entries the store holds.
    pub fn len(&self) -> (r: usize)
        ensures
            r == self@.len(),
    {
        self.entries.len()
    }
}

/// Filtering a sequence extended by one entry appends that entry exactly
/// when it matches.
proof fn lemma_filtered_snoc(s: Seq<ReqView>, fv: FilterView)
    requires
        s.len() > 0,
    ensures
        filtered(s, Some(fv)) == (if req_matches(s.last(), fv) {
            filtered(s.drop_last(), Some(fv)).push(s.last())
        } else {
            filtered(s.drop_last(), Some(fv))
        }),
    decreases s.len(),
{
    if s.len() == 1 {
        assert(s.drop_last() =~= Seq::<ReqView>::empty());
        assert(s.drop_first() =~= s.drop_last());
        assert(s.last() == s[0]);
        if req_matches(s.last(), fv) {
            assert(filtered(s, Some(fv)) =~= filtered(s.drop_last(), Some(fv)).push(s.last()));
        }
    } else {
        lemma_filtered_snoc(s.drop_first(), fv);
        assert(s.drop_first().drop_last() =~= s.drop_last().drop_first());
        assert(s.drop_first().last() == s.last());
        assert(s.drop_last()[0] == s[0]);
        if req_matches(s[0], fv) {
            if req_matches(s.last(), fv) {
                assert(filtered(s, Some(fv)) =~= filtered(s.drop_last(), Some(fv)).push(
                    s.last(),
                ));
            } else {
                assert(filtered(s, Some(fv)) =~= filtered(s.drop_last(), Some(fv)));
            }
        } else {
            if req_matches(s.last(), fv) {
                assert(filtered(s, Some(fv)) =~= filtered(s.drop_last(), Some(fv)).push(
                    s.last(),
                ));
            } else {
                assert(filtered(s, Some(fv)) =~= filtered(s.drop_last(), Some(fv)));
            }
        }
    }
}

/// Inserting an entry whose identifier the store does not hold grows the
/// store by one until the capacity is reached and never beyond it.
pub proof fn lemma_store_put_len(s: Seq<ReqView>, r: ReqView, cap: nat)
    requires
        unique_ids(s),
        s.len() <= cap,
        cap >= 1,
    ensures
        store_put(s, r, cap).len() == (if has_id(s, r.id) {
            s.len() as int
        } else if s.len() < cap {
            s.len() + 1 as int
        } else {
            cap as int
        }),
{
    if has_id(s, r.id) {
        let j = choose|j: int| 0 <= j < s.len() && s[j].id == r.id;
        lemma_remove_id_at(s, r.id, j);
    } else {
        lemma_remove_id_absent(s, r.id);
    }
}

/// Inserting a fresh identifier into a full store keeps exactly the
/// capacity and evicts precisely the least recently used entry.
pub proof fn lemma_full_store_eviction(s: Seq<ReqView>, r: ReqView, cap: nat)
    requires
        unique_ids(s),
        s.len() == cap,
        cap >= 1,
        !has_id(s, r.id),
    ensures
        store_put(s, r, cap) == s.drop_first().push(r),
        store_put(s, r, cap).len() == cap,
        !has_id(store_put(s, r, cap), s[0].id),
        forall|j: int| 1 <= j < s.len() ==> has_id(store_put(s, r, cap), s[j].id),
{
    lemma_remove_id_absent(s, r.id);
    let result = store_put(s, r, cap);
    assert(result =~= s.drop_first().push(r));
    assert forall|k: int| 0 <= k < result.len() implies result[k].id != s[0].id by {
        if k < result.len() - 1 {
            assert(result[k] == s[k + 1]);
        } else {
            assert(result[k] == r);
        }
    }
    assert forall|j: int| 1 <= j < s.len() implies has_id(result, s[j].id) by {
        assert(result[j - 1] == s[j]);
    }
}

} // verus!
