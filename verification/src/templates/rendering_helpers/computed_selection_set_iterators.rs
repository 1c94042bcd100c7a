//! An iterator over the selections of a computed selection set: the direct selections
//! first, then the merged ones, keeping only those an optional filter accepts.
use vstd::prelude::*;

verus! {

/// Yields items from a direct collection first, then from a merged collection, with an
/// optional filter applied.
pub struct SelectionsIterator<T, F> {
    direct: Vec<T>,
    merged: Vec<T>,
    direct_index: usize,
    merged_index: usize,
    filter: Option<F>,
}

/// The positions `picked` (increasing, within `items`) are those of the items `f` accepted
/// in one call each; every other item was rejected in a call.
pub open spec fn filter_outcome<T, F: Fn(&T) -> bool>(items: Seq<T>, f: F, picked: Seq<int>) -> bool {
    &&& forall|i: int| 0 <= i < picked.len() ==> 0 <= #[trigger] picked[i] < items.len()
    &&& forall|i: int, j: int| 0 <= i < j < picked.len() ==> picked[i] < picked[j]
    &&& forall|i: int| 0 <= i < picked.len() ==> call_ensures(f, (&items[#[trigger] picked[i]],), true)
    &&& forall|q: int| 0 <= q < items.len() && !picked.contains(q) ==> call_ensures(f, (&#[trigger] items[q],), false)
}

/// Dropping a prefix of a concatenation that lies within its first part drops it from that
/// part.
proof fn lemma_skip_concat<T>(a: Seq<T>, b: Seq<T>, k: int)
    requires
        0 <= k <= a.len(),
    ensures
        (a + b).skip(k) == a.skip(k) + b,
        forall|i: int| 0 <= i < a.len() - k ==> (a + b).skip(k)[i] == a[k + i],
{
    assert((a + b).skip(k) =~= a.skip(k) + b);
}

impl<T: Clone, F: Fn(&T) -> bool> SelectionsIterator<T, F> {
    /// The direct items.
    pub closed spec fn spec_direct(&self) -> Seq<T> {
        self.direct@
    }

    /// The merged items.
    pub closed spec fn spec_merged(&self) -> Seq<T> {
        self.merged@
    }

    /// The filter, if any.
    pub closed spec fn spec_filter(&self) -> Option<F> {
        self.filter
    }

    /// The items not yet considered: the rest of the direct items, then the rest of the
    /// merged items.
    pub closed spec fn remaining(&self) -> Seq<T> {
        self.direct@.skip(self.direct_index as int) + self.merged@.skip(self.merged_index as int)
    }

    /// The positions are within the collections, and the filter accepts every item as input.
    pub closed spec fn wf(&self) -> bool {
        &&& self.direct_index <= self.direct@.len()
        &&& self.merged_index <= self.merged@.len()
        &&& self.filter matches Some(f) ==> forall|x: &T| #[trigger] f.requires((x,))
    }

    /// Creates an iterator over the direct items (none when absent), then the merged items,
    /// keeping the items that `filter` accepts when there is a filter.
    pub fn new(direct: Option<Vec<T>>, merged: Vec<T>, filter: Option<F>) -> (r: Self)
        requires
            filter matches Some(f) ==> forall|x: &T| #[trigger] f.requires((x,)),
        ensures
            r.wf(),
            r.spec_direct() == match direct {
                Some(d) => d@,
                None => Seq::<T>::empty(),
            },
            r.spec_merged() == merged@,
            r.spec_filter() == filter,
            r.remaining() == r.spec_direct() + r.spec_merged(),
    {
        let direct = match direct {
            Some(d) => d,
            None => Vec::new(),
        };
        let r = SelectionsIterator { direct, merged, direct_index: 0, merged_index: 0, filter };
        proof {
            assert(r.direct@.skip(0) =~= r.direct@);
            assert(r.merged@.skip(0) =~= r.merged@);
        }
        r
    }

    /// Returns `true` if both the direct and the merged collections are empty.
    pub fn is_empty(&self) -> (r: bool)
        ensures
            r == (self.spec_direct().len() == 0 && self.spec_merged().len() == 0),
    {
        self.direct.len() == 0 && self.merged.len() == 0
    }

    /// All the items the iterator yields, in order: every remaining item without a filter;
    /// with a filter, the remaining items it accepted, each other item having been rejected.
    pub fn collect_all(self) -> (r: Vec<T>)
        requires
            self.wf(),
        ensures
            self.spec_filter() is None ==> {
                &&& r@.len() == self.remaining().len()
                &&& forall|i: int| 0 <= i < r@.len() ==> cloned::<T>(self.remaining()[i], #[trigger] r@[i])
            },
            self.spec_filter() matches Some(f) ==> exists|picked: Seq<int>| {
                &&& filter_outcome(self.remaining(), f, picked)
                &&& picked.len() == r@.len()
                &&& forall|i: int| 0 <= i < r@.len() ==> cloned::<T>(self.remaining()[picked[i]], #[trigger] r@[i])
            },
    {
        let ghost rem0 = self.remaining();
        let ghost filter = self.spec_filter();
        let mut it = self;
        let mut r: Vec<T> = Vec::new();
        let ghost mut consumed: int = 0;
        let ghost mut picked: Seq<int> = Seq::empty();
        proof {
            assert(rem0.skip(0) =~= rem0);
        }
        loop
            invariant
                it.wf(),
                it.spec_filter() == filter,
                0 <= consumed <= rem0.len(),
                it.remaining() == rem0.skip(consumed),
                filter is None ==> {
                    &&& r@.len() == consumed
                    &&& forall|i: int| 0 <= i < r@.len() ==> cloned::<T>(rem0[i], #[trigger] r@[i])
                },
                filter matches Some(f) ==> {
                    &&& filter_outcome(rem0.take(consumed), f, picked)
                    &&& picked.len() == r@.len()
                    &&& forall|i: int| 0 <= i < r@.len() ==> cloned::<T>(rem0[picked[i]], #[trigger] r@[i])
                },
            ensures
                filter is None ==> {
                    &&& r@.len() == rem0.len()
                    &&& forall|i: int| 0 <= i < r@.len() ==> cloned::<T>(rem0[i], #[trigger] r@[i])
                },
                filter matches Some(f) ==> {
                    &&& filter_outcome(rem0, f, picked)
                    &&& picked.len() == r@.len()
                    &&& forall|i: int| 0 <= i < r@.len() ==> cloned::<T>(rem0[picked[i]], #[trigger] r@[i])
                },
            decreases rem0.len() - consumed,
        {
            let ghost before = it.remaining();
            match it.next() {
                Some(x) => {
                    let ghost p = choose|p: int|
                        0 <= p < before.len()
                            && it.remaining() == before.skip(p + 1)
                            && cloned::<T>(before[p], x)
                            && (filter is None ==> p == 0)
                            && (filter matches Some(f) ==> {
                                &&& call_ensures(f, (&before[p],), true)
                                &&& forall|q: int| 0 <= q < p ==> call_ensures(f, (&#[trigger] before[q],), false)
                            });
                    let ghost c0 = consumed;
                    proof {
                        assert(before[p] == rem0[consumed + p]);
                        assert(it.remaining() =~= rem0.skip(consumed + p + 1));
                        match filter {
                            Some(f) => {
                                let old_picked = picked;
                                picked = picked.push(consumed + p);
                                let t = rem0.take(consumed + p + 1);
                                assert forall|i: int| 0 <= i < picked.len() implies 0 <= #[trigger] picked[i] < t.len() by {
                                    if i < old_picked.len() {
                                        assert(old_picked[i] < consumed);
                                    }
                                }
                                assert forall|i: int, j: int| 0 <= i < j < picked.len() implies picked[i] < picked[j] by {
                                    if j == picked.len() - 1 && i < old_picked.len() {
                                        assert(old_picked[i] < consumed);
                                    }
                                }
                                assert forall|i: int| 0 <= i < picked.len() implies call_ensures(f, (&t[#[trigger] picked[i]],), true) by {
                                    if i < old_picked.len() {
                                        assert(t[old_picked[i]] == rem0.take(consumed)[old_picked[i]]);
                                    } else {
                                        assert(t[consumed + p] == before[p]);
                                    }
                                }
                                assert forall|q: int| 0 <= q < t.len() && !picked.contains(q) implies call_ensures(f, (&#[trigger] t[q],), false) by {
                                    if q < consumed {
                                        assert(!old_picked.contains(q)) by {
                                            if old_picked.contains(q) {
                                                let k = choose|k: int| 0 <= k < old_picked.len() && old_picked[k] == q;
                                                assert(picked[k] == q);
                                            }
                                        }
                                        assert(t[q] == rem0.take(consumed)[q]);
                                    } else if q < consumed + p {
                                        assert(t[q] == before[q - consumed]);
                                    } else {
                                        assert(picked[picked.len() - 1] == q);
                                    }
                                }
                                assert(filter_outcome(t, f, picked));
                            },
                            None => {},
                        }
                        consumed = consumed + p + 1;
                    }
                    let ghost r_before = r@;
                    r.push(x);
                    proof {
                        assert(r@ == r_before.push(x));
                        match filter {
                            None => {
                                assert forall|i: int| 0 <= i < r@.len() implies cloned::<T>(rem0[i], #[trigger] r@[i]) by {
                                    if i < r_before.len() {
                                        assert(r@[i] == r_before[i]);
                                    }
                                }
                            },
                            Some(f) => {
                                assert forall|i: int| 0 <= i < r@.len() implies cloned::<T>(rem0[picked[i]], #[trigger] r@[i]) by {
                                    if i < r_before.len() {
                                        assert(r@[i] == r_before[i]);
                                    }
                                }
                            },
                        }
                    }
                },
                None => {
                    proof {
                        let c0 = consumed;
                        assert(before.len() == rem0.len() - c0);
                        match filter {
                            Some(f) => {
                                let t = rem0.take(c0);
                                assert forall|i: int| 0 <= i < picked.len() implies 0 <= #[trigger] picked[i] < rem0.len() by {
                                    assert(picked[i] < t.len());
                                }
                                assert forall|i: int| 0 <= i < picked.len() implies call_ensures(f, (&rem0[#[trigger] picked[i]],), true) by {
                                    assert(t[picked[i]] == rem0[picked[i]]);
                                }
                                assert forall|q: int| 0 <= q < rem0.len() && !picked.contains(q) implies call_ensures(f, (&#[trigger] rem0[q],), false) by {
                                    if q < c0 {
                                        assert(t[q] == rem0[q]);
                                    } else {
                                        assert(before[q - c0] == rem0[q]);
                                    }
                                }
                                assert(filter_outcome(rem0, f, picked));
                            },
                            None => {
                                assert(consumed == rem0.len());
                            },
                        }
                        consumed = rem0.len() as int;
                    }
                    break;
                },
            }
        }
        r
    }

    /// What one call of `next` does, from the iterator `before` to the iterator `after`
    /// giving `r`: the collections and the filter stay; without a filter the first remaining
    /// item is given; with a filter the first remaining item it accepts is given, every item
    /// before it having been rejected; `None` comes only when no remaining item is accepted,
    /// and then nothing remains.
    pub open spec fn spec_next(before: Self, after: Self, r: Option<T>) -> bool {
        &&& after.wf()
        &&& after.spec_filter() == before.spec_filter()
        &&& after.spec_direct() == before.spec_direct()
        &&& after.spec_merged() == before.spec_merged()
        &&& r is None ==> after.remaining().len() == 0
        &&& r is None && before.spec_filter() is None ==> before.remaining().len() == 0
        &&& r is None ==> (before.spec_filter() matches Some(f) ==> forall|q: int|
            0 <= q < before.remaining().len() ==> call_ensures(f, (&#[trigger] before.remaining()[q],), false))
        &&& r matches Some(x) ==> exists|p: int|
            0 <= p < before.remaining().len()
                && after.remaining() == before.remaining().skip(p + 1)
                && cloned::<T>(before.remaining()[p], x)
                && (before.spec_filter() is None ==> p == 0)
                && (before.spec_filter() matches Some(f) ==> {
                    &&& call_ensures(f, (&before.remaining()[p],), true)
                    &&& forall|q: int| 0 <= q < p ==> call_ensures(f, (&#[trigger] before.remaining()[q],), false)
                })
    }

    /// Once nothing remains, `next` gives `None`, and nothing remains after it: every later
    /// call gives `None` too.
    pub proof fn law_exhausted_iterator_gives_none(before: Self, after: Self, r: Option<T>)
        requires
            Self::spec_next(before, after, r),
            before.remaining().len() == 0,
        ensures
            r is None,
            after.remaining().len() == 0,
    {
    }

    /// Whether the iterator is empty does not change with calls of `next`: it depends only on
    /// the collections, which `next` keeps, not on the filter or on what was given.
    pub proof fn law_next_keeps_emptiness(before: Self, after: Self, r: Option<T>)
        requires
            Self::spec_next(before, after, r),
        ensures
            (after.spec_direct().len() == 0 && after.spec_merged().len() == 0)
                == (before.spec_direct().len() == 0 && before.spec_merged().len() == 0),
    {
    }

    /// A run of successive `next` calls: `states[i]` is the iterator before call `i` and
    /// `results[i]` what that call gave, starting from a well-formed iterator.
    pub open spec fn spec_run(states: Seq<Self>, results: Seq<Option<T>>) -> bool {
        &&& states.len() == results.len() + 1
        &&& states[0].wf()
        &&& forall|i: int| 0 <= i < results.len() ==> Self::spec_next(states[i], states[i + 1], #[trigger] results[i])
    }

    /// How many of the items the run started with have been considered before call `i`.
    pub open spec fn spec_consumed(states: Seq<Self>, i: int) -> int {
        states[0].remaining().len() - states[i].remaining().len()
    }

    /// What call `i` of a run does to the items the run started with, `items`, considered
    /// up to `c` before the call and up to `c2` after it: before the call the items from
    /// `c` on remain, with the run's filter. A given item is a clone of item `c2 - 1`: the
    /// item at `c` without a filter, or one the filter accepted after rejecting each item
    /// from `c` on before it. `None` comes only once every item has been considered: none
    /// was left without a filter, and the filter rejected each of the items from `c` on. No
    /// item is considered twice and none is skipped.
    pub open spec fn spec_step(states: Seq<Self>, results: Seq<Option<T>>, i: int) -> bool {
        let items = states[0].remaining();
        let c = Self::spec_consumed(states, i);
        let c2 = Self::spec_consumed(states, i + 1);
        &&& 0 <= c <= c2 <= items.len()
        &&& states[i].remaining() == items.skip(c)
        &&& states[i].spec_filter() == states[0].spec_filter()
        &&& results[i] matches Some(x) ==> {
            &&& c < c2
            &&& cloned::<T>(items[c2 - 1], x)
            &&& states[0].spec_filter() is None ==> c2 == c + 1
            &&& states[0].spec_filter() matches Some(f) ==> {
                &&& call_ensures(f, (&items[c2 - 1],), true)
                &&& forall|q: int| c <= q < c2 - 1 ==> call_ensures(f, (&#[trigger] items[q],), false)
            }
        }
        &&& results[i] is None ==> {
            &&& c2 == items.len()
            &&& states[0].spec_filter() is None ==> c == items.len()
            &&& states[0].spec_filter() matches Some(f) ==> forall|q: int|
                c <= q < items.len() ==> call_ensures(f, (&#[trigger] items[q],), false)
        }
    }

    proof fn lemma_run_suffix(states: Seq<Self>, results: Seq<Option<T>>, i: int)
        requires
            Self::spec_run(states, results),
            0 <= i < states.len(),
        ensures
            states[i].wf(),
            states[i].spec_filter() == states[0].spec_filter(),
            states[i].remaining().len() <= states[0].remaining().len(),
            states[i].remaining() == states[0].remaining().skip(Self::spec_consumed(states, i)),
        decreases i,
    {
        let items = states[0].remaining();
        if i == 0 {
            assert(items.skip(0) =~= items);
        } else {
            Self::lemma_run_suffix(states, results, i - 1);
            let before = states[i - 1];
            let after = states[i];
            let c = Self::spec_consumed(states, i - 1);
            assert(Self::spec_next(before, after, results[i - 1]));
            match results[i - 1] {
                Some(x) => {
                    let p = choose|p: int|
                        0 <= p < before.remaining().len()
                            && after.remaining() == before.remaining().skip(p + 1)
                            && cloned::<T>(before.remaining()[p], x)
                            && (before.spec_filter() is None ==> p == 0)
                            && (before.spec_filter() matches Some(f) ==> {
                                &&& call_ensures(f, (&before.remaining()[p],), true)
                                &&& forall|q: int| 0 <= q < p ==> call_ensures(f, (&#[trigger] before.remaining()[q],), false)
                            });
                    assert(after.remaining() =~= items.skip(c + p + 1));
                },
                None => {
                    assert(after.remaining() =~= items.skip(items.len() as int));
                },
            }
        }
    }

    proof fn lemma_run_stays_none(states: Seq<Self>, results: Seq<Option<T>>, i: int, j: int)
        requires
            Self::spec_run(states, results),
            0 <= i <= j < results.len(),
            results[i] is None,
        ensures
            results[j] is None,
            states[j + 1].remaining().len() == 0,
        decreases j - i,
    {
        assert(Self::spec_next(states[j], states[j + 1], results[j]));
        if j > i {
            Self::lemma_run_stays_none(states, results, i, j - 1);
        }
    }

    /// Over a run of successive `next` calls, each call does what `spec_step` says: the
    /// items the run started with (the direct items, then the merged ones) are considered
    /// in order, each once, and the given items are clones of those accepted (of all of
    /// them without a filter), in that order. Once a call gives `None`, every later call
    /// gives `None` too.
    pub proof fn law_successive_next(states: Seq<Self>, results: Seq<Option<T>>)
        requires
            Self::spec_run(states, results),
        ensures
            forall|i: int| 0 <= i < results.len() ==> #[trigger] Self::spec_step(states, results, i),
            forall|i: int, j: int|
                0 <= i <= j < results.len() && #[trigger] results[i] is None ==> #[trigger] results[j] is None,
    {
        let items = states[0].remaining();
        assert forall|i: int| 0 <= i < results.len() implies #[trigger] Self::spec_step(states, results, i) by {
            Self::lemma_run_suffix(states, results, i);
            Self::lemma_run_suffix(states, results, i + 1);
            let before = states[i];
            let after = states[i + 1];
            let c = Self::spec_consumed(states, i);
            assert(Self::spec_next(before, after, results[i]));
            match results[i] {
                Some(x) => {
                    let p = choose|p: int|
                        0 <= p < before.remaining().len()
                            && after.remaining() == before.remaining().skip(p + 1)
                            && cloned::<T>(before.remaining()[p], x)
                            && (before.spec_filter() is None ==> p == 0)
                            && (before.spec_filter() matches Some(f) ==> {
                                &&& call_ensures(f, (&before.remaining()[p],), true)
                                &&& forall|q: int| 0 <= q < p ==> call_ensures(f, (&#[trigger] before.remaining()[q],), false)
                            });
                    assert(before.remaining()[p] == items[c + p]);
                    match states[0].spec_filter() {
                        Some(f) => {
                            assert forall|q: int| c <= q < c + p implies call_ensures(f, (&#[trigger] items[q],), false) by {
                                assert(before.remaining()[q - c] == items[q]);
                            }
                        },
                        None => {},
                    }
                },
                None => {
                    match states[0].spec_filter() {
                        Some(f) => {
                            assert forall|q: int| c <= q < items.len() implies call_ensures(f, (&#[trigger] items[q],), false) by {
                                assert(before.remaining()[q - c] == items[q]);
                            }
                        },
                        None => {},
                    }
                },
            }
        }
        assert forall|i: int, j: int|
            0 <= i <= j < results.len() && #[trigger] results[i] is None implies #[trigger] results[j] is None by {
            Self::lemma_run_stays_none(states, results, i, j);
        }
    }

    /// The next item: the first remaining item without a filter; with a filter, the first
    /// remaining item the filter accepts, every item before it having been rejected.
    pub fn next(&mut self) -> (r: Option<T>)
        requires
            old(self).wf(),
        ensures
            Self::spec_next(*old(self), *final(self), r),
    {
        let ghost rem = self.remaining();
        let ghost d0 = self.direct_index as int;
        let ghost m0 = self.merged_index as int;
        let ghost dl = self.direct@.len() as int;
        proof {
            assert(rem.len() == (dl - d0) + (self.merged@.len() - m0));
        }
        let mut di = self.direct_index;
        let mut mi = self.merged_index;
        let mut found: Option<T> = None;
        let ghost mut pos: int = 0;
        match &self.filter {
            Some(f) => {
                while di < self.direct.len()
                    invariant
                        0 <= d0 <= di <= self.direct@.len(),
                        dl == self.direct@.len(),
                        mi == m0,
                        0 <= m0 <= self.merged@.len(),
                        rem == self.direct@.skip(d0) + self.merged@.skip(m0),
                        rem.len() == (dl - d0) + (self.merged@.len() - m0),
                        forall|x: &T| #[trigger] f.requires((x,)),
                        found is None ==> forall|q: int| 0 <= q < di - d0 ==> call_ensures(*f, (&#[trigger] rem[q],), false),
                        found matches Some(x) ==> {
                            &&& 0 <= pos < rem.len()
                            &&& di == d0 + pos + 1
                            &&& call_ensures(*f, (&rem[pos],), true)
                            &&& cloned::<T>(rem[pos], x)
                            &&& forall|q: int| 0 <= q < pos ==> call_ensures(*f, (&#[trigger] rem[q],), false)
                        },
                    ensures
                        found is None ==> di == dl,
                    decreases self.direct@.len() - di,
                {
                    if found.is_some() {
                        break;
                    }
                    let item = &self.direct[di];
                    proof {
                        pos = di - d0;
                        assert(self.direct@.skip(d0)[pos] == self.direct@[di as int]);
                        assert(rem[pos] == self.direct@[di as int]);
                    }
                    di += 1;
                    if f(item) {
                        found = Some(item.clone());
                    }
                }
                if found.is_none() {
                    while mi < self.merged.len()
                        invariant
                            di == dl,
                            dl == self.direct@.len(),
                            0 <= m0 <= mi <= self.merged@.len(),
                            0 <= d0 <= dl,
                            rem == self.direct@.skip(d0) + self.merged@.skip(m0),
                            rem.len() == (dl - d0) + (self.merged@.len() - m0),
                            forall|x: &T| #[trigger] f.requires((x,)),
                            found is None ==> forall|q: int| 0 <= q < (dl - d0) + (mi - m0) ==> call_ensures(*f, (&#[trigger] rem[q],), false),
                            found matches Some(x) ==> {
                                &&& 0 <= pos < rem.len()
                                &&& mi == m0 + (pos - (dl - d0)) + 1
                                &&& pos >= dl - d0
                                &&& call_ensures(*f, (&rem[pos],), true)
                                &&& cloned::<T>(rem[pos], x)
                                &&& forall|q: int| 0 <= q < pos ==> call_ensures(*f, (&#[trigger] rem[q],), false)
                            },
                        ensures
                            found is None ==> mi == self.merged@.len(),
                        decreases self.merged@.len() - mi,
                    {
                        if found.is_some() {
                            break;
                        }
                        let item = &self.merged[mi];
                        proof {
                            pos = (dl - d0) + (mi - m0);
                            assert(self.direct@.skip(d0).len() == dl - d0);
                            assert(rem[pos] == self.merged@.skip(m0)[mi - m0]);
                            assert(rem[pos] == self.merged@[mi as int]);
                        }
                        mi += 1;
                        if f(item) {
                            found = Some(item.clone());
                        }
                    }
                }
            },
            None => {
                if di < self.direct.len() {
                    proof {
                        pos = 0;
                        assert(rem[0] == self.direct@[di as int]);
                    }
                    found = Some(self.direct[di].clone());
                    di += 1;
                } else if mi < self.merged.len() {
                    proof {
                        pos = 0;
                        assert(self.direct@.skip(d0) =~= Seq::<T>::empty());
                        assert(rem =~= self.merged@.skip(m0));
                        assert(rem[0] == self.merged@[mi as int]);
                    }
                    found = Some(self.merged[mi].clone());
                    mi += 1;
                }
            },
        }
        self.direct_index = di;
        self.merged_index = mi;
        proof {
            if found is Some {
                if pos < dl - d0 {
                    lemma_skip_concat(self.direct@.skip(d0), self.merged@.skip(m0), pos + 1);
                    assert(self.direct@.skip(d0).skip(pos + 1) =~= self.direct@.skip(di as int));
                    if self.filter is None {
                        assert(mi == m0);
                    }
                } else {
                    assert(self.direct@.skip(di as int) =~= Seq::<T>::empty());
                    assert(rem.skip(pos + 1) =~= self.merged@.skip(mi as int));
                }
                assert(self.remaining() =~= rem.skip(pos + 1));
            } else {
                assert(self.remaining() =~= Seq::<T>::empty());
            }
        }
        found
    }
}

} // verus!
