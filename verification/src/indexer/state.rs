//! The registry: one entry for each factory denom, listed in the order of
//! the denoms.

use crate::cw20_indexer::error::{ContractResult, Cw20IndexerError, Cw20IndexerErrorView};
use crate::cw20_indexer::msgs::StorageOrder;
use crate::text::{
    chars_of, lemma_text_order_total, lemma_text_order_transitive, position, text_lt, Position,
};
use vstd::prelude::*;

verus! {

/// The entries of a page where the query names no limit.
pub const DEFAULT_LIMIT: u32 = 10;

/// The entries of a page at most, whatever the query asks for.
pub const MAX_LIMIT: u32 = 30;

/// A factory denom and the token contract that owns it.
#[derive(Debug, Clone, PartialEq, Eq)]
pub struct RegistryEntry {
    pub denom: String,
    pub cw20_addr: String,
}

pub struct RegistryEntryView {
    pub denom: Seq<char>,
    pub cw20_addr: Seq<char>,
}

impl View for RegistryEntry {
    type V = RegistryEntryView;

    open spec fn view(&self) -> RegistryEntryView {
        RegistryEntryView { denom: self.denom@, cw20_addr: self.cw20_addr@ }
    }
}

/// The views of a sequence of entries, in order.
pub open spec fn entries_view(entries: Seq<RegistryEntry>) -> Seq<RegistryEntryView> {
    entries.map_values(|e: RegistryEntry| e@)
}

/// The entries stand in the strict order of their denoms, so that no denom
/// has two of them.
pub open spec fn sorted(entries: Seq<RegistryEntryView>) -> bool {
    forall|i: int, j: int|
        0 <= i < j < entries.len() ==> text_lt(
            (#[trigger] entries[i]).denom,
            (#[trigger] entries[j]).denom,
        )
}

/// `denom` has an entry.
pub open spec fn has_entry(entries: Seq<RegistryEntryView>, denom: Seq<char>) -> bool {
    exists|i: int| 0 <= i < entries.len() && (#[trigger] entries[i]).denom == denom
}

/// The contract that owns `denom` according to `entries`.
pub open spec fn owner_of(entries: Seq<RegistryEntryView>, denom: Seq<char>) -> Option<Seq<char>>
    decreases entries.len(),
{
    if entries.len() == 0 {
        None
    } else if entries.last().denom == denom {
        Some(entries.last().cw20_addr)
    } else {
        owner_of(entries.drop_last(), denom)
    }
}

/// The number of entries whose denom comes before `denom`.
pub open spec fn rank(entries: Seq<RegistryEntryView>, denom: Seq<char>) -> int
    decreases entries.len(),
{
    if entries.len() == 0 {
        0
    } else {
        rank(entries.drop_last(), denom) + if text_lt(entries.last().denom, denom) {
            1int
        } else {
            0int
        }
    }
}

/// `entries` with `entry` put at the place that the order gives it.
pub open spec fn inserted(entries: Seq<RegistryEntryView>, entry: RegistryEntryView) -> Seq<
    RegistryEntryView,
> {
    entries.insert(rank(entries, entry.denom), entry)
}

/// The test that an entry comes after the cursor, if there is one.
pub open spec fn is_after(cursor: Option<Seq<char>>) -> spec_fn(RegistryEntryView) -> bool {
    |e: RegistryEntryView| cursor matches Some(k) ==> text_lt(k, e.denom)
}

/// The test that an entry comes before the cursor, if there is one.
pub open spec fn is_before(cursor: Option<Seq<char>>) -> spec_fn(RegistryEntryView) -> bool {
    |e: RegistryEntryView| cursor matches Some(k) ==> text_lt(e.denom, k)
}

/// The view of a cursor that may be missing.
pub open spec fn cursor_view(start_after: Option<String>) -> Option<Seq<char>> {
    match start_after {
        Some(k) => Some(k@),
        None => None,
    }
}

/// The number of entries on a page for this limit.
pub open spec fn page_len(limit: Option<u32>) -> nat {
    let asked = match limit {
        Some(n) => n,
        None => DEFAULT_LIMIT,
    };
    if asked < MAX_LIMIT {
        asked as nat
    } else {
        MAX_LIMIT as nat
    }
}

/// The first `n` of `s`, or all of it where it has fewer.
pub open spec fn first_n<A>(s: Seq<A>, n: nat) -> Seq<A> {
    if n < s.len() {
        s.take(n as int)
    } else {
        s
    }
}

/// The listing in one direction: the entries beyond the cursor, nearest
/// first.
pub open spec fn listing(
    entries: Seq<RegistryEntryView>,
    order: StorageOrder,
    start_after: Option<Seq<char>>,
) -> Seq<RegistryEntryView> {
    match order {
        StorageOrder::Ascending => entries.filter(is_after(start_after)),
        StorageOrder::Descending => entries.filter(is_before(start_after)).reverse(),
    }
}

/// One page of the listing: its first entries, as many as the limit allows.
pub open spec fn page(
    entries: Seq<RegistryEntryView>,
    order: StorageOrder,
    limit: Option<u32>,
    start_after: Option<Seq<char>>,
) -> Seq<RegistryEntryView> {
    first_n(listing(entries, order, start_after), page_len(limit))
}

proof fn lemma_filter_all<A>(s: Seq<A>, pred: spec_fn(A) -> bool)
    requires
        forall|i: int| 0 <= i < s.len() ==> pred(#[trigger] s[i]),
    ensures
        s.filter(pred) == s,
    decreases s.len(),
{
    reveal(Seq::filter);
    if s.len() > 0 {
        lemma_filter_all(s.drop_last(), pred);
        assert(s.drop_last().push(s.last()) =~= s);
    }
}

proof fn lemma_filter_none<A>(s: Seq<A>, pred: spec_fn(A) -> bool)
    requires
        forall|i: int| 0 <= i < s.len() ==> !pred(#[trigger] s[i]),
    ensures
        s.filter(pred) == Seq::<A>::empty(),
    decreases s.len(),
{
    reveal(Seq::filter);
    if s.len() > 0 {
        lemma_filter_none(s.drop_last(), pred);
    }
}

/// Where the entries that meet a test are exactly those from `p` on, they
/// are what the filter keeps.
proof fn lemma_filter_suffix<A>(s: Seq<A>, pred: spec_fn(A) -> bool, p: int)
    requires
        0 <= p <= s.len(),
        forall|i: int| 0 <= i < p ==> !pred(#[trigger] s[i]),
        forall|i: int| p <= i < s.len() ==> pred(#[trigger] s[i]),
    ensures
        s.filter(pred) == s.skip(p),
{
    lemma_filter_none(s.take(p), pred);
    lemma_filter_all(s.skip(p), pred);
    Seq::filter_distributes_over_add(s.take(p), s.skip(p), pred);
    assert(s.take(p) + s.skip(p) =~= s);
    assert(Seq::<A>::empty() + s.skip(p) =~= s.skip(p));
}

/// Where the entries that meet a test are exactly those before `p`, they
/// are what the filter keeps.
proof fn lemma_filter_prefix<A>(s: Seq<A>, pred: spec_fn(A) -> bool, p: int)
    requires
        0 <= p <= s.len(),
        forall|i: int| 0 <= i < p ==> pred(#[trigger] s[i]),
        forall|i: int| p <= i < s.len() ==> !pred(#[trigger] s[i]),
    ensures
        s.filter(pred) == s.take(p),
{
    lemma_filter_all(s.take(p), pred);
    lemma_filter_none(s.skip(p), pred);
    Seq::filter_distributes_over_add(s.take(p), s.skip(p), pred);
    assert(s.take(p) + s.skip(p) =~= s);
    assert(s.take(p) + Seq::<A>::empty() =~= s.take(p));
}

proof fn lemma_rank_at(entries: Seq<RegistryEntryView>, denom: Seq<char>, p: int)
    requires
        0 <= p <= entries.len(),
        forall|i: int| 0 <= i < p ==> text_lt((#[trigger] entries[i]).denom, denom),
        forall|i: int| p <= i < entries.len() ==> !text_lt((#[trigger] entries[i]).denom, denom),
    ensures
        rank(entries, denom) == p,
    decreases entries.len(),
{
    if entries.len() > 0 {
        let head = entries.drop_last();
        if p == entries.len() {
            assert(text_lt(entries[p - 1].denom, denom));
            lemma_rank_at(head, denom, p - 1);
        } else {
            assert(!text_lt(entries[entries.len() - 1].denom, denom));
            lemma_rank_at(head, denom, p);
        }
    }
}

/// In entries that stand in order, those that come before `denom` are
/// exactly the first `rank` of them.
pub proof fn lemma_rank_splits(entries: Seq<RegistryEntryView>, denom: Seq<char>)
    requires
        sorted(entries),
    ensures
        0 <= rank(entries, denom) <= entries.len(),
        forall|i: int|
            0 <= i < rank(entries, denom) ==> text_lt((#[trigger] entries[i]).denom, denom),
        forall|i: int|
            rank(entries, denom) <= i < entries.len() ==> !text_lt(
                (#[trigger] entries[i]).denom,
                denom,
            ),
    decreases entries.len(),
{
    if entries.len() > 0 {
        let head = entries.drop_last();
        let last = entries[entries.len() - 1];
        assert forall|i: int, j: int| 0 <= i < j < head.len() implies text_lt(
            (#[trigger] head[i]).denom,
            (#[trigger] head[j]).denom,
        ) by {
            assert(text_lt(entries[i].denom, entries[j].denom));
        }
        lemma_rank_splits(head, denom);
        if text_lt(last.denom, denom) {
            assert forall|i: int| 0 <= i < head.len() implies text_lt(
                (#[trigger] head[i]).denom,
                denom,
            ) by {
                assert(text_lt(entries[i].denom, last.denom));
                lemma_text_order_transitive(entries[i].denom, last.denom, denom);
            }
            if rank(head, denom) < head.len() {
                assert(!text_lt(head[rank(head, denom)].denom, denom));
            }
        }
        assert forall|i: int| 0 <= i < rank(entries, denom) implies text_lt(
            (#[trigger] entries[i]).denom,
            denom,
        ) by {
            if i < head.len() {
                assert(entries[i] == head[i]);
            }
        }
        assert forall|i: int| rank(entries, denom) <= i < entries.len() implies !text_lt(
            (#[trigger] entries[i]).denom,
            denom,
        ) by {
            if i < head.len() {
                assert(entries[i] == head[i]);
            }
        }
    }
}

/// Entering a denom that has no entry keeps the order, gives the denom its
/// owner and leaves every other denom with the owner it had.
pub proof fn lemma_inserted(entries: Seq<RegistryEntryView>, entry: RegistryEntryView)
    requires
        sorted(entries),
        !has_entry(entries, entry.denom),
    ensures
        sorted(inserted(entries, entry)),
        has_entry(inserted(entries, entry), entry.denom),
        owner_of(inserted(entries, entry), entry.denom) == Some(entry.cw20_addr),
        inserted(entries, entry).len() == entries.len() + 1,
        forall|denom: Seq<char>|
            denom != entry.denom ==> has_entry(inserted(entries, entry), denom) == has_entry(
                entries,
                denom,
            ),
        forall|denom: Seq<char>|
            denom != entry.denom ==> owner_of(inserted(entries, entry), denom) == owner_of(
                entries,
                denom,
            ),
{
    let p = rank(entries, entry.denom);
    let after = inserted(entries, entry);
    lemma_rank_splits(entries, entry.denom);
    assert forall|i: int| p <= i < entries.len() implies text_lt(
        entry.denom,
        (#[trigger] entries[i]).denom,
    ) by {
        lemma_text_order_total(entries[i].denom, entry.denom);
    }
    assert forall|i: int, j: int| 0 <= i < j < after.len() implies text_lt(
        (#[trigger] after[i]).denom,
        (#[trigger] after[j]).denom,
    ) by {
        if i < p && j > p {
            assert(after[i] == entries[i] && after[j] == entries[j - 1]);
            assert(text_lt(entries[i].denom, entries[j - 1].denom));
        } else if i < p && j < p {
            assert(after[i] == entries[i] && after[j] == entries[j]);
            assert(text_lt(entries[i].denom, entries[j].denom));
        } else if i < p {
            assert(after[i] == entries[i]);
        } else if i == p {
            assert(after[j] == entries[j - 1]);
        } else {
            assert(after[i] == entries[i - 1] && after[j] == entries[j - 1]);
            assert(text_lt(entries[i - 1].denom, entries[j - 1].denom));
        }
    }
    assert(after[p] == entry);
    lemma_owner_at(after, p);
    assert forall|denom: Seq<char>| denom != entry.denom implies has_entry(after, denom)
        == has_entry(entries, denom) by {
        if has_entry(entries, denom) {
            let i = choose|i: int| 0 <= i < entries.len() && (#[trigger] entries[i]).denom == denom;
            if i < p {
                assert(after[i] == entries[i]);
            } else {
                assert(after[i + 1] == entries[i]);
            }
        }
        if has_entry(after, denom) {
            let i = choose|i: int| 0 <= i < after.len() && (#[trigger] after[i]).denom == denom;
            if i < p {
                assert(after[i] == entries[i]);
            } else {
                assert(after[i] == entries[i - 1]);
            }
        }
    }
    assert forall|denom: Seq<char>| denom != entry.denom implies owner_of(after, denom)
        == owner_of(entries, denom) by {
        if has_entry(entries, denom) {
            let i = choose|i: int| 0 <= i < entries.len() && (#[trigger] entries[i]).denom == denom;
            let j = if i < p {
                i
            } else {
                i + 1
            };
            assert(after[j] == entries[i]);
            lemma_owner_at(entries, i);
            lemma_owner_at(after, j);
        } else {
            lemma_owner_absent(entries, denom);
            lemma_owner_absent(after, denom);
        }
    }
}

/// In entries that stand in order, those beyond a cursor are the last ones
/// going up and the first ones going down.
proof fn lemma_listing_is_a_slice(entries: Seq<RegistryEntryView>, cursor: Option<Seq<char>>)
    requires
        sorted(entries),
    ensures
        exists|p: int|
            0 <= p <= entries.len() && #[trigger] entries.skip(p) == entries.filter(
                is_after(cursor),
            ),
        exists|q: int|
            0 <= q <= entries.len() && #[trigger] entries.take(q) == entries.filter(
                is_before(cursor),
            ),
{
    match cursor {
        None => {
            lemma_filter_suffix(entries, is_after(cursor), 0);
            lemma_filter_prefix(entries, is_before(cursor), entries.len() as int);
            assert(entries.skip(0) == entries.filter(is_after(cursor)));
            assert(entries.take(entries.len() as int) == entries.filter(is_before(cursor)));
        },
        Some(k) => {
            let q = rank(entries, k);
            lemma_rank_splits(entries, k);
            lemma_filter_prefix(entries, is_before(cursor), q);
            assert(entries.take(q) == entries.filter(is_before(cursor)));
            let p = if q < entries.len() && entries[q].denom == k {
                q + 1
            } else {
                q
            };
            assert forall|i: int| 0 <= i < p implies !is_after(cursor)(#[trigger] entries[i]) by {
                lemma_text_order_total(k, entries[i].denom);
            }
            assert forall|i: int| p <= i < entries.len() implies is_after(cursor)(
                #[trigger] entries[i],
            ) by {
                lemma_text_order_total(k, entries[i].denom);
                if i > q {
                    assert(text_lt(entries[q].denom, entries[i].denom));
                    if !text_lt(k, entries[q].denom) {
                        lemma_text_order_total(k, entries[q].denom);
                    } else {
                        lemma_text_order_transitive(k, entries[q].denom, entries[i].denom);
                    }
                }
            }
            lemma_filter_suffix(entries, is_after(cursor), p);
            assert(entries.skip(p) == entries.filter(is_after(cursor)));
        },
    }
}

/// A listing can be resumed: the listing beyond the last entry of a page is
/// what follows that page in the listing it was taken from.
pub proof fn lemma_listing_resumes(
    entries: Seq<RegistryEntryView>,
    order: StorageOrder,
    limit: Option<u32>,
    start_after: Option<Seq<char>>,
)
    requires
        sorted(entries),
        page(entries, order, limit, start_after).len() > 0,
    ensures
        listing(entries, order, Some(page(entries, order, limit, start_after).last().denom))
            == listing(entries, order, start_after).skip(
            page(entries, order, limit, start_after).len() as int,
        ),
{
    let first = page(entries, order, limit, start_after);
    let n = first.len() as int;
    let last = first[n - 1];
    let next = Some(last.denom);
    lemma_listing_is_a_slice(entries, start_after);
    match order {
        StorageOrder::Ascending => {
            let p = choose|p: int|
                0 <= p <= entries.len() && #[trigger] entries.skip(p) == entries.filter(
                    is_after(start_after),
                );
            assert(last == entries[p + n - 1]);
            assert forall|i: int| 0 <= i < p + n implies !is_after(next)(#[trigger] entries[i]) by {
                if i < p + n - 1 {
                    assert(text_lt(entries[i].denom, entries[p + n - 1].denom));
                }
                lemma_text_order_total(last.denom, entries[i].denom);
            }
            assert forall|i: int| p + n <= i < entries.len() implies is_after(next)(
                #[trigger] entries[i],
            ) by {
                assert(text_lt(entries[p + n - 1].denom, entries[i].denom));
            }
            lemma_filter_suffix(entries, is_after(next), p + n);
            assert(entries.skip(p + n) =~= entries.skip(p).skip(n));
        },
        StorageOrder::Descending => {
            let q = choose|q: int|
                0 <= q <= entries.len() && #[trigger] entries.take(q) == entries.filter(
                    is_before(start_after),
                );
            assert(last == entries[q - n]);
            assert forall|i: int| 0 <= i < q - n implies is_before(next)(#[trigger] entries[i]) by {
                assert(text_lt(entries[i].denom, entries[q - n].denom));
            }
            assert forall|i: int| q - n <= i < entries.len() implies !is_before(next)(
                #[trigger] entries[i],
            ) by {
                if i > q - n {
                    assert(text_lt(entries[q - n].denom, entries[i].denom));
                }
                lemma_text_order_total(last.denom, entries[i].denom);
            }
            lemma_filter_prefix(entries, is_before(next), q - n);
            assert(entries.take(q - n).reverse() =~= entries.take(q).reverse().skip(n));
        },
    }
}

/// The owner of a denom is the contract of its one entry.
pub proof fn lemma_owner_at(entries: Seq<RegistryEntryView>, p: int)
    requires
        sorted(entries),
        0 <= p < entries.len(),
    ensures
        owner_of(entries, entries[p].denom) == Some(entries[p].cw20_addr),
    decreases entries.len(),
{
    if p < entries.len() - 1 {
        let last = entries[entries.len() - 1];
        assert(text_lt(entries[p].denom, last.denom));
        lemma_text_order_total(entries[p].denom, last.denom);
        lemma_owner_at(entries.drop_last(), p);
    }
}

/// A denom without an entry has no owner.
pub proof fn lemma_owner_absent(entries: Seq<RegistryEntryView>, denom: Seq<char>)
    requires
        !has_entry(entries, denom),
    ensures
        owner_of(entries, denom) is None,
    decreases entries.len(),
{
    if entries.len() > 0 {
        let head = entries.drop_last();
        assert(entries[entries.len() - 1].denom != denom);
        assert forall|i: int| 0 <= i < head.len() implies (#[trigger] head[i]).denom != denom by {
            assert(entries[i].denom != denom);
        }
        lemma_owner_absent(head, denom);
    }
}

/// The entries of an indexer.
#[derive(Debug, Clone, PartialEq, Eq)]
pub struct Registry {
    entries: Vec<RegistryEntry>,
}

impl View for Registry {
    type V = Seq<RegistryEntryView>;

    closed spec fn view(&self) -> Seq<RegistryEntryView> {
        entries_view(self.entries@)
    }
}

impl Registry {
    /// The entries stand in the order of their denoms.
    pub open spec fn wf(&self) -> bool {
        sorted(self@)
    }

    /// A registry without entries.
    pub fn new() -> (registry: Registry)
        ensures
            registry.wf(),
            registry@ == Seq::<RegistryEntryView>::empty(),
    {
        let registry = Registry { entries: Vec::new() };
        assert(registry@ =~= Seq::<RegistryEntryView>::empty());
        registry
    }

    /// The number of entries.
    pub fn len(&self) -> (n: usize)
        ensures
            n == self@.len(),
    {
        self.entries.len()
    }

    /// The first place whose denom does not come before `denom`, and
    /// whether `denom` stands there.
    fn locate(&self, denom: &Vec<char>) -> (place: (usize, bool))
        requires
            self.wf(),
        ensures
            place.0 <= self@.len(),
            forall|i: int| 0 <= i < place.0 ==> text_lt((#[trigger] self@[i]).denom, denom@),
            place.1 ==> place.0 < self@.len() && self@[place.0 as int].denom == denom@,
            !place.1 ==> forall|i: int|
                place.0 <= i < self@.len() ==> text_lt(denom@, (#[trigger] self@[i]).denom),
            place.1 == has_entry(self@, denom@),
    {
        let mut i: usize = 0;
        while i < self.entries.len()
            invariant
                self.wf(),
                i <= self@.len(),
                self@.len() == self.entries@.len(),
                forall|k: int| 0 <= k < i ==> text_lt((#[trigger] self@[k]).denom, denom@),
            decreases self@.len() - i,
        {
            let key = chars_of(self.entries[i].denom.as_str());
            assert(key@ == self@[i as int].denom);
            match position(&key, denom) {
                Position::Before => {},
                Position::Same => {
                    assert(has_entry(self@, denom@));
                    return (i, true);
                },
                Position::After => {
                    proof {
                        assert forall|k: int| i <= k < self@.len() implies text_lt(
                            denom@,
                            (#[trigger] self@[k]).denom,
                        ) by {
                            if k > i {
                                assert(text_lt(self@[i as int].denom, self@[k].denom));
                                lemma_text_order_transitive(
                                    denom@,
                                    self@[i as int].denom,
                                    self@[k].denom,
                                );
                            }
                        }
                        self.lemma_absent(denom@, i as int);
                    }
                    return (i, false);
                },
            }
            i = i + 1;
        }
        proof {
            self.lemma_absent(denom@, i as int);
        }
        (i, false)
    }

    proof fn lemma_absent(&self, denom: Seq<char>, p: int)
        requires
            0 <= p <= self@.len(),
            forall|i: int| 0 <= i < p ==> text_lt((#[trigger] self@[i]).denom, denom),
            forall|i: int| p <= i < self@.len() ==> text_lt(denom, (#[trigger] self@[i]).denom),
        ensures
            !has_entry(self@, denom),
    {
        assert forall|i: int| 0 <= i < self@.len() implies (#[trigger] self@[i]).denom != denom by {
            lemma_text_order_total(self@[i].denom, denom);
        }
    }

    /// Whether `denom` has an entry.
    pub fn has(&self, denom: &str) -> (found: bool)
        requires
            self.wf(),
        ensures
            found == has_entry(self@, denom@),
    {
        let key = chars_of(denom);
        self.locate(&key).1
    }

    /// The contract that owns `denom`.
    pub fn load(&self, denom: &str) -> (result: ContractResult<String>)
        requires
            self.wf(),
        ensures
            match owner_of(self@, denom@) {
                Some(owner) => result is Ok && result->Ok_0@ == owner,
                None => result is Err && result->Err_0@ == (Cw20IndexerErrorView::NotFound {
                    denom: denom@,
                }),
            },
            has_entry(self@, denom@) <==> owner_of(self@, denom@) is Some,
    {
        let key = chars_of(denom);
        let (place, found) = self.locate(&key);
        if found {
            proof {
                lemma_owner_at(self@, place as int);
            }
            Ok(self.entries[place].cw20_addr.clone())
        } else {
            proof {
                lemma_owner_absent(self@, denom@);
            }
            Err(Cw20IndexerError::NotFound { denom: denom.to_owned() })
        }
    }

    /// Enters `denom` as owned by `cw20_addr`. A denom is entered once: its
    /// entry is never replaced.
    pub fn save(&mut self, denom: String, cw20_addr: String) -> (result: ContractResult<()>)
        requires
            old(self).wf(),
        ensures
            final(self).wf(),
            has_entry(old(self)@, denom@) ==> *final(self) == *old(self) && result is Err
                && result->Err_0@ == (Cw20IndexerErrorView::AlreadyRegistered { denom: denom@ }),
            !has_entry(old(self)@, denom@) ==> result is Ok && final(self)@ == inserted(
                old(self)@,
                RegistryEntryView { denom: denom@, cw20_addr: cw20_addr@ },
            ),
    {
        let key = chars_of(denom.as_str());
        let (place, found) = self.locate(&key);
        if found {
            return Err(Cw20IndexerError::AlreadyRegistered { denom });
        }
        let entry = RegistryEntry { denom, cw20_addr };
        proof {
            assert forall|i: int| place <= i < self@.len() implies !text_lt(
                (#[trigger] self@[i]).denom,
                entry@.denom,
            ) by {
                lemma_text_order_total(self@[i].denom, entry@.denom);
            }
            lemma_rank_at(self@, entry@.denom, place as int);
        }
        self.entries.insert(place, entry);
        assert(final(self)@ =~= old(self)@.insert(place as int, entry@));
        Ok(())
    }

    /// One page of the listing.
    pub fn range(
        &self,
        order: StorageOrder,
        limit: Option<u32>,
        start_after: Option<String>,
    ) -> (listed: Vec<RegistryEntry>)
        requires
            self.wf(),
        ensures
            entries_view(listed@) == page(self@, order, limit, cursor_view(start_after)),
    {
        let ghost cursor: Option<Seq<char>> = cursor_view(start_after);
        let asked: u32 = match limit {
            Some(n) => n,
            None => DEFAULT_LIMIT,
        };
        let count: usize = if asked < MAX_LIMIT {
            asked as usize
        } else {
            MAX_LIMIT as usize
        };
        let len: usize = self.entries.len();
        let mut listed: Vec<RegistryEntry> = Vec::new();
        match order {
            StorageOrder::Ascending => {
                let start: usize = match &start_after {
                    Some(k) => {
                        let key = chars_of(k.as_str());
                        let (place, found) = self.locate(&key);
                        proof {
                            if found && place + 1 < len {
                                assert forall|i: int| place < i < self@.len() implies text_lt(
                                    key@,
                                    (#[trigger] self@[i]).denom,
                                ) by {
                                    assert(text_lt(self@[place as int].denom, self@[i].denom));
                                }
                            }
                            assert forall|i: int| 0 <= i < self@.len() && (i < place || (found
                                && i == place)) implies !text_lt(key@, (#[trigger] self@[i]).denom) by {
                                lemma_text_order_total(key@, self@[i].denom);
                            }
                        }
                        if found {
                            place + 1
                        } else {
                            place
                        }
                    },
                    None => 0,
                };
                proof {
                    lemma_filter_suffix(self@, is_after(cursor), start as int);
                }
                let ghost kept = self@.skip(start as int);
                let mut i: usize = 0;
                while i < count && i < len - start
                    invariant
                        start <= len,
                        len == self.entries@.len(),
                        len == self@.len(),
                        i <= count,
                        i <= len - start,
                        kept == self@.skip(start as int),
                        entries_view(listed@) == kept.take(i as int),
                    decreases count - i,
                {
                    let entry = &self.entries[start + i];
                    let copy = RegistryEntry {
                        denom: entry.denom.clone(),
                        cw20_addr: entry.cw20_addr.clone(),
                    };
                    assert(copy@ == kept[i as int]);
                    let ghost before = entries_view(listed@);
                    listed.push(copy);
                    assert(entries_view(listed@) =~= before.push(copy@));
                    assert(kept.take(i + 1) =~= kept.take(i as int).push(kept[i as int]));
                    i = i + 1;
                }
                assert(kept.take(kept.len() as int) =~= kept);
                listed
            },
            StorageOrder::Descending => {
                let end: usize = match &start_after {
                    Some(k) => {
                        let key = chars_of(k.as_str());
                        let (place, found) = self.locate(&key);
                        proof {
                            assert forall|i: int| place <= i < self@.len() implies !text_lt(
                                (#[trigger] self@[i]).denom,
                                key@,
                            ) by {
                                lemma_text_order_total(key@, self@[i].denom);
                            }
                        }
                        place
                    },
                    None => len,
                };
                proof {
                    lemma_filter_prefix(self@, is_before(cursor), end as int);
                }
                let ghost kept = self@.take(end as int).reverse();
                let mut i: usize = 0;
                while i < count && i < end
                    invariant
                        end <= len,
                        len == self.entries@.len(),
                        len == self@.len(),
                        i <= count,
                        i <= end,
                        kept == self@.take(end as int).reverse(),
                        entries_view(listed@) == kept.take(i as int),
                    decreases count - i,
                {
                    let entry = &self.entries[end - 1 - i];
                    let copy = RegistryEntry {
                        denom: entry.denom.clone(),
                        cw20_addr: entry.cw20_addr.clone(),
                    };
                    assert(copy@ == kept[i as int]);
                    let ghost before = entries_view(listed@);
                    listed.push(copy);
                    assert(entries_view(listed@) =~= before.push(copy@));
                    assert(kept.take(i + 1) =~= kept.take(i as int).push(kept[i as int]));
                    i = i + 1;
                }
                assert(kept.take(kept.len() as int) =~= kept);
                listed
            },
        }
    }
}

} // verus!
