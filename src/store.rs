use vstd::prelude::*;
use vstd::string::StringExecFns;
use crate::error::{CoinFetchError, ErrorKind};
use crate::market::{response_of, MarketData, ResponseData};
use crate::text::str_eq;
use crate::worker::{page_outcome, page_outcome_of, ExecutionOutcome};

verus! {

/// The key under which a record with an identifier is stored.
pub open spec fn key_of(r: MarketData) -> Seq<char> {
    r.id->Some_0@
}

/// The table held by a sequence of rows with distinct keys.
pub open spec fn rows_map(rows: Seq<MarketData>) -> Map<Seq<char>, MarketData>
    decreases rows.len(),
{
    if rows.len() == 0 {
        Map::empty()
    } else {
        rows_map(rows.drop_last()).insert(key_of(rows.last()), rows.last())
    }
}

/// Upsert: a record with an identifier replaces whatever was stored under
/// it; one without an identifier cannot be stored and leaves the table as
/// it was.
pub open spec fn upsert_into(m: Map<Seq<char>, MarketData>, r: MarketData) -> Map<
    Seq<char>,
    MarketData,
> {
    if r.id is Some {
        m.insert(key_of(r), r)
    } else {
        m
    }
}

/// One page entry applied to the table: absent entries change nothing.
pub open spec fn store_entry(m: Map<Seq<char>, MarketData>, e: Option<MarketData>) -> Map<
    Seq<char>,
    MarketData,
> {
    match e {
        Some(r) => upsert_into(m, r),
        None => m,
    }
}

/// A whole page applied to the table, entry by entry in page order.
pub open spec fn store_all(m: Map<Seq<char>, MarketData>, page: Seq<Option<MarketData>>) -> Map<
    Seq<char>,
    MarketData,
>
    decreases page.len(),
{
    if page.len() == 0 {
        m
    } else {
        store_entry(store_all(m, page.drop_last()), page.last())
    }
}

pub open spec fn distinct_keys(rows: Seq<MarketData>) -> bool {
    &&& forall|i: int| 0 <= i < rows.len() ==> (#[trigger] rows[i]).id is Some
    &&& forall|i: int, j: int|
        0 <= i < rows.len() && 0 <= j < rows.len() && i != j ==> key_of(#[trigger] rows[i])
            != key_of(#[trigger] rows[j])
}

proof fn lemma_distinct_remove(rows: Seq<MarketData>, i: int)
    requires
        distinct_keys(rows),
        0 <= i < rows.len(),
    ensures
        distinct_keys(rows.remove(i)),
        forall|j: int|
            0 <= j < rows.remove(i).len() ==> key_of(#[trigger] rows.remove(i)[j]) != key_of(rows[i]),
{
    let rest = rows.remove(i);
    assert forall|j: int| 0 <= j < rest.len() implies (#[trigger] rest[j]).id is Some && key_of(
        rest[j],
    ) != key_of(rows[i]) by {
        if j < i {
            assert(rest[j] == rows[j]);
        } else {
            assert(rest[j] == rows[j + 1]);
        }
    }
    assert forall|a: int, b: int|
        0 <= a < rest.len() && 0 <= b < rest.len() && a != b implies key_of(#[trigger] rest[a])
        != key_of(#[trigger] rest[b]) by {
        let ia = if a < i { a } else { a + 1 };
        let ib = if b < i { b } else { b + 1 };
        assert(rest[a] == rows[ia] && rest[b] == rows[ib]);
    }
}

proof fn lemma_rows_map_lookup(rows: Seq<MarketData>)
    requires
        distinct_keys(rows),
    ensures
        forall|i: int|
            0 <= i < rows.len() ==> rows_map(rows).contains_key(key_of(#[trigger] rows[i]))
                && rows_map(rows)[key_of(rows[i])] == rows[i],
        forall|k: Seq<char>|
            #[trigger] rows_map(rows).contains_key(k) ==> exists|i: int|
                0 <= i < rows.len() && key_of(#[trigger] rows[i]) == k,
    decreases rows.len(),
{
    if rows.len() > 0 {
        let init = rows.drop_last();
        let n = rows.len() - 1;
        lemma_distinct_remove(rows, n);
        assert(rows.remove(n) == init);
        lemma_rows_map_lookup(init);
        assert forall|i: int| 0 <= i < rows.len() implies rows_map(rows).contains_key(
            key_of(#[trigger] rows[i]),
        ) && rows_map(rows)[key_of(rows[i])] == rows[i] by {
            if i < n {
                assert(init[i] == rows[i]);
            }
        }
        assert forall|k: Seq<char>| #[trigger] rows_map(rows).contains_key(k) implies exists|
            i: int,
        | 0 <= i < rows.len() && key_of(#[trigger] rows[i]) == k by {
            if k == key_of(rows.last()) {
                assert(key_of(rows[n]) == k);
            } else {
                assert(rows_map(init).contains_key(k));
                let i = choose|i: int| 0 <= i < init.len() && key_of(#[trigger] init[i]) == k;
                assert(rows[i] == init[i]);
            }
        }
    }
}

proof fn lemma_rows_map_len(rows: Seq<MarketData>)
    requires
        distinct_keys(rows),
    ensures
        rows_map(rows).dom().finite(),
        rows_map(rows).len() == rows.len(),
    decreases rows.len(),
{
    if rows.len() > 0 {
        let init = rows.drop_last();
        let n = rows.len() - 1;
        lemma_distinct_remove(rows, n);
        assert(rows.remove(n) == init);
        lemma_rows_map_len(init);
        lemma_rows_map_lookup(init);
        let k = key_of(rows.last());
        if rows_map(init).contains_key(k) {
            let i = choose|i: int| 0 <= i < init.len() && key_of(#[trigger] init[i]) == k;
        }
    }
}

proof fn lemma_rows_map_remove(rows: Seq<MarketData>, i: int)
    requires
        distinct_keys(rows),
        0 <= i < rows.len(),
    ensures
        rows_map(rows.remove(i)) == rows_map(rows).remove(key_of(rows[i])),
    decreases rows.len(),
{
    let init = rows.drop_last();
    let n = rows.len() - 1;
    let k = key_of(rows[i]);
    lemma_distinct_remove(rows, n);
    assert(rows.remove(n) == init);
    if i == n {
        lemma_rows_map_lookup(init);
        if rows_map(init).contains_key(k) {
            let j = choose|j: int| 0 <= j < init.len() && key_of(#[trigger] init[j]) == k;
        }
        assert(rows_map(rows.remove(i)) == rows_map(rows).remove(k));
    } else {
        assert(rows.remove(i).drop_last() == init.remove(i));
        assert(rows.remove(i).last() == rows.last());
        assert(init[i] == rows[i]);
        lemma_rows_map_remove(init, i);
        assert(key_of(rows[n]) != k);
        assert(rows_map(rows.remove(i)) == rows_map(rows).remove(k));
    }
}

/// Storing a record twice leaves the table as storing it once: one row
/// under its identifier, equal to the record.
pub proof fn lemma_upsert_idempotent(m: Map<Seq<char>, MarketData>, r: MarketData)
    requires
        r.id is Some,
    ensures
        upsert_into(upsert_into(m, r), r) == upsert_into(m, r),
        upsert_into(m, r).contains_key(key_of(r)),
        upsert_into(m, r)[key_of(r)] == r,
        upsert_into(m, r).dom() == m.dom().insert(key_of(r)),
{
    assert(upsert_into(upsert_into(m, r), r) == upsert_into(m, r));
}

/// Storing a second record under the same identifier replaces every field
/// of the first: the table holds one row there, equal to the second
/// record, and is as if the first had never been stored.
pub proof fn lemma_upsert_replaces(m: Map<Seq<char>, MarketData>, first: MarketData, second: MarketData)
    requires
        first.id is Some,
        second.id is Some,
        key_of(first) == key_of(second),
    ensures
        upsert_into(upsert_into(m, first), second) == upsert_into(m, second),
        upsert_into(upsert_into(m, first), second)[key_of(first)] == second,
        upsert_into(upsert_into(m, first), second).dom() == upsert_into(m, first).dom(),
{
    assert(upsert_into(upsert_into(m, first), second) == upsert_into(m, second));
    assert(upsert_into(upsert_into(m, first), second).dom() == upsert_into(m, first).dom());
}

/// A record that cannot be stored does not disturb the rest of its page:
/// the page stores exactly what it would store without that record.
pub proof fn lemma_unstorable_record_isolated(
    m: Map<Seq<char>, MarketData>,
    before: Seq<Option<MarketData>>,
    bad: MarketData,
    after: Seq<Option<MarketData>>,
)
    requires
        bad.id is None,
    ensures
        store_all(m, before + seq![Some(bad)] + after) == store_all(m, before + after),
    decreases after.len(),
{
    if after.len() == 0 {
        assert(before + seq![Some(bad)] + after == (before + seq![Some(bad)]));
        assert((before + seq![Some(bad)]).drop_last() == before);
        assert(before + after == before);
    } else {
        let shorter = after.drop_last();
        lemma_unstorable_record_isolated(m, before, bad, shorter);
        assert((before + seq![Some(bad)] + after).drop_last() == before + seq![Some(bad)] + shorter);
        assert((before + after).drop_last() == before + shorter);
    }
}

/// A page of two records with new, distinct identifiers adds exactly
/// those two rows.
pub proof fn lemma_two_new_records(m: Map<Seq<char>, MarketData>, a: MarketData, b: MarketData)
    requires
        m.dom().finite(),
        a.id is Some,
        b.id is Some,
        key_of(a) != key_of(b),
        !m.contains_key(key_of(a)),
        !m.contains_key(key_of(b)),
    ensures
        store_all(m, seq![Some(a), Some(b)]) == m.insert(key_of(a), a).insert(key_of(b), b),
        store_all(m, seq![Some(a), Some(b)]).dom().finite(),
        store_all(m, seq![Some(a), Some(b)]).len() == m.len() + 2,
{
    let page = seq![Some(a), Some(b)];
    assert(page.drop_last() == seq![Some(a)]);
    assert(seq![Some(a)].drop_last() == Seq::<Option<MarketData>>::empty());
    assert(store_all(m, Seq::<Option<MarketData>>::empty()) == m);
    assert(store_all(m, seq![Some(a)]) == m.insert(key_of(a), a));
    assert(page.last() == Some(b));
}

/// An in-memory market table: at most one row per asset identifier, kept
/// in the order in which they were last written.
pub struct MarketTable {
    rows: Vec<MarketData>,
}

/// The error for a read by a symbol that no stored row has.
pub fn not_found_error(symbol: &str) -> (r: CoinFetchError)
    ensures
        r matches CoinFetchError::NotFoundError(m) && m@ == not_found_message(symbol@),
{
    let mut m = String::from_str("Data for ");
    m.append(symbol);
    m.append(" not found !");
    CoinFetchError::NotFoundError(m)
}

/// Whether a page entry is written to the store: a present record with an
/// identifier.
pub open spec fn is_written(e: Option<MarketData>) -> bool {
    e matches Some(m) && m.id is Some
}

/// The positions of a fetched page whose records are written, in page
/// order; absent entries and records without an identifier are left out.
pub fn entries_to_store(page: &Vec<Option<MarketData>>) -> (r: Vec<usize>)
    ensures
        forall|j: int|
            0 <= j < r@.len() ==> (#[trigger] r@[j] as int) < page@.len() && is_written(
                page@[r@[j] as int],
            ),
        forall|j: int, l: int| 0 <= j < l < r@.len() ==> r@[j] < r@[l],
        forall|i: int|
            0 <= i < page@.len() && is_written(#[trigger] page@[i]) ==> r@.contains(i as usize),
{
    let mut r: Vec<usize> = Vec::new();
    let mut i: usize = 0;
    while i < page.len()
        invariant
            i <= page@.len(),
            forall|j: int|
                0 <= j < r@.len() ==> (#[trigger] r@[j] as int) < i && is_written(
                    page@[r@[j] as int],
                ),
            forall|j: int, l: int| 0 <= j < l < r@.len() ==> r@[j] < r@[l],
            forall|a: int| 0 <= a < i && is_written(#[trigger] page@[a]) ==> r@.contains(a as usize),
        decreases page@.len() - i,
    {
        let written = match &page[i] {
            Some(m) => m.is_storable(),
            None => false,
        };
        if written {
            assert(is_written(page@[i as int]));
            let ghost before = r@;
            r.push(i);
            assert(r@[before.len() as int] == i);
            assert forall|j: int|
                0 <= j < r@.len() implies (#[trigger] r@[j] as int) < i + 1 && is_written(
                page@[r@[j] as int],
            ) by {
                if j < before.len() {
                    assert(r@[j] == before[j]);
                }
            }
            assert forall|a: int| 0 <= a < i + 1 && is_written(#[trigger] page@[a]) implies r@.contains(
                a as usize,
            ) by {
                if a < i {
                    let t = choose|t: int| 0 <= t < before.len() && before[t] == a as usize;
                    assert(r@[t] == a as usize);
                }
            }
        }
        i = i + 1;
    }
    r
}

impl MarketTable {
    pub closed spec fn wf(&self) -> bool {
        distinct_keys(self.rows@)
    }

    /// The table as a map from identifier to the stored record.
    pub closed spec fn view(&self) -> Map<Seq<char>, MarketData> {
        rows_map(self.rows@)
    }

    /// The stored identifiers, from the least to the most recently written.
    pub closed spec fn recency(&self) -> Seq<Seq<char>> {
        self.rows@.map_values(|r: MarketData| key_of(r))
    }

    pub fn new() -> (r: MarketTable)
        ensures
            r.wf(),
            r.view() == Map::<Seq<char>, MarketData>::empty(),
            r.view().dom().finite(),
            r.recency() == Seq::<Seq<char>>::empty(),
    {
        let r = MarketTable { rows: Vec::new() };
        assert(r.recency() == Seq::<Seq<char>>::empty());
        r
    }

    /// The table holds finitely many rows.
    pub proof fn lemma_finite(&self)
        requires
            self.wf(),
        ensures
            self.view().dom().finite(),
    {
        lemma_rows_map_len(self.rows@);
    }

    /// Number of stored rows.
    pub fn len(&self) -> (r: usize)
        requires
            self.wf(),
        ensures
            self.view().dom().finite(),
            r == self.view().len(),
            r == self.recency().len(),
    {
        proof {
            lemma_rows_map_len(self.rows@);
        }
        self.rows.len()
    }

    /// The row stored under `id`, if any.
    pub fn get(&self, id: &str) -> (r: Option<&MarketData>)
        requires
            self.wf(),
        ensures
            r is Some <==> self.view().contains_key(id@),
            r matches Some(d) ==> *d == self.view()[id@],
    {
        proof {
            lemma_rows_map_lookup(self.rows@);
        }
        match self.position_of(id) {
            Some(i) => Some(&self.rows[i]),
            None => {
                proof {
                    if self.view().contains_key(id@) {
                        let j = choose|j: int|
                            0 <= j < self.rows@.len() && key_of(#[trigger] self.rows@[j]) == id@;
                    }
                }
                None
            },
        }
    }

    /// Position of the row stored under `id`, if any.
    fn position_of(&self, id: &str) -> (r: Option<usize>)
        requires
            self.wf(),
        ensures
            r matches Some(i) ==> i < self.rows@.len() && key_of(self.rows@[i as int]) == id@,
            r is None ==> forall|i: int|
                0 <= i < self.rows@.len() ==> key_of(#[trigger] self.rows@[i]) != id@,
    {
        let mut i: usize = 0;
        while i < self.rows.len()
            invariant
                self.wf(),
                i <= self.rows@.len(),
                forall|j: int| 0 <= j < i ==> key_of(#[trigger] self.rows@[j]) != id@,
            decreases self.rows@.len() - i,
        {
            let same = match &self.rows[i].id {
                Some(k) => str_eq(k.as_str(), id),
                None => false,
            };
            if same {
                return Some(i);
            }
            i = i + 1;
        }
        None
    }

    /// Stores a record: inserted when its identifier is new, otherwise it
    /// replaces every field of the stored row. Either way it becomes the
    /// most recently written row. A record without an identifier violates
    /// the key constraint and is refused.
    pub fn upsert(&mut self, rec: MarketData) -> (r: Result<(), ErrorKind>)
        requires
            old(self).wf(),
        ensures
            final(self).wf(),
            final(self).view().dom().finite(),
            r is Ok <==> rec.id is Some,
            r matches Err(k) ==> k == ErrorKind::Store,
            final(self).view() == upsert_into(old(self).view(), rec),
            rec.id is None ==> final(self).recency() == old(self).recency(),
            rec.id is Some && old(self).view().contains_key(key_of(rec)) ==> exists|i: int|
                0 <= i < old(self).recency().len() && old(self).recency()[i] == key_of(rec)
                    && final(self).recency() == old(self).recency().remove(i).push(key_of(rec)),
            rec.id is Some && !old(self).view().contains_key(key_of(rec)) ==> final(self).recency()
                == old(self).recency().push(key_of(rec)),
    {
        proof {
            lemma_rows_map_lookup(self.rows@);
        }
        if !rec.is_storable() {
            proof {
                lemma_rows_map_len(self.rows@);
            }
            return Err(ErrorKind::Store);
        }
        let pos = match &rec.id {
            Some(id) => self.position_of(id.as_str()),
            None => None,
        };
        let ghost before = self.rows@;
        let ghost old_recency = self.recency();
        let ghost k = key_of(rec);
        match pos {
            Some(i) => {
                proof {
                    lemma_rows_map_remove(before, i as int);
                    lemma_distinct_remove(before, i as int);
                }
                let _replaced = self.rows.remove(i);
                self.rows.push(rec);
                assert(self.rows@.drop_last() == before.remove(i as int));
                assert(self.view() == rows_map(before).insert(k, rec));
                assert forall|a: int, b: int|
                    0 <= a < self.rows@.len() && 0 <= b < self.rows@.len() && a != b implies key_of(
                    #[trigger] self.rows@[a],
                ) != key_of(#[trigger] self.rows@[b]) by {
                    if a < before.len() - 1 {
                        assert(self.rows@[a] == before.remove(i as int)[a]);
                    }
                    if b < before.len() - 1 {
                        assert(self.rows@[b] == before.remove(i as int)[b]);
                    }
                }
                assert(old_recency[i as int] == k);
                assert(self.recency() == old_recency.remove(i as int).push(k));
            },
            None => {
                self.rows.push(rec);
                assert(self.rows@.drop_last() == before);
                assert(!rows_map(before).contains_key(k));
                assert(self.recency() == old_recency.push(k));
            },
        }
        proof {
            lemma_rows_map_len(self.rows@);
        }
        Ok(())
    }

    /// Stores one page: each present record is upserted in page order;
    /// absent entries are skipped, and a record that cannot be stored is
    /// skipped without stopping the page. The outcome says whether the
    /// page held anything at all.
    pub fn store_page(&mut self, page: &Vec<Option<MarketData>>) -> (r: ExecutionOutcome)
        requires
            old(self).wf(),
        ensures
            final(self).wf(),
            final(self).view().dom().finite(),
            final(self).view() == store_all(old(self).view(), page@),
            r == page_outcome_of(page@.len()),
    {
        let mut i: usize = 0;
        while i < page.len()
            invariant
                self.wf(),
                i <= page@.len(),
                self.view() == store_all(old(self).view(), page@.subrange(0, i as int)),
            decreases page@.len() - i,
        {
            assert(page@.subrange(0, i + 1).drop_last() == page@.subrange(0, i as int));
            match &page[i] {
                Some(rec) => {
                    let _skipped = self.upsert(rec.duplicate());
                },
                None => {},
            }
            i = i + 1;
        }
        assert(page@.subrange(0, page@.len() as int) == page@);
        proof {
            lemma_rows_map_len(self.rows@);
        }
        page_outcome(page.len())
    }

    /// The read API's view of the most recently written row with the given
    /// symbol.
    pub fn find_by_symbol(&self, symbol: &str) -> (r: Result<ResponseData, CoinFetchError>)
        requires
            self.wf(),
        ensures
            r matches Ok(d) ==> exists|j: int|
                0 <= j < self.recency().len() && self.view().contains_key(
                    #[trigger] self.recency()[j],
                ) && has_symbol(self.view()[self.recency()[j]], symbol@) && d == response_of(
                    self.view()[self.recency()[j]],
                ) && forall|l: int|
                    j < l < self.recency().len() ==> !has_symbol(
                        #[trigger] self.view()[self.recency()[l]],
                        symbol@,
                    ),
            r is Err <==> !exists|k: Seq<char>|
                #[trigger] self.view().contains_key(k) && has_symbol(self.view()[k], symbol@),
            r matches Err(e) ==> e matches CoinFetchError::NotFoundError(m)
                && m@ == not_found_message(symbol@),
    {
        proof {
            lemma_rows_map_lookup(self.rows@);
        }
        let ghost rows = self.rows@;
        let mut i: usize = self.rows.len();
        while i > 0
            invariant
                self.wf(),
                rows == self.rows@,
                i <= rows.len(),
                forall|l: int| i <= l < rows.len() ==> !has_symbol(#[trigger] rows[l], symbol@),
                forall|l: int|
                    0 <= l < rows.len() ==> self.view().contains_key(key_of(#[trigger] rows[l]))
                        && self.view()[key_of(rows[l])] == rows[l] && self.recency()[l] == key_of(
                        rows[l],
                    ),
                forall|k: Seq<char>|
                    #[trigger] self.view().contains_key(k) ==> exists|l: int|
                        0 <= l < rows.len() && key_of(#[trigger] rows[l]) == k,
            decreases i,
        {
            let j = i - 1;
            let row = &self.rows[j];
            let same = match &row.symbol {
                Some(s) => str_eq(s.as_str(), symbol),
                None => false,
            };
            if same {
                match row.to_response() {
                    Some(d) => {
                        assert forall|l: int| j < l < self.recency().len() implies !has_symbol(
                            #[trigger] self.view()[self.recency()[l]],
                            symbol@,
                        ) by {
                            assert(self.view()[self.recency()[l]] == rows[l]);
                        }
                        return Ok(d);
                    },
                    None => {},
                }
            }
            i = j;
        }
        assert forall|k: Seq<char>| #[trigger] self.view().contains_key(k) implies !has_symbol(
            self.view()[k],
            symbol@,
        ) by {
            let l = choose|l: int| 0 <= l < rows.len() && key_of(#[trigger] rows[l]) == k;
            assert(self.view()[key_of(rows[l])] == rows[l]);
        }
        Err(not_found_error(symbol))
    }
}

pub open spec fn has_symbol(r: MarketData, symbol: Seq<char>) -> bool {
    r.symbol is Some && r.symbol->Some_0@ == symbol
}

pub open spec fn not_found_message(symbol: Seq<char>) -> Seq<char> {
    "Data for "@ + symbol + " not found !"@
}

} // verus!
