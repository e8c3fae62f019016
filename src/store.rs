use vstd::prelude::*;
use vstd::string::*;

use crate::record::{LogRecord, RecordView};

verus! {

/// What claiming an advert's cache entry found.
#[derive(PartialEq, Eq, Structural, Debug, Clone, Copy)]
pub enum CacheResult {
    /// The entry was created by this claim: the advert is seen for the first time.
    Fresh,
    /// The entry existed before: the advert was handled already.
    AlreadyProcessed,
}

/// The result of one claim on a set of claimed identifiers.
pub open spec fn claim_result(claimed: Set<Seq<char>>, id: Seq<char>) -> CacheResult {
    if claimed.contains(id) {
        CacheResult::AlreadyProcessed
    } else {
        CacheResult::Fresh
    }
}

/// The results of claims made one after another, each on what the earlier
/// ones left.
pub open spec fn claim_results(claimed: Set<Seq<char>>, ids: Seq<Seq<char>>) -> Seq<CacheResult>
    decreases ids.len(),
{
    if ids.len() == 0 {
        Seq::empty()
    } else {
        seq![claim_result(claimed, ids[0])] + claim_results(claimed.insert(ids[0]), ids.drop_first())
    }
}

proof fn lemma_claims_on_claimed(claimed: Set<Seq<char>>, ids: Seq<Seq<char>>, id: Seq<char>)
    requires
        claimed.contains(id),
        forall|i: int| 0 <= i < ids.len() ==> ids[i] == id,
    ensures
        claim_results(claimed, ids).len() == ids.len(),
        forall|i: int|
            0 <= i < ids.len() ==> claim_results(claimed, ids)[i]
                == CacheResult::AlreadyProcessed,
    decreases ids.len(),
{
    if ids.len() > 0 {
        assert(claimed.insert(ids[0]) =~= claimed);
        lemma_claims_on_claimed(claimed, ids.drop_first(), id);
    }
}

/// Claims that race on one identifier are taken one at a time by the
/// atomic create: of any number of them, the first finds the entry fresh
/// unless it was claimed before, and every later one finds it processed.
pub proof fn lemma_one_claim_wins(claimed: Set<Seq<char>>, ids: Seq<Seq<char>>, id: Seq<char>)
    requires
        ids.len() > 0,
        forall|i: int| 0 <= i < ids.len() ==> ids[i] == id,
    ensures
        claim_results(claimed, ids).len() == ids.len(),
        claim_results(claimed, ids)[0] == CacheResult::Fresh <==> !claimed.contains(id),
        forall|i: int|
            1 <= i < ids.len() ==> claim_results(claimed, ids)[i]
                == CacheResult::AlreadyProcessed,
{
    let rest = ids.drop_first();
    lemma_claims_on_claimed(claimed.insert(id), rest, id);
    let r = claim_results(claimed, ids);
    assert forall|i: int| 1 <= i < ids.len() implies r[i] == CacheResult::AlreadyProcessed by {
        assert(r[i] == claim_results(claimed.insert(id), rest)[i - 1]);
    }
}

/// The identifiers whose cache entries exist: claiming one is the only way
/// an advert is marked as seen.
pub struct ClaimStore {
    ids: Vec<String>,
}

impl View for ClaimStore {
    type V = Set<Seq<char>>;

    closed spec fn view(&self) -> Set<Seq<char>> {
        Set::new(|x: Seq<char>| exists|i: int| 0 <= i < self.ids@.len() && self.ids@[i]@ == x)
    }
}

impl ClaimStore {
    pub fn new() -> (r: ClaimStore)
        ensures
            r@ == Set::<Seq<char>>::empty(),
    {
        let r = ClaimStore { ids: Vec::new() };
        assert(r@ =~= Set::<Seq<char>>::empty());
        r
    }

    /// Whether the identifier was claimed.
    pub fn is_claimed(&self, id: &str) -> (r: bool)
        ensures
            r == self@.contains(id@),
    {
        let key = id.to_owned();
        let mut i: usize = 0;
        while i < self.ids.len()
            invariant
                key@ == id@,
                i <= self.ids@.len(),
                forall|j: int| 0 <= j < i ==> self.ids@[j]@ != id@,
            decreases self.ids@.len() - i,
        {
            if self.ids[i] == key {
                return true;
            }
            i = i + 1;
        }
        false
    }

    /// Claims the identifier: succeeds exactly when nobody claimed it before,
    /// and leaves it claimed either way.
    pub fn try_claim(&mut self, id: &str) -> (r: CacheResult)
        ensures
            r == claim_result(old(self)@, id@),
            final(self)@ == old(self)@.insert(id@),
    {
        if self.is_claimed(id) {
            assert(self@ =~= self@.insert(id@));
            CacheResult::AlreadyProcessed
        } else {
            let ghost before = self@;
            self.ids.push(id.to_owned());
            assert forall|x: Seq<char>| self@.contains(x) <==> before.insert(id@).contains(x) by {
                if before.contains(x) {
                    let i = choose|i: int| 0 <= i < old(self).ids@.len() && old(self).ids@[i]@ == x;
                    assert(self.ids@[i]@ == x);
                }
                if x == id@ {
                    assert(self.ids@[self.ids@.len() - 1]@ == x);
                }
            }
            assert(self@ =~= before.insert(id@));
            CacheResult::Fresh
        }
    }
}

pub open spec fn has_row(rows: Seq<RecordView>, id: u32) -> bool {
    exists|i: int| 0 <= i < rows.len() && rows[i].id == id
}

/// No two rows share a key.
pub open spec fn distinct_ids(rows: Seq<RecordView>) -> bool {
    forall|i: int, j: int| 0 <= i < rows.len() && 0 <= j < rows.len() && i != j ==> rows[i].id != rows[j].id
}

/// Writing a row keyed by its identifier: nothing changes where a row with
/// that key exists.
pub open spec fn insert_or_ignore(rows: Seq<RecordView>, rec: RecordView) -> Seq<RecordView> {
    if has_row(rows, rec.id) {
        rows
    } else {
        rows.push(rec)
    }
}

/// Writes made one after another.
pub open spec fn record_all(rows: Seq<RecordView>, recs: Seq<RecordView>) -> Seq<RecordView>
    decreases recs.len(),
{
    if recs.len() == 0 {
        rows
    } else {
        record_all(insert_or_ignore(rows, recs[0]), recs.drop_first())
    }
}

/// How many rows carry the key.
pub open spec fn rows_with(rows: Seq<RecordView>, id: u32) -> nat
    decreases rows.len(),
{
    if rows.len() == 0 {
        0
    } else {
        rows_with(rows.drop_last(), id) + if rows.last().id == id { 1nat } else { 0nat }
    }
}

proof fn lemma_rows_with_distinct(rows: Seq<RecordView>, id: u32)
    requires
        distinct_ids(rows),
    ensures
        rows_with(rows, id) == if has_row(rows, id) { 1nat } else { 0nat },
    decreases rows.len(),
{
    if rows.len() > 0 {
        let t = rows.drop_last();
        assert(distinct_ids(t));
        lemma_rows_with_distinct(t, id);
        if rows.last().id == id {
            if has_row(t, id) {
                let i = choose|i: int| 0 <= i < t.len() && t[i].id == id;
                assert(rows[i].id == rows[rows.len() - 1].id);
            }
        }
        if has_row(rows, id) && rows.last().id != id {
            let i = choose|i: int| 0 <= i < rows.len() && rows[i].id == id;
            assert(t[i].id == id);
        }
        if has_row(t, id) {
            let i = choose|i: int| 0 <= i < t.len() && t[i].id == id;
            assert(rows[i].id == id);
        }
    }
}

proof fn lemma_insert_keeps_distinct(rows: Seq<RecordView>, rec: RecordView)
    requires
        distinct_ids(rows),
    ensures
        distinct_ids(insert_or_ignore(rows, rec)),
        has_row(insert_or_ignore(rows, rec), rec.id),
        forall|k: u32| has_row(rows, k) ==> has_row(insert_or_ignore(rows, rec), k),
{
    let out = insert_or_ignore(rows, rec);
    if !has_row(rows, rec.id) {
        assert(out[rows.len() as int].id == rec.id);
        assert forall|k: u32| has_row(rows, k) implies has_row(out, k) by {
            let i = choose|i: int| 0 <= i < rows.len() && rows[i].id == k;
            assert(out[i].id == k);
        }
    }
}

proof fn lemma_record_all_keeps(rows: Seq<RecordView>, recs: Seq<RecordView>, id: u32)
    requires
        distinct_ids(rows),
        has_row(rows, id),
    ensures
        distinct_ids(record_all(rows, recs)),
        has_row(record_all(rows, recs), id),
    decreases recs.len(),
{
    if recs.len() > 0 {
        lemma_insert_keeps_distinct(rows, recs[0]);
        lemma_record_all_keeps(insert_or_ignore(rows, recs[0]), recs.drop_first(), id);
    }
}

/// However often an advert is recorded, the log holds exactly one row
/// for its key afterwards.
pub proof fn lemma_one_row_per_id(rows: Seq<RecordView>, recs: Seq<RecordView>, id: u32)
    requires
        distinct_ids(rows),
        recs.len() > 0,
        forall|i: int| 0 <= i < recs.len() ==> recs[i].id == id,
    ensures
        rows_with(record_all(rows, recs), id) == 1,
{
    lemma_insert_keeps_distinct(rows, recs[0]);
    lemma_record_all_keeps(insert_or_ignore(rows, recs[0]), recs.drop_first(), id);
    lemma_rows_with_distinct(record_all(rows, recs), id);
}

/// The outcome log: one row per advert key, written with insert-or-ignore.
pub struct LogTable {
    rows: Vec<LogRecord>,
}

impl View for LogTable {
    type V = Seq<RecordView>;

    closed spec fn view(&self) -> Seq<RecordView> {
        self.rows@.map_values(|r: LogRecord| r@)
    }
}

impl LogTable {
    /// The table's rows have distinct keys.
    pub open spec fn wf(&self) -> bool {
        distinct_ids(self@)
    }

    pub fn new() -> (r: LogTable)
        ensures
            r@ == Seq::<RecordView>::empty(),
            r.wf(),
    {
        let r = LogTable { rows: Vec::new() };
        assert(r@ =~= Seq::<RecordView>::empty());
        r
    }

    pub fn len(&self) -> (r: usize)
        ensures
            r == self@.len(),
    {
        self.rows.len()
    }

    /// Whether a row with the key is logged.
    pub fn contains(&self, id: u32) -> (r: bool)
        ensures
            r == has_row(self@, id),
    {
        let mut i: usize = 0;
        while i < self.rows.len()
            invariant
                i <= self.rows@.len(),
                self@ == self.rows@.map_values(|r: LogRecord| r@),
                forall|j: int| 0 <= j < i ==> self@[j].id != id,
            decreases self.rows@.len() - i,
        {
            if self.rows[i].id == id {
                assert(self@[i as int].id == id);
                return true;
            }
            i = i + 1;
        }
        false
    }

    /// Writes the row unless one with its key is logged already.
    pub fn record(&mut self, rec: LogRecord)
        requires
            old(self).wf(),
        ensures
            final(self)@ == insert_or_ignore(old(self)@, rec@),
            final(self).wf(),
    {
        proof {
            lemma_insert_keeps_distinct(self@, rec@);
        }
        if !self.contains(rec.id) {
            let ghost before = self@;
            self.rows.push(rec);
            assert(self@ =~= before.push(rec@));
        }
    }
}

} // verus!
