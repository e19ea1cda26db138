use vstd::prelude::*;

use crate::interpolation::{interp_defined, interpolate_two_transform, is_interp_of};
use crate::transform_storage::{stamp_le, stamp_lt, FrameId, Stamp, TransformStorage};

verus! {

/// Why a query failed. The three extrapolation kinds stay distinct so a
/// caller can decide differently for each boundary.
#[derive(Debug)]
pub enum TfError {
    /// A failure outside the boundary taxonomy, with a short description.
    Generic(&'static str),
    /// `get_data` found no usable match: the cache is empty.
    TransformNotFound,
    /// A single-record cache was queried for a time that is not its one
    /// stored stamp.
    ExtrapolationError1,
    /// The query time precedes every stored sample.
    ExtrapolationError2,
    /// The query time follows every stored sample.
    ExtrapolationError3,
    /// `get_parent` was invoked where no genuine two-sided bracket exists.
    NoParent,
}

/// What a point-in-time lookup found: nothing, one exact (or latest) record,
/// or the two adjacent records bracketing the query time.
#[derive(Debug)]
pub enum FindClosestResult {
    NoClose,
    OneClose(TransformStorage),
    TwoClose(TransformStorage, TransformStorage),
}

/// The cache's ordering invariant: stamps are non-increasing from the most
/// recent record at the front to the oldest at the back.
pub open spec fn stamps_descending(s: Seq<TransformStorage>) -> bool {
    forall|i: int, j: int| 0 <= i <= j < s.len() ==> stamp_le(s[j].stamp, s[i].stamp)
}

/// Where a record with stamp `st` is placed: scanning from the front, the
/// first position whose record's stamp is strictly smaller than `st`. A new
/// record therefore lands after every record sharing its exact stamp, which
/// keeps ties in insertion order.
pub open spec fn insert_index_spec(s: Seq<TransformStorage>, st: Stamp) -> int
    decreases s.len(),
{
    if s.len() == 0 {
        0
    } else if stamp_le(st, s[0].stamp) {
        1 + insert_index_spec(s.subrange(1, s.len() as int), st)
    } else {
        0
    }
}

/// How many leading records have a stamp strictly greater than `t`; on a
/// descending sequence this counts every record newer than `t`.
pub open spec fn count_greater(s: Seq<TransformStorage>, t: Stamp) -> int
    decreases s.len(),
{
    if s.len() == 0 {
        0
    } else if stamp_lt(t, s[0].stamp) {
        1 + count_greater(s.subrange(1, s.len() as int), t)
    } else {
        0
    }
}

/// The insertion point is the first index whose stamp is strictly below the
/// new stamp: everything before it is at least the new stamp.
pub proof fn lemma_insert_index_first(s: Seq<TransformStorage>, st: Stamp)
    ensures
        0 <= insert_index_spec(s, st) <= s.len(),
        forall|j: int| 0 <= j < insert_index_spec(s, st) ==> stamp_le(st, s[j].stamp),
        insert_index_spec(s, st) < s.len() ==> stamp_lt(
            s[insert_index_spec(s, st)].stamp,
            st,
        ),
    decreases s.len(),
{
    if s.len() != 0 && stamp_le(st, s[0].stamp) {
        let tail = s.subrange(1, s.len() as int);
        lemma_insert_index_first(tail, st);
        assert forall|j: int| 0 <= j < insert_index_spec(s, st) implies stamp_le(
            st,
            s[j].stamp,
        ) by {
            if j > 0 {
                assert(tail[j - 1] == s[j]);
            }
        }
        if insert_index_spec(s, st) < s.len() {
            assert(tail[insert_index_spec(tail, st)] == s[insert_index_spec(s, st)]);
        }
    }
}

/// The greater-count is the first index whose stamp is not strictly above
/// `t`: everything before it is strictly newer than `t`.
pub proof fn lemma_count_greater_first(s: Seq<TransformStorage>, t: Stamp)
    ensures
        0 <= count_greater(s, t) <= s.len(),
        forall|j: int| 0 <= j < count_greater(s, t) ==> stamp_lt(t, s[j].stamp),
        count_greater(s, t) < s.len() ==> stamp_le(s[count_greater(s, t)].stamp, t),
    decreases s.len(),
{
    if s.len() != 0 && stamp_lt(t, s[0].stamp) {
        let tail = s.subrange(1, s.len() as int);
        lemma_count_greater_first(tail, t);
        assert forall|j: int| 0 <= j < count_greater(s, t) implies stamp_lt(t, s[j].stamp) by {
            if j > 0 {
                assert(tail[j - 1] == s[j]);
            }
        }
        if count_greater(s, t) < s.len() {
            assert(tail[count_greater(tail, t)] == s[count_greater(s, t)]);
        }
    }
}

/// After an insertion at the computed point the records stay sorted
/// non-increasing by stamp; every record before the point keeps a stamp at
/// least the new one (so records sharing the exact stamp stay in insertion
/// order), and every record after it is strictly older.
pub proof fn lemma_insert_keeps_order(s: Seq<TransformStorage>, rec: TransformStorage)
    requires
        stamps_descending(s),
    ensures
        stamps_descending(s.insert(insert_index_spec(s, rec.stamp), rec)),
        forall|j: int|
            0 <= j < insert_index_spec(s, rec.stamp) ==> stamp_le(rec.stamp, s[j].stamp),
        forall|j: int|
            insert_index_spec(s, rec.stamp) <= j < s.len() ==> stamp_lt(s[j].stamp, rec.stamp),
{
    let idx = insert_index_spec(s, rec.stamp);
    lemma_insert_index_first(s, rec.stamp);
    assert forall|j: int| idx <= j < s.len() implies stamp_lt(s[j].stamp, rec.stamp) by {
        if idx < s.len() {
            assert(stamp_le(s[j].stamp, s[idx].stamp));
        }
    }
    let s2 = s.insert(idx, rec);
    s.insert_ensures(idx, rec);
    assert forall|i: int, j: int| 0 <= i <= j < s2.len() implies stamp_le(
        s2[j].stamp,
        s2[i].stamp,
    ) by {
        if i < idx {
            assert(s2[i] == s[i]);
        }
        if j < idx {
            assert(s2[j] == s[j]);
        }
        if i > idx {
            assert(s2[i] == s[i - 1]);
        }
        if j > idx {
            assert(s2[j] == s[j - 1]);
        }
    }
}

/// The time-ordered history of transforms for one frame pair, most recent
/// first. Mutated only by insertion and clearing; records are never evicted.
pub struct TimeCache {
    records: Vec<TransformStorage>,
}

impl View for TimeCache {
    type V = Seq<TransformStorage>;

    closed spec fn view(&self) -> Seq<TransformStorage> {
        self.records@
    }
}

impl TimeCache {
    /// Creates an empty cache.
    pub fn new() -> (res: TimeCache)
        ensures
            res@ == Seq::<TransformStorage>::empty(),
            stamps_descending(res@),
    {
        TimeCache { records: Vec::new() }
    }

    /// Current record count.
    pub fn len(&self) -> (res: usize)
        ensures
            res == self@.len(),
    {
        self.records.len()
    }

    /// The record at `index`, front (most recent) first; for inspection.
    pub fn record_at(&self, index: usize) -> (res: &TransformStorage)
        requires
            index < self@.len(),
        ensures
            *res == self@[index as int],
    {
        &self.records[index]
    }

    /// Inserts `new_ts` at the position that keeps stamps non-increasing,
    /// after all records sharing its exact stamp.
    pub fn insert_ordered_by_time(&mut self, new_ts: TransformStorage)
        requires
            stamps_descending(old(self)@),
        ensures
            final(self)@ == old(self)@.insert(
                insert_index_spec(old(self)@, new_ts.stamp),
                new_ts,
            ),
            stamps_descending(final(self)@),
    {
        let ghost s = self.records@;
        let mut i: usize = 0;
        while i < self.records.len() && new_ts.stamp.le(&self.records[i].stamp)
            invariant
                self.records@ == s,
                0 <= i <= s.len(),
                forall|j: int| 0 <= j < i ==> stamp_le(new_ts.stamp, s[j].stamp),
            decreases s.len() - i,
        {
            i = i + 1;
        }
        proof {
            lemma_insert_index_first(s, new_ts.stamp);
            assert(i == insert_index_spec(s, new_ts.stamp)) by {
                let idx = insert_index_spec(s, new_ts.stamp);
                if i < idx {
                    assert(stamp_le(new_ts.stamp, s[i as int].stamp));
                } else if idx < i {
                    assert(stamp_le(new_ts.stamp, s[idx].stamp));
                }
            };
            lemma_insert_keeps_order(s, new_ts);
        }
        self.records.insert(i, new_ts);
    }

    /// Inserts a record; alias of the ordered insertion.
    pub fn insert(&mut self, ts: TransformStorage)
        requires
            stamps_descending(old(self)@),
        ensures
            final(self)@ == old(self)@.insert(insert_index_spec(old(self)@, ts.stamp), ts),
            stamps_descending(final(self)@),
    {
        self.insert_ordered_by_time(ts);
    }

    /// The query primitive. On an empty cache: no match. On the zero
    /// sentinel: the most recent record, whatever is stored. On a
    /// single-record cache: that record on an exact stamp match, otherwise
    /// the single-entry error. Otherwise: an exact match on the oldest or
    /// newest stamp, a typed boundary error outside the stored range, or the
    /// unique adjacent bracketing pair.
    pub fn find_closest(&self, req_time: &Stamp) -> (res: Result<FindClosestResult, TfError>)
        requires
            stamps_descending(self@),
        ensures
            res == find_closest_spec(self@, *req_time),
    {
        let n = self.records.len();
        if n > 0 {
            if req_time.is_zero() {
                Ok(FindClosestResult::OneClose(self.records[0].clone()))
            } else if n == 1 {
                if *req_time == self.records[0].stamp {
                    Ok(FindClosestResult::OneClose(self.records[0].clone()))
                } else {
                    Err(TfError::ExtrapolationError1)
                }
            } else {
                let earliest_stamp = self.records[n - 1].stamp;
                let latest_stamp = self.records[0].stamp;
                if *req_time == earliest_stamp {
                    Ok(FindClosestResult::OneClose(self.records[n - 1].clone()))
                } else if *req_time == latest_stamp {
                    Ok(FindClosestResult::OneClose(self.records[0].clone()))
                } else if req_time.lt(&earliest_stamp) {
                    Err(TfError::ExtrapolationError2)
                } else if latest_stamp.lt(req_time) {
                    Err(TfError::ExtrapolationError3)
                } else {
                    let ghost s = self.records@;
                    let mut i: usize = 0;
                    while i < n && req_time.lt(&self.records[i].stamp)
                        invariant
                            self.records@ == s,
                            n == s.len(),
                            0 <= i <= s.len(),
                            forall|j: int| 0 <= j < i ==> stamp_lt(*req_time, s[j].stamp),
                        decreases s.len() - i,
                    {
                        i = i + 1;
                    }
                    proof {
                        lemma_count_greater_first(s, *req_time);
                        assert(i == count_greater(s, *req_time)) by {
                            let c = count_greater(s, *req_time);
                            if i < c {
                                assert(stamp_lt(*req_time, s[i as int].stamp));
                            } else if c < i {
                                assert(stamp_lt(*req_time, s[c].stamp));
                            }
                        };
                        assert(stamp_lt(*req_time, s[0].stamp));
                        assert(i >= 1);
                        assert(i < s.len()) by {
                            if i == s.len() {
                                assert(stamp_lt(*req_time, s[s.len() - 1].stamp));
                            }
                        };
                    }
                    let left = i - 1;
                    Ok(FindClosestResult::TwoClose(
                        self.records[left].clone(),
                        self.records[left + 1].clone(),
                    ))
                }
            }
        } else {
            Ok(FindClosestResult::NoClose)
        }
    }
}

/// What the query primitive answers on contents `s` at time `t`.
pub open spec fn find_closest_spec(s: Seq<TransformStorage>, t: Stamp) -> Result<
    FindClosestResult,
    TfError,
> {
    if s.len() == 0 {
        Ok(FindClosestResult::NoClose)
    } else if t == Stamp::spec_zero() {
        Ok(FindClosestResult::OneClose(s[0]))
    } else if s.len() == 1 {
        if t == s[0].stamp {
            Ok(FindClosestResult::OneClose(s[0]))
        } else {
            Err(TfError::ExtrapolationError1)
        }
    } else if t == s[s.len() - 1].stamp {
        Ok(FindClosestResult::OneClose(s[s.len() - 1]))
    } else if t == s[0].stamp {
        Ok(FindClosestResult::OneClose(s[0]))
    } else if stamp_lt(t, s[s.len() - 1].stamp) {
        Err(TfError::ExtrapolationError2)
    } else if stamp_lt(s[0].stamp, t) {
        Err(TfError::ExtrapolationError3)
    } else {
        let left = count_greater(s, t) - 1;
        Ok(FindClosestResult::TwoClose(s[left], s[left + 1]))
    }
}

/// Where the query primitive answers a bracketing pair, that pair is
/// adjacent, its left record is strictly newer than the query time, and its
/// right record is not newer than the query time.
pub proof fn lemma_find_closest_bracket(s: Seq<TransformStorage>, t: Stamp)
    requires
        stamps_descending(s),
        find_closest_spec(s, t) matches Ok(FindClosestResult::TwoClose(_, _)),
    ensures
        ({
            let left = count_greater(s, t) - 1;
            &&& 0 <= left < s.len() - 1
            &&& find_closest_spec(s, t) == Ok::<_, TfError>(
                FindClosestResult::TwoClose(s[left], s[left + 1]),
            )
            &&& stamp_lt(t, s[left].stamp)
            &&& stamp_le(s[left + 1].stamp, t)
        }),
{
    lemma_count_greater_first(s, t);
    let c = count_greater(s, t);
    assert(stamp_lt(t, s[0].stamp));
    assert(c >= 1);
    if c == s.len() {
        assert(stamp_lt(t, s[s.len() - 1].stamp));
    }
}

/// What `get_data` must answer on contents `s` at time `t`: a found error on
/// an empty cache, the propagated boundary error, a clone of an exact match,
/// or the interpolation of the bracketing pair (an error only where the
/// rotation blend is undefined).
pub open spec fn get_data_post(
    s: Seq<TransformStorage>,
    t: Stamp,
    res: Result<TransformStorage, TfError>,
) -> bool {
    match find_closest_spec(s, t) {
        Err(e) => res == Err::<TransformStorage, TfError>(e),
        Ok(FindClosestResult::NoClose) => res == Err::<TransformStorage, TfError>(
            TfError::TransformNotFound,
        ),
        Ok(FindClosestResult::OneClose(ts)) => res == Ok::<TransformStorage, TfError>(ts),
        Ok(FindClosestResult::TwoClose(l, r)) => {
            if interp_defined(l, r, t) {
                res matches Ok(out) && is_interp_of(out, l, r, t)
            } else {
                res matches Err(TfError::Generic(m)) && m@ == "rotation interpolation undefined"@
            }
        },
    }
}

/// What `get_parent` answers on contents `s` at time `t`: the parent frame
/// of the newer bracketing record where a genuine two-sided bracket exists,
/// and the no-parent error on every other outcome.
pub open spec fn get_parent_spec(s: Seq<TransformStorage>, t: Stamp) -> Result<FrameId, TfError> {
    match find_closest_spec(s, t) {
        Ok(FindClosestResult::TwoClose(l, _r)) => Ok(l.frame_id),
        _ => Err(TfError::NoParent),
    }
}

/// The most recent stamp, if any.
pub open spec fn latest_timestamp_spec(s: Seq<TransformStorage>) -> Option<Stamp> {
    if s.len() == 0 {
        None
    } else {
        Some(s[0].stamp)
    }
}

/// The oldest stamp, if any.
pub open spec fn oldest_timestamp_spec(s: Seq<TransformStorage>) -> Option<Stamp> {
    if s.len() == 0 {
        None
    } else {
        Some(s[s.len() - 1].stamp)
    }
}

/// The most recent stamp paired with its parent frame, if any.
pub open spec fn latest_time_and_parent_spec(s: Seq<TransformStorage>) -> Option<
    (Stamp, FrameId),
> {
    if s.len() == 0 {
        None
    } else {
        Some((s[0].stamp, s[0].frame_id))
    }
}

/// The capability contract of a per-frame-pair time cache.
pub trait TimeCacheInterface: Sized {
    /// The stored records, most recent first.
    spec fn cache(&self) -> Seq<TransformStorage>;

    /// The transform at `stamp`: an exact sample, an interpolation of the
    /// bracketing pair, or a typed failure.
    fn get_data(&self, stamp: &Stamp) -> (res: Result<TransformStorage, TfError>)
        requires
            stamps_descending(self.cache()),
        ensures
            get_data_post(self.cache(), *stamp, res),
    ;

    /// The parent frame at `stamp`, only where a genuine bracket exists.
    fn get_parent(&self, stamp: &Stamp) -> (res: Result<FrameId, TfError>)
        requires
            stamps_descending(self.cache()),
        ensures
            res == get_parent_spec(self.cache(), *stamp),
    ;

    /// Inserts an observed record, keeping stamps non-increasing; always
    /// succeeds (the flag is reserved for future rejection policies).
    fn insert_data(&mut self, new_ts: TransformStorage) -> (res: bool)
        requires
            stamps_descending(old(self).cache()),
        ensures
            final(self).cache() == old(self).cache().insert(
                insert_index_spec(old(self).cache(), new_ts.stamp),
                new_ts,
            ),
            stamps_descending(final(self).cache()),
            res == true,
    ;

    /// Empties the cache; no error condition.
    fn clear(&mut self)
        ensures
            final(self).cache() == Seq::<TransformStorage>::empty(),
    ;

    /// The most recent stamp with its parent frame; nothing on an empty
    /// cache.
    fn get_latest_time_and_parent(&self) -> (res: Option<(Stamp, FrameId)>)
        ensures
            res == latest_time_and_parent_spec(self.cache()),
    ;

    /// Current record count.
    fn get_length(&self) -> (res: usize)
        ensures
            res == self.cache().len(),
    ;

    /// The most recent stamp; nothing on an empty cache.
    fn get_latest_timestamp(&self) -> (res: Option<Stamp>)
        ensures
            res == latest_timestamp_spec(self.cache()),
    ;

    /// The oldest stamp; nothing on an empty cache.
    fn get_oldest_timestamp(&self) -> (res: Option<Stamp>)
        ensures
            res == oldest_timestamp_spec(self.cache()),
    ;
}

impl TimeCacheInterface for TimeCache {
    open spec fn cache(&self) -> Seq<TransformStorage> {
        self@
    }

    fn get_data(&self, stamp: &Stamp) -> (res: Result<TransformStorage, TfError>) {
        let closest_res = match self.find_closest(stamp) {
            Ok(c) => c,
            Err(e) => {
                return Err(e);
            },
        };
        match closest_res {
            FindClosestResult::NoClose => Err(TfError::TransformNotFound),
            FindClosestResult::OneClose(ts) => Ok(ts),
            FindClosestResult::TwoClose(left_ts, right_ts) => {
                match interpolate_two_transform(&left_ts, &right_ts, stamp) {
                    Some(out) => Ok(out),
                    None => Err(TfError::Generic("rotation interpolation undefined")),
                }
            },
        }
    }

    fn get_parent(&self, stamp: &Stamp) -> (res: Result<FrameId, TfError>) {
        match self.find_closest(stamp) {
            Ok(FindClosestResult::TwoClose(left_ts, _right_ts)) => Ok(left_ts.frame_id),
            _ => Err(TfError::NoParent),
        }
    }

    fn insert_data(&mut self, new_ts: TransformStorage) -> (res: bool) {
        self.insert_ordered_by_time(new_ts);
        true
    }

    fn clear(&mut self) {
        self.records.clear();
    }

    fn get_latest_time_and_parent(&self) -> (res: Option<(Stamp, FrameId)>) {
        if self.records.len() == 0 {
            None
        } else {
            Some((self.records[0].stamp, self.records[0].frame_id))
        }
    }

    fn get_length(&self) -> (res: usize) {
        self.records.len()
    }

    fn get_latest_timestamp(&self) -> (res: Option<Stamp>) {
        if self.records.len() == 0 {
            None
        } else {
            Some(self.records[0].stamp)
        }
    }

    fn get_oldest_timestamp(&self) -> (res: Option<Stamp>) {
        if self.records.len() == 0 {
            None
        } else {
            Some(self.records[self.records.len() - 1].stamp)
        }
    }
}

/// A single-record cache answers the query for its one stored stamp, or for
/// the zero sentinel, with that record, and refuses every other stamp with
/// the single-entry error; `get_data` therefore returns the record itself or
/// that error.
pub proof fn lemma_single_record(rec: TransformStorage, t: Stamp)
    ensures
        find_closest_spec(seq![rec], t) == (if t == Stamp::spec_zero() || t == rec.stamp {
            Ok::<_, TfError>(FindClosestResult::OneClose(rec))
        } else {
            Err::<FindClosestResult, _>(TfError::ExtrapolationError1)
        }),
        forall|res: Result<TransformStorage, TfError>|
            #[trigger] get_data_post(seq![rec], t, res) ==> res == (if t == Stamp::spec_zero()
                || t == rec.stamp {
                Ok::<TransformStorage, TfError>(rec)
            } else {
                Err::<TransformStorage, TfError>(TfError::ExtrapolationError1)
            }),
{
    assert(seq![rec][0] == rec);
}

/// Round trip on an exact stamp: inserting a record whose nonzero stamp is
/// strictly outside the stored range (strictly newer than every record,
/// strictly older than every record, or into an empty cache) and then
/// querying exactly that stamp returns exactly the inserted record.
pub proof fn lemma_round_trip_exact(s: Seq<TransformStorage>, rec: TransformStorage)
    requires
        stamps_descending(s),
        rec.stamp != Stamp::spec_zero(),
        (forall|i: int| 0 <= i < s.len() ==> stamp_lt(s[i].stamp, rec.stamp)) || (forall|i: int|
            0 <= i < s.len() ==> stamp_lt(rec.stamp, s[i].stamp)),
    ensures
        find_closest_spec(
            s.insert(insert_index_spec(s, rec.stamp), rec),
            rec.stamp,
        ) == Ok::<_, TfError>(FindClosestResult::OneClose(rec)),
        forall|res: Result<TransformStorage, TfError>|
            #[trigger] get_data_post(
                s.insert(insert_index_spec(s, rec.stamp), rec),
                rec.stamp,
                res,
            ) ==> res == Ok::<TransformStorage, TfError>(rec),
{
    let idx = insert_index_spec(s, rec.stamp);
    lemma_insert_index_first(s, rec.stamp);
    lemma_insert_keeps_order(s, rec);
    let s2 = s.insert(idx, rec);
    s.insert_ensures(idx, rec);
    if s.len() == 0 {
        assert(s2.len() == 1);
        assert(s2[0] == rec);
    } else if forall|i: int| 0 <= i < s.len() ==> stamp_lt(s[i].stamp, rec.stamp) {
        assert(stamp_lt(s[0].stamp, rec.stamp));
        assert(idx == 0) by {
            if idx > 0 {
                assert(stamp_le(rec.stamp, s[0].stamp));
            }
        };
        assert(s2[0] == rec);
        assert(s2[s2.len() - 1] == s[s.len() - 1]);
        assert(stamp_lt(s2[s2.len() - 1].stamp, rec.stamp));
        assert(s2[s2.len() - 1].stamp != rec.stamp);
    } else {
        assert(forall|i: int| 0 <= i < s.len() ==> stamp_lt(rec.stamp, s[i].stamp));
        assert(idx == s.len()) by {
            if idx < s.len() {
                assert(stamp_lt(s[idx].stamp, rec.stamp));
                assert(stamp_lt(rec.stamp, s[idx].stamp));
            }
        };
        assert(s2[s2.len() - 1] == rec);
        assert(s2[0] == s[0]);
        assert(stamp_lt(rec.stamp, s2[0].stamp));
    }
}

/// Clearing is idempotent and total: the cleared cache is empty whatever was
/// stored (so clearing an empty cache is a no-op), the length of the empty
/// contents is zero, and every timestamp accessor answers nothing on them.
pub proof fn lemma_cleared_cache()
    ensures
        Seq::<TransformStorage>::empty().len() == 0,
        latest_timestamp_spec(Seq::<TransformStorage>::empty()) is None,
        oldest_timestamp_spec(Seq::<TransformStorage>::empty()) is None,
        latest_time_and_parent_spec(Seq::<TransformStorage>::empty()) is None,
        stamps_descending(Seq::<TransformStorage>::empty()),
{
}

} // verus!
