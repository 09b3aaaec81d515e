use vstd::prelude::*;
use crate::error::{ApiErrorKind, CacheErrorKind, GdcfError};
use crate::future::{Async, CacheLookup, FutureModel, Phase, future_wf, poll_spec};
use crate::gdcf::fetch_spec;
use crate::model::{GDObject, other_objects_of};
use crate::integrity::{has_backend_failure, integrity_spec, missed};
use crate::request::{LevelsRequest, sub_request_spec};
use crate::stream::{StreamModel, StreamState, resume_spec, stream_poll_spec, stream_wf};

verus! {

/// A fresh entry is served as it is: the fetch has no refresh (so the source
/// is not called), and its first poll resolves with the cached value,
/// whatever a refresh would have given.
pub proof fn lemma_fresh_hit<T>(value: T, refresh: Result<Async<T>, GdcfError>)
    ensures
        fetch_spec(Ok::<CacheLookup<T>, CacheErrorKind>(CacheLookup::Fresh(value))) == Ok::<
            FutureModel<T>,
            GdcfError,
        >(FutureModel { cached: Some(value), phase: Phase::UpToDate }),
        poll_spec(FutureModel { cached: Some(value), phase: Phase::UpToDate }, refresh).1 == Ok::<
            Async<T>,
            GdcfError,
        >(Async::Ready(value)),
{
}

/// A stale entry is available at once, and a refresh is pending; while the
/// refresh is not ready the old value stays available, and once it is ready
/// the poll resolves with the refreshed value.
pub proof fn lemma_stale_hit<T>(old_value: T, new_value: T)
    ensures
        fetch_spec(Ok::<CacheLookup<T>, CacheErrorKind>(CacheLookup::Stale(old_value))) == Ok::<
            FutureModel<T>,
            GdcfError,
        >(FutureModel { cached: Some(old_value), phase: Phase::Refreshing }),
        poll_spec(
            FutureModel { cached: Some(old_value), phase: Phase::Refreshing },
            Ok(Async::NotReady),
        ) == (
            FutureModel { cached: Some(old_value), phase: Phase::Refreshing },
            Ok::<Async<T>, GdcfError>(Async::NotReady),
        ),
        poll_spec(
            FutureModel { cached: Some(old_value), phase: Phase::Refreshing },
            Ok(Async::Ready(new_value)),
        ).1 == Ok::<Async<T>, GdcfError>(Async::Ready(new_value)),
{
}

/// A missing entry gives no value now, and a poll yields a value only where
/// the refresh has yielded that value.
pub proof fn lemma_miss<T>(refresh: Result<Async<T>, GdcfError>, value: T)
    ensures
        fetch_spec(Ok::<CacheLookup<T>, CacheErrorKind>(CacheLookup::Missing)) == Ok::<
            FutureModel<T>,
            GdcfError,
        >(FutureModel { cached: None, phase: Phase::Refreshing }),
        fetch_spec(Err::<CacheLookup<T>, CacheErrorKind>(CacheErrorKind::Miss)) == Ok::<
            FutureModel<T>,
            GdcfError,
        >(FutureModel { cached: None, phase: Phase::Refreshing }),
        poll_spec(FutureModel { cached: None, phase: Phase::Refreshing }, refresh).1 == Ok::<
            Async<T>,
            GdcfError,
        >(Async::Ready(value)) ==> refresh == Ok::<Async<T>, GdcfError>(Async::Ready(value)),
{
}

proof fn lemma_missed_contains(
    refs: Seq<(u64, u64)>,
    lookups: Seq<Result<(), CacheErrorKind>>,
    j: int,
    k: int,
)
    requires
        0 <= j < k <= refs.len(),
        k <= lookups.len(),
        lookups[j] == Err::<(), CacheErrorKind>(CacheErrorKind::Miss),
    ensures
        missed(refs, lookups, k).contains(refs[j]),
    decreases k,
{
    if j == k - 1 {
        assert(missed(refs, lookups, k).last() == refs[j]);
    } else {
        lemma_missed_contains(refs, lookups, j, k - 1);
        let m = missed(refs, lookups, k - 1);
        let i = choose|i: int| 0 <= i < m.len() && m[i] == refs[j];
        if lookups[k - 1] == Err::<(), CacheErrorKind>(CacheErrorKind::Miss) {
            assert(m.push(refs[k - 1])[i] == refs[j]);
        }
    }
}

/// A song reference whose lookup missed gets a sub-request that caches it,
/// unless the cache failed in the same pass.
pub proof fn lemma_missing_reference_is_fetched(
    refs: Seq<(u64, u64)>,
    lookups: Seq<Result<(), CacheErrorKind>>,
    j: int,
)
    requires
        lookups.len() == refs.len(),
        0 <= j < refs.len(),
        lookups[j] == Err::<(), CacheErrorKind>(CacheErrorKind::Miss),
        !has_backend_failure(lookups),
    ensures
        integrity_spec(refs, lookups) is Ok,
        integrity_spec(refs, lookups)->Ok_0.contains(sub_request_spec(refs[j])),
{
    lemma_missed_contains(refs, lookups, j, refs.len() as int);
    let m = missed(refs, lookups, refs.len() as int);
    let i = choose|i: int| 0 <= i < m.len() && m[i] == refs[j];
    let reqs = m.map_values(|r: (u64, u64)| sub_request_spec(r));
    assert(reqs[i] == sub_request_spec(refs[j]));
}

/// A song in a fetch's response (such as the one a sub-request for a
/// missing song brings back) is among the objects that the fetch's store
/// step writes to the cache, once all its own sub-fetches have succeeded.
pub proof fn lemma_song_in_response_is_stored(batch: Seq<GDObject>, j: int)
    requires
        0 <= j < batch.len(),
        batch[j] is NewgroundsSong,
    ensures
        other_objects_of(batch).contains(batch[j]),
    decreases batch.len(),
{
    let rest = batch.drop_last();
    if j == batch.len() - 1 {
        assert(other_objects_of(batch) == other_objects_of(rest).push(batch[j]));
        assert(other_objects_of(batch).last() == batch[j]);
    } else {
        assert(rest[j] == batch[j]);
        lemma_song_in_response_is_stored(rest, j);
        let m = other_objects_of(rest);
        let i = choose|i: int| 0 <= i < m.len() && m[i] == batch[j];
        match batch.last() {
            GDObject::PartialLevel(_) => {},
            o => {
                assert(other_objects_of(batch) == m.push(o));
                assert(other_objects_of(batch)[i] == batch[j]);
            },
        }
    }
}

/// A backend failure of any lookup in an integrity pass fails the pass, and
/// the fetch whose refresh ran that pass resolves with that failure.
pub proof fn lemma_fatal_short_circuit<T>(
    refs: Seq<(u64, u64)>,
    lookups: Seq<Result<(), CacheErrorKind>>,
    j: int,
    fetch: FutureModel<T>,
)
    requires
        0 <= j < lookups.len(),
        lookups[j] == Err::<(), CacheErrorKind>(CacheErrorKind::Backend),
        fetch.phase == Phase::Refreshing,
    ensures
        integrity_spec(refs, lookups) == Err::<Seq<LevelsRequest>, GdcfError>(
            GdcfError::Cache(CacheErrorKind::Backend),
        ),
        poll_spec(fetch, Err(GdcfError::Cache(CacheErrorKind::Backend))).1 == Err::<
            Async<T>,
            GdcfError,
        >(GdcfError::Cache(CacheErrorKind::Backend)),
{
    assert(has_backend_failure(lookups));
}

/// Drives a stream: each poll is handed the next of `refreshes` (what
/// polling the pending fetch's refresh gave); after each resolved page the
/// next of `fetches` is installed, and what `resume` hands out is that
/// step's output.
pub open spec fn run_stream<T>(
    s: StreamModel<T>,
    fetches: Seq<FutureModel<T>>,
    refreshes: Seq<Result<Async<T>, GdcfError>>,
) -> Seq<Result<Async<Option<T>>, GdcfError>>
    decreases refreshes.len(),
{
    if refreshes.len() == 0 {
        Seq::empty()
    } else {
        let (s1, out) = stream_poll_spec(s, refreshes[0]);
        if s1.state == StreamState::Advancing && fetches.len() > 0 {
            let (s2, out2) = resume_spec(s1, Ok(fetches[0]));
            seq![out2] + run_stream(s2, fetches.drop_first(), refreshes.drop_first())
        } else {
            seq![out] + run_stream(s1, fetches, refreshes.drop_first())
        }
    }
}

/// The fetch pending for the `k`-th page: the first one, then those
/// installed after each page.
pub open spec fn fetch_at<T>(first: FutureModel<T>, fetches: Seq<FutureModel<T>>, k: int) -> FutureModel<T> {
    if k == 0 {
        first
    } else {
        fetches[k - 1]
    }
}

/// A stream whose fetches resolve, one after the other, to `pages` (each
/// from the cache or from its refresh), and then to the source's "no
/// further results", emits exactly those pages, in order, then a clean end,
/// and no error.
pub proof fn lemma_pagination<T>(
    s: StreamModel<T>,
    pages: Seq<T>,
    fetches: Seq<FutureModel<T>>,
    refreshes: Seq<Result<Async<T>, GdcfError>>,
)
    requires
        s.state == StreamState::Polling,
        stream_wf(s),
        fetches.len() == pages.len(),
        refreshes.len() == pages.len() + 1,
        s.request.page + pages.len() < u32::MAX,
        forall|k: int|
            0 <= k < fetches.len() ==> future_wf(#[trigger] fetches[k]) && fetches[k].phase
                != Phase::Consumed,
        forall|k: int|
            0 <= k < pages.len() ==> poll_spec(#[trigger] fetch_at(s.current, fetches, k), refreshes[k]).1
                == Ok::<Async<T>, GdcfError>(Async::Ready(pages[k])),
        poll_spec(fetch_at(s.current, fetches, pages.len() as int), refreshes[pages.len() as int]).1
            == Err::<Async<T>, GdcfError>(GdcfError::Api(ApiErrorKind::NoResult)),
    ensures
        run_stream(s, fetches, refreshes) == pages.map_values(
            |p: T| Ok::<Async<Option<T>>, GdcfError>(Async::Ready(Some(p))),
        ) + seq![Ok::<Async<Option<T>>, GdcfError>(Async::Ready(None))],
    decreases pages.len(),
{
    if pages.len() == 0 {
        assert(fetch_at(s.current, fetches, 0) == s.current);
        let (s1, out) = stream_poll_spec(s, refreshes[0]);
        assert(refreshes.drop_first().len() == 0);
        assert(run_stream(s1, fetches, refreshes.drop_first()) == Seq::<Result<Async<Option<T>>, GdcfError>>::empty());
        assert(pages.map_values(|p: T| Ok::<Async<Option<T>>, GdcfError>(Async::Ready(Some(p))))
            =~= Seq::<Result<Async<Option<T>>, GdcfError>>::empty());
        assert(run_stream(s, fetches, refreshes) =~= seq![out]);
    } else {
        assert(fetch_at(s.current, fetches, 0) == s.current);
        let (s1, out) = stream_poll_spec(s, refreshes[0]);
        let (s2, out2) = resume_spec(s1, Ok(fetches[0]));
        assert(s1.state == StreamState::Advancing);
        assert(out2 == Ok::<Async<Option<T>>, GdcfError>(Async::Ready(Some(pages[0]))));
        let fs = fetches.drop_first();
        let ps = pages.drop_first();
        let rs = refreshes.drop_first();
        assert forall|k: int| 0 <= k < fs.len() implies future_wf(#[trigger] fs[k]) && fs[k].phase
            != Phase::Consumed by {
            assert(fs[k] == fetches[k + 1]);
        }
        assert forall|k: int| 0 <= k < ps.len() implies poll_spec(#[trigger] fetch_at(s2.current, fs, k), rs[k]).1
            == Ok::<Async<T>, GdcfError>(Async::Ready(ps[k])) by {
            assert(fetch_at(s2.current, fs, k) == fetch_at(s.current, fetches, k + 1));
            assert(poll_spec(fetch_at(s.current, fetches, k + 1), refreshes[k + 1]).1
                == Ok::<Async<T>, GdcfError>(Async::Ready(pages[k + 1])));
        }
        assert(fetch_at(s2.current, fs, ps.len() as int) == fetch_at(s.current, fetches, pages.len() as int));
        lemma_pagination(s2, ps, fs, rs);
        assert(run_stream(s, fetches, refreshes) == seq![out2] + run_stream(s2, fs, rs));
        assert(seq![out2] + (ps.map_values(
            |p: T| Ok::<Async<Option<T>>, GdcfError>(Async::Ready(Some(p))),
        ) + seq![Ok::<Async<Option<T>>, GdcfError>(Async::Ready(None))]) =~= pages.map_values(
            |p: T| Ok::<Async<Option<T>>, GdcfError>(Async::Ready(Some(p))),
        ) + seq![Ok::<Async<Option<T>>, GdcfError>(Async::Ready(None))]);
    }
}

/// Once ended, a stream stays ended and emits nothing more.
pub proof fn lemma_ended_stays_ended<T>(s: StreamModel<T>, refresh: Result<Async<T>, GdcfError>)
    requires
        s.state == StreamState::Ended || s.state == StreamState::Exhausted || s.state
            == StreamState::CursorLimit,
    ensures
        stream_poll_spec(s, refresh) == (s, Ok::<Async<Option<T>>, GdcfError>(Async::Ready(None))),
{
}

} // verus!
