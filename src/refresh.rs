use vstd::prelude::*;
use crate::error::{ApiErrorKind, CacheErrorKind, GdcfError};
use crate::integrity::{first_error_from, integrity, integrity_spec, join_sub_fetches};
use crate::model::{
    GDObject, PartialLevel, collect_song_references, other_objects_of, partial_levels_of,
    song_references, split_response,
};
use crate::request::LevelsRequest;

verus! {

/// The refresh operation of a levels request, driven step by step by the
/// caller: the source's response, the cache lookups of the songs it
/// references, the sub-fetches of the missing ones, and the stores.
pub struct LevelsRefresh {
    batch: Vec<GDObject>,
}

impl View for LevelsRefresh {
    type V = Seq<GDObject>;

    closed spec fn view(&self) -> Seq<GDObject> {
        self.batch@
    }
}

impl LevelsRefresh {
    /// Takes the source's response. On success the caller looks up each
    /// returned song reference (level id, song id) in the cache, in order.
    pub fn on_response(response: Result<Vec<GDObject>, ApiErrorKind>) -> (r: Result<
        (LevelsRefresh, Vec<(u64, u64)>),
        GdcfError,
    >)
        ensures
            match response {
                Ok(batch) => r matches Ok((s, refs)) && s@ == batch@ && refs@ == song_references(
                    batch@,
                ),
                Err(e) => r == Err::<(LevelsRefresh, Vec<(u64, u64)>), GdcfError>(GdcfError::Api(e)),
            },
    {
        match response {
            Ok(batch) => {
                let refs = collect_song_references(&batch);
                Ok((LevelsRefresh { batch }, refs))
            },
            Err(e) => Err(GdcfError::Api(e)),
        }
    }

    /// Takes what the lookups gave; the sub-requests to fetch (all of them,
    /// concurrently) come back, or the cache's failure.
    pub fn on_lookups(&self, lookups: &Vec<Result<(), CacheErrorKind>>) -> (r: Result<
        Vec<LevelsRequest>,
        GdcfError,
    >)
        requires
            lookups@.len() == song_references(self@).len(),
        ensures
            match r {
                Ok(reqs) => integrity_spec(song_references(self@), lookups@) == Ok::<
                    Seq<LevelsRequest>,
                    GdcfError,
                >(reqs@),
                Err(e) => integrity_spec(song_references(self@), lookups@) == Err::<
                    Seq<LevelsRequest>,
                    GdcfError,
                >(e),
            },
    {
        integrity(&self.batch, lookups)
    }

    /// Takes the outcomes of all sub-fetches, once all have completed. The
    /// batch is split into the partial levels, to be stored under the
    /// request and handed out, and the other objects, to be stored each on
    /// its own; or the first failure comes back.
    pub fn on_sub_fetches(self, outcomes: &Vec<Result<(), GdcfError>>) -> (r: Result<
        (Vec<PartialLevel>, Vec<GDObject>),
        GdcfError,
    >)
        ensures
            match first_error_from(outcomes@, 0) {
                Some(e) => r matches Err(x) && x == e,
                None => r matches Ok((levels, others)) && levels@ == partial_levels_of(self@)
                    && others@ == other_objects_of(self@),
            },
    {
        match join_sub_fetches(self.batch, outcomes) {
            Ok(batch) => Ok(split_response(batch)),
            Err(e) => Err(e),
        }
    }

    /// Takes the outcome of storing the other objects: the partial levels
    /// are the refreshed value, or the cache's failure is.
    pub fn on_stored(levels: Vec<PartialLevel>, stored: Result<(), CacheErrorKind>) -> (r: Result<
        Vec<PartialLevel>,
        GdcfError,
    >)
        ensures
            match stored {
                Ok(()) => r == Ok::<Vec<PartialLevel>, GdcfError>(levels),
                Err(e) => r == Err::<Vec<PartialLevel>, GdcfError>(GdcfError::Cache(e)),
            },
    {
        match stored {
            Ok(()) => Ok(levels),
            Err(e) => Err(GdcfError::Cache(e)),
        }
    }
}

} // verus!
