use vstd::prelude::*;
use crate::error::{CacheErrorKind, GdcfError};
use crate::model::{GDObject, song_references};
use crate::request::{LevelsRequest, sub_request, sub_request_spec};

verus! {

/// The references among the first `k` whose lookup missed, in order.
pub open spec fn missed(
    refs: Seq<(u64, u64)>,
    lookups: Seq<Result<(), CacheErrorKind>>,
    k: int,
) -> Seq<(u64, u64)>
    decreases k,
{
    if k <= 0 {
        Seq::empty()
    } else {
        let rest = missed(refs, lookups, k - 1);
        if lookups[k - 1] == Err::<(), CacheErrorKind>(CacheErrorKind::Miss) {
            rest.push(refs[k - 1])
        } else {
            rest
        }
    }
}

/// Whether some lookup failed in the storage layer.
pub open spec fn has_backend_failure(lookups: Seq<Result<(), CacheErrorKind>>) -> bool {
    exists|j: int|
        0 <= j < lookups.len() && lookups[j] == Err::<(), CacheErrorKind>(CacheErrorKind::Backend)
}

/// What the integrity pass makes of a batch's song references and of what
/// looking each up in the cache gave: the sub-requests to issue for the
/// songs that are missing, or the cache's failure.
pub open spec fn integrity_spec(
    refs: Seq<(u64, u64)>,
    lookups: Seq<Result<(), CacheErrorKind>>,
) -> Result<Seq<LevelsRequest>, GdcfError> {
    if has_backend_failure(lookups) {
        Err(GdcfError::Cache(CacheErrorKind::Backend))
    } else {
        Ok(missed(refs, lookups, refs.len() as int).map_values(|r: (u64, u64)| sub_request_spec(r)))
    }
}

/// The integrity pass over a freshly fetched batch. `lookups[j]` is what
/// looking up the song of the `j`-th song reference of the batch gave
/// (`Ok` for a hit). Each missing song gets a sub-request; a backend failure
/// fails the whole pass at once.
pub fn integrity(batch: &Vec<GDObject>, lookups: &Vec<Result<(), CacheErrorKind>>) -> (r: Result<
    Vec<LevelsRequest>,
    GdcfError,
>)
    requires
        lookups@.len() == song_references(batch@).len(),
    ensures
        match r {
            Ok(reqs) => integrity_spec(song_references(batch@), lookups@) == Ok::<
                Seq<LevelsRequest>,
                GdcfError,
            >(reqs@),
            Err(e) => integrity_spec(song_references(batch@), lookups@) == Err::<
                Seq<LevelsRequest>,
                GdcfError,
            >(e),
        },
{
    let refs = crate::model::collect_song_references(batch);
    let mut reqs: Vec<LevelsRequest> = Vec::new();
    let mut i: usize = 0;
    while i < refs.len()
        invariant
            i <= refs@.len(),
            refs@ == song_references(batch@),
            lookups@.len() == refs@.len(),
            forall|j: int|
                0 <= j < i ==> lookups@[j] != Err::<(), CacheErrorKind>(CacheErrorKind::Backend),
            reqs@ == missed(refs@, lookups@, i as int).map_values(
                |r: (u64, u64)| sub_request_spec(r),
            ),
        decreases refs@.len() - i,
    {
        let ghost prev = missed(refs@, lookups@, i as int);
        match lookups[i] {
            Err(CacheErrorKind::Backend) => {
                return Err(GdcfError::Cache(CacheErrorKind::Backend));
            },
            Err(CacheErrorKind::Miss) => {
                let (level_id, song_id) = refs[i];
                reqs.push(sub_request(level_id, song_id));
                proof {
                    assert(missed(refs@, lookups@, i + 1) == prev.push(refs@[i as int]));
                    assert(reqs@ =~= prev.push(refs@[i as int]).map_values(
                        |r: (u64, u64)| sub_request_spec(r),
                    ));
                }
            },
            Ok(()) => {
                assert(missed(refs@, lookups@, i + 1) == prev);
            },
        }
        i = i + 1;
    }
    Ok(reqs)
}

/// The first failure among the sub-fetch outcomes from index `i` on.
pub open spec fn first_error_from(outcomes: Seq<Result<(), GdcfError>>, i: int) -> Option<GdcfError>
    decreases outcomes.len() - i,
{
    if i < 0 || i >= outcomes.len() {
        None
    } else {
        match outcomes[i] {
            Err(e) => Some(e),
            Ok(()) => first_error_from(outcomes, i + 1),
        }
    }
}

/// Joins the sub-fetches of an integrity pass once all have completed: the
/// batch comes back unchanged where every one succeeded, else the first
/// failure does.
pub fn join_sub_fetches(batch: Vec<GDObject>, outcomes: &Vec<Result<(), GdcfError>>) -> (r: Result<
    Vec<GDObject>,
    GdcfError,
>)
    ensures
        match first_error_from(outcomes@, 0) {
            Some(e) => r == Err::<Vec<GDObject>, GdcfError>(e),
            None => r == Ok::<Vec<GDObject>, GdcfError>(batch),
        },
{
    let mut i: usize = 0;
    while i < outcomes.len()
        invariant
            i <= outcomes@.len(),
            first_error_from(outcomes@, 0) == first_error_from(outcomes@, i as int),
        decreases outcomes@.len() - i,
    {
        match outcomes[i] {
            Err(e) => {
                return Err(e);
            },
            Ok(()) => {},
        }
        i = i + 1;
    }
    Ok(batch)
}

} // verus!
