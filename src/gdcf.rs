use vstd::prelude::*;
use crate::error::{CacheErrorKind, GdcfError};
use crate::future::{CacheLookup, FutureModel, GdcfFuture, Phase};

verus! {

/// What the caller has to do about the remote source after a fetch.
#[derive(Clone, Copy, Debug, PartialEq, Eq, Structural)]
pub enum RefreshAction {
    /// Nothing: the cached value is fresh and the source is not called.
    Nothing,
    /// Start a refresh operation for the fingerprint.
    Start,
    /// A refresh for the same fingerprint is already in flight: attach to it.
    Join,
}

/// What a fetch makes of a cache lookup.
pub open spec fn fetch_spec<T>(lookup: Result<CacheLookup<T>, CacheErrorKind>) -> Result<
    FutureModel<T>,
    GdcfError,
> {
    match lookup {
        Ok(CacheLookup::Fresh(v)) => Ok(FutureModel { cached: Some(v), phase: Phase::UpToDate }),
        Ok(CacheLookup::Stale(v)) => Ok(FutureModel { cached: Some(v), phase: Phase::Refreshing }),
        Ok(CacheLookup::Missing) => Ok(FutureModel { cached: None, phase: Phase::Refreshing }),
        Err(CacheErrorKind::Miss) => Ok(FutureModel { cached: None, phase: Phase::Refreshing }),
        Err(CacheErrorKind::Backend) => Err(GdcfError::Cache(CacheErrorKind::Backend)),
    }
}

/// The fetch orchestrator. It keeps the fingerprints whose refresh is in
/// flight, so that a second fetch of the same fingerprint joins the first
/// instead of calling the source again.
pub struct Gdcf2 {
    in_flight: Vec<u64>,
}

impl Gdcf2 {
    /// The fingerprints whose refresh is in flight.
    pub closed spec fn in_flight(&self) -> Set<u64> {
        self.in_flight@.to_set()
    }

    pub closed spec fn wf(&self) -> bool {
        self.in_flight@.no_duplicates()
    }

    pub fn new() -> (r: Self)
        ensures
            r.wf(),
            r.in_flight() == Set::<u64>::empty(),
    {
        let r = Gdcf2 { in_flight: Vec::new() };
        assert(r.in_flight@.to_set() =~= Set::<u64>::empty());
        r
    }

    fn position(&self, fingerprint: u64) -> (r: Option<usize>)
        ensures
            match r {
                Some(i) => i < self.in_flight@.len() && self.in_flight@[i as int] == fingerprint,
                None => !self.in_flight@.contains(fingerprint),
            },
    {
        let mut i: usize = 0;
        while i < self.in_flight.len()
            invariant
                i <= self.in_flight@.len(),
                forall|j: int| 0 <= j < i ==> self.in_flight@[j] != fingerprint,
            decreases self.in_flight@.len() - i,
        {
            if self.in_flight[i] == fingerprint {
                return Some(i);
            }
            i = i + 1;
        }
        None
    }

    /// Whether a refresh for the fingerprint is in flight.
    pub fn is_in_flight(&self, fingerprint: u64) -> (r: bool)
        ensures
            r == self.in_flight().contains(fingerprint),
    {
        let p = self.position(fingerprint);
        proof {
            if p is Some {
                assert(self.in_flight@.contains(fingerprint));
            }
        }
        p.is_some()
    }

    /// Fetches the value of a request from what a lookup of its fingerprint
    /// in the cache gave. A fresh value is handed out without refresh; a
    /// stale one is handed out now with a refresh; a missing one is left to
    /// a refresh. A backend failure of the cache is an error. A refresh is
    /// started only where none is in flight for the fingerprint.
    pub fn levels<T>(&mut self, fingerprint: u64, lookup: Result<CacheLookup<T>, CacheErrorKind>) -> (r:
        Result<(GdcfFuture<T>, RefreshAction), GdcfError>)
        requires
            old(self).wf(),
        ensures
            final(self).wf(),
            match r {
                Ok((f, a)) => {
                    &&& fetch_spec(lookup) == Ok::<FutureModel<T>, GdcfError>(f@)
                    &&& f@.phase == Phase::UpToDate ==> a == RefreshAction::Nothing
                        && final(self).in_flight() == old(self).in_flight()
                    &&& f@.phase == Phase::Refreshing && old(self).in_flight().contains(fingerprint)
                        ==> a == RefreshAction::Join && final(self).in_flight() == old(
                        self,
                    ).in_flight()
                    &&& f@.phase == Phase::Refreshing && !old(self).in_flight().contains(
                        fingerprint,
                    ) ==> a == RefreshAction::Start && final(self).in_flight() == old(
                        self,
                    ).in_flight().insert(fingerprint)
                },
                Err(e) => fetch_spec(lookup) == Err::<FutureModel<T>, GdcfError>(e)
                    && final(self).in_flight() == old(self).in_flight(),
            },
    {
        let f = match lookup {
            Ok(CacheLookup::Fresh(v)) => {
                return Ok((GdcfFuture::up_to_date(v), RefreshAction::Nothing));
            },
            Ok(CacheLookup::Stale(v)) => GdcfFuture::outdated(v),
            Ok(CacheLookup::Missing) => GdcfFuture::absent(),
            Err(CacheErrorKind::Miss) => GdcfFuture::absent(),
            Err(CacheErrorKind::Backend) => {
                return Err(GdcfError::Cache(CacheErrorKind::Backend));
            },
        };
        if self.is_in_flight(fingerprint) {
            Ok((f, RefreshAction::Join))
        } else {
            let ghost before = self.in_flight@;
            self.in_flight.push(fingerprint);
            proof {
                before.lemma_push_to_set_commute(fingerprint);
                assert(self.in_flight@ == before.push(fingerprint));
                assert forall|i: int, j: int|
                    0 <= i < self.in_flight@.len() && 0 <= j < self.in_flight@.len() && i != j
                        implies self.in_flight@[i] != self.in_flight@[j] by {
                    if i < before.len() && j < before.len() {
                    } else if i == before.len() {
                        assert(before.contains(before[j]));
                    } else {
                        assert(before.contains(before[i]));
                    }
                }
            }
            Ok((f, RefreshAction::Start))
        }
    }

    /// Records that the refresh for the fingerprint has completed. The entry
    /// is removed once; the result says whether there was one.
    pub fn complete(&mut self, fingerprint: u64) -> (r: bool)
        requires
            old(self).wf(),
        ensures
            final(self).wf(),
            r == old(self).in_flight().contains(fingerprint),
            final(self).in_flight() == old(self).in_flight().remove(fingerprint),
    {
        match self.position(fingerprint) {
            Some(i) => {
                let ghost before = self.in_flight@;
                self.in_flight.remove(i);
                proof {
                    assert(self.in_flight@ == before.remove(i as int));
                    assert(before.contains(fingerprint));
                    assert forall|x: u64| self.in_flight@.to_set().contains(x)
                        == before.to_set().remove(fingerprint).contains(x) by {
                        if self.in_flight@.contains(x) {
                            let k = choose|k: int| 0 <= k < self.in_flight@.len() && self.in_flight@[k] == x;
                            if k < i {
                                assert(before[k] == x);
                            } else {
                                assert(before[k + 1] == x);
                            }
                            assert(before.contains(x));
                        }
                        if before.contains(x) && x != fingerprint {
                            let k = choose|k: int| 0 <= k < before.len() && before[k] == x;
                            if k < i {
                                assert(self.in_flight@[k] == x);
                            } else {
                                assert(k != i);
                                assert(self.in_flight@[k - 1] == x);
                            }
                        }
                    }
                    assert(self.in_flight@.to_set() =~= before.to_set().remove(fingerprint));
                }
                true
            },
            None => {
                proof {
                    assert(self.in_flight@.to_set() =~= self.in_flight@.to_set().remove(fingerprint));
                }
                false
            },
        }
    }
}

} // verus!
