use vstd::prelude::*;
use crate::error::GdcfError;

verus! {

/// The state of a cache entry, evaluated at lookup time.
#[derive(Clone, Debug)]
pub enum CacheLookup<T> {
    Missing,
    Fresh(T),
    Stale(T),
}

/// The outcome of one poll: a value, or not yet.
#[derive(Clone, Debug)]
pub enum Async<T> {
    NotReady,
    Ready(T),
}

/// Where a fetch result stands.
#[derive(Clone, Copy, Debug, PartialEq, Eq, Structural)]
pub enum Phase {
    /// No refresh: the next poll hands out the cached value.
    UpToDate,
    /// A refresh operation is in flight: polls are delegated to it.
    Refreshing,
    /// The result has resolved; it may not be polled again.
    Consumed,
}

/// What a fetch result holds, as a mathematical value.
pub struct FutureModel<T> {
    pub cached: Option<T>,
    pub phase: Phase,
}

/// The result of one fetch: the value known now, if any, and whether a
/// refresh operation (driven by the caller) is pending.
pub struct GdcfFuture<T> {
    cached: Option<T>,
    phase: Phase,
}

impl<T> View for GdcfFuture<T> {
    type V = FutureModel<T>;

    closed spec fn view(&self) -> FutureModel<T> {
        FutureModel { cached: self.cached, phase: self.phase }
    }
}

/// A fetch result is well formed when one without refresh holds a value.
pub open spec fn future_wf<T>(m: FutureModel<T>) -> bool {
    m.phase == Phase::UpToDate ==> m.cached is Some
}

/// What one poll does, given what polling the refresh operation gave
/// (ignored where there is none).
pub open spec fn poll_spec<T>(m: FutureModel<T>, refresh: Result<Async<T>, GdcfError>) -> (
    FutureModel<T>,
    Result<Async<T>, GdcfError>,
) {
    match m.phase {
        Phase::UpToDate => (
            FutureModel { cached: None, phase: Phase::Consumed },
            Ok(Async::Ready(m.cached->0)),
        ),
        _ => match refresh {
            Ok(Async::NotReady) => (m, Ok(Async::NotReady)),
            other => (FutureModel { cached: m.cached, phase: Phase::Consumed }, other),
        },
    }
}

impl<T> GdcfFuture<T> {
    /// A fresh cached value; no refresh.
    pub fn up_to_date(object: T) -> (r: Self)
        ensures
            r@ == (FutureModel { cached: Some(object), phase: Phase::UpToDate }),
    {
        GdcfFuture { cached: Some(object), phase: Phase::UpToDate }
    }

    /// A stale cached value, with a refresh in flight.
    pub fn outdated(object: T) -> (r: Self)
        ensures
            r@ == (FutureModel { cached: Some(object), phase: Phase::Refreshing }),
    {
        GdcfFuture { cached: Some(object), phase: Phase::Refreshing }
    }

    /// Nothing cached, with a refresh in flight.
    pub fn absent() -> (r: Self)
        ensures
            r@ == (FutureModel::<T> { cached: None, phase: Phase::Refreshing }),
    {
        GdcfFuture { cached: None, phase: Phase::Refreshing }
    }

    /// The value known now, whatever the state of the refresh.
    pub fn cached(&self) -> (r: &Option<T>)
        ensures
            *r == self@.cached,
    {
        &self.cached
    }

    /// Moves the value known now out.
    pub fn take(&mut self) -> (r: Option<T>)
        ensures
            r == old(self)@.cached,
            final(self)@ == (FutureModel::<T> { cached: None, phase: old(self)@.phase }),
    {
        let r = self.cached.take();
        r
    }

    /// Where the result stands.
    pub fn phase(&self) -> (r: Phase)
        ensures
            r == self@.phase,
    {
        self.phase
    }

    /// Whether the caller must poll the refresh operation before polling this.
    pub fn needs_refresh(&self) -> (r: bool)
        ensures
            r == (self@.phase == Phase::Refreshing),
    {
        match self.phase {
            Phase::Refreshing => true,
            _ => false,
        }
    }

    /// Polls the result. `refresh` is what polling the refresh operation gave;
    /// it is ignored when there is none. Without refresh the cached value is
    /// handed out at once; with one, its outcome is handed on, and the result
    /// is consumed once that outcome is final.
    pub fn poll(&mut self, refresh: Result<Async<T>, GdcfError>) -> (r: Result<Async<T>, GdcfError>)
        requires
            future_wf(old(self)@),
            old(self)@.phase != Phase::Consumed,
        ensures
            (final(self)@, r) == poll_spec(old(self)@, refresh),
            future_wf(final(self)@),
    {
        match self.phase {
            Phase::UpToDate => {
                let v = self.take().unwrap();
                self.phase = Phase::Consumed;
                Ok(Async::Ready(v))
            },
            _ => {
                match refresh {
                    Ok(Async::NotReady) => Ok(Async::NotReady),
                    other => {
                        self.phase = Phase::Consumed;
                        other
                    },
                }
            },
        }
    }
}

} // verus!
