use vstd::prelude::*;
use crate::error::{ApiErrorKind, GdcfError};
use crate::future::{Async, FutureModel, GdcfFuture, Phase, future_wf, poll_spec};
use crate::request::LevelsRequest;

verus! {

/// Where a pagination stream stands.
#[derive(Clone, Copy, Debug, PartialEq, Eq, Structural)]
pub enum StreamState {
    /// The fetch of the current page is pending.
    Polling,
    /// A page has resolved and the cursor has advanced; the page is handed
    /// out once the fetch of the next page is installed (`resume`).
    Advancing,
    /// Clean end of the stream: the source has no further results.
    Ended,
    /// The cursor stands at the largest page number and cannot advance: the
    /// page there was handed out and nothing more comes. This is no signal of
    /// the source.
    CursorLimit,
    /// An error was emitted; nothing more comes.
    Exhausted,
}

pub struct StreamModel<T> {
    pub request: LevelsRequest,
    pub current: FutureModel<T>,
    pub state: StreamState,
    /// The resolved page that waits for the next fetch to be installed.
    pub pending: Option<T>,
}

/// A stream over the pages of a request, driven page after page in cursor
/// order. After each resolved page the caller installs the fetch of the next
/// page (`resume`), which hands the page out, or the failure to build that
/// fetch in its place.
pub struct GdcfStream<T> {
    request: LevelsRequest,
    current: GdcfFuture<T>,
    state: StreamState,
    pending: Option<T>,
}

pub open spec fn stream_wf<T>(s: StreamModel<T>) -> bool {
    &&& s.state == StreamState::Polling ==> future_wf(s.current) && s.current.phase != Phase::Consumed
    &&& (s.state == StreamState::Advancing <==> s.pending is Some)
}

/// What one poll of the stream does, given what polling the current fetch's
/// refresh operation gave (ignored where there is none).
pub open spec fn stream_poll_spec<T>(s: StreamModel<T>, refresh: Result<Async<T>, GdcfError>) -> (
    StreamModel<T>,
    Result<Async<Option<T>>, GdcfError>,
) {
    match s.state {
        StreamState::Polling => {
            let (m, out) = poll_spec(s.current, refresh);
            match out {
                Ok(Async::NotReady) => (StreamModel { current: m, ..s }, Ok(Async::NotReady)),
                Ok(Async::Ready(page)) => if s.request.page < u32::MAX {
                    (
                        StreamModel {
                            request: LevelsRequest { page: (s.request.page + 1) as u32, ..s.request },
                            current: m,
                            state: StreamState::Advancing,
                            pending: Some(page),
                        },
                        Ok(Async::NotReady),
                    )
                } else {
                    (
                        StreamModel { current: m, state: StreamState::CursorLimit, ..s },
                        Ok(Async::Ready(Some(page))),
                    )
                },
                Err(GdcfError::Api(ApiErrorKind::NoResult)) => (
                    StreamModel { current: m, state: StreamState::Ended, ..s },
                    Ok(Async::Ready(None)),
                ),
                Err(e) => (StreamModel { current: m, state: StreamState::Exhausted, ..s }, Err(e)),
            }
        },
        _ => (s, Ok(Async::Ready(None))),
    }
}

/// What installing the next page's fetch (or the failure to build it) does:
/// the page that waits is handed out, or the failure is, in its place.
pub open spec fn resume_spec<T>(s: StreamModel<T>, next: Result<FutureModel<T>, GdcfError>) -> (
    StreamModel<T>,
    Result<Async<Option<T>>, GdcfError>,
) {
    match next {
        Ok(m) => (
            StreamModel { current: m, state: StreamState::Polling, pending: None, ..s },
            Ok(Async::Ready(Some(s.pending->0))),
        ),
        Err(e) => (StreamModel { state: StreamState::Exhausted, pending: None, ..s }, Err(e)),
    }
}

impl<T> View for GdcfStream<T> {
    type V = StreamModel<T>;

    closed spec fn view(&self) -> StreamModel<T> {
        StreamModel {
            request: self.request,
            current: self.current@,
            state: self.state,
            pending: self.pending,
        }
    }
}

impl<T> GdcfStream<T> {
    /// A stream that starts at `request`, whose fetch is `current`.
    pub fn new(request: LevelsRequest, current: GdcfFuture<T>) -> (r: Self)
        requires
            future_wf(current@),
            current@.phase != Phase::Consumed,
        ensures
            r@ == (StreamModel {
                request: request,
                current: current@,
                state: StreamState::Polling,
                pending: None,
            }),
            stream_wf(r@),
    {
        GdcfStream { request, current, state: StreamState::Polling, pending: None }
    }

    /// The request of the page whose fetch is pending, or of the next page
    /// once a page has resolved.
    pub fn request(&self) -> (r: LevelsRequest)
        ensures
            r == self@.request,
    {
        self.request
    }

    pub fn state(&self) -> (r: StreamState)
        ensures
            r == self@.state,
    {
        self.state
    }

    /// Whether the caller must poll the current fetch's refresh operation
    /// before polling the stream.
    pub fn needs_refresh(&self) -> (r: bool)
        ensures
            r == (self@.state == StreamState::Polling && self@.current.phase == Phase::Refreshing),
    {
        match self.state {
            StreamState::Polling => self.current.needs_refresh(),
            _ => false,
        }
    }

    /// Polls the stream: not yet, a clean end (`Ready(None)`), one error
    /// after which the stream is exhausted, or a resolved page, after which
    /// the stream is advancing and `resume` hands the page out.
    pub fn poll(&mut self, refresh: Result<Async<T>, GdcfError>) -> (r: Result<Async<Option<T>>, GdcfError>)
        requires
            stream_wf(old(self)@),
            old(self)@.state != StreamState::Advancing,
        ensures
            (final(self)@, r) == stream_poll_spec(old(self)@, refresh),
            stream_wf(final(self)@),
    {
        match self.state {
            StreamState::Polling => {
                match self.current.poll(refresh) {
                    Ok(Async::NotReady) => Ok(Async::NotReady),
                    Ok(Async::Ready(page)) => {
                        if self.request.page < u32::MAX {
                            self.request.next();
                            self.state = StreamState::Advancing;
                            self.pending = Some(page);
                            Ok(Async::NotReady)
                        } else {
                            self.state = StreamState::CursorLimit;
                            Ok(Async::Ready(Some(page)))
                        }
                    },
                    Err(e) => {
                        match e {
                            GdcfError::Api(ApiErrorKind::NoResult) => {
                                self.state = StreamState::Ended;
                                Ok(Async::Ready(None))
                            },
                            _ => {
                                self.state = StreamState::Exhausted;
                                Err(e)
                            },
                        }
                    },
                }
            },
            _ => Ok(Async::Ready(None)),
        }
    }

    /// Installs the fetch of the next page and hands out the page that
    /// resolved; where building that fetch failed, the failure comes out in
    /// place of the page and the stream is exhausted.
    pub fn resume(&mut self, next: Result<GdcfFuture<T>, GdcfError>) -> (r: Result<Async<Option<T>>, GdcfError>)
        requires
            stream_wf(old(self)@),
            old(self)@.state == StreamState::Advancing,
            next matches Ok(f) ==> future_wf(f@) && f@.phase != Phase::Consumed,
        ensures
            (final(self)@, r) == resume_spec(
                old(self)@,
                match next {
                    Ok(f) => Ok::<FutureModel<T>, GdcfError>(f@),
                    Err(e) => Err::<FutureModel<T>, GdcfError>(e),
                },
            ),
            stream_wf(final(self)@),
    {
        let page = self.pending.take().unwrap();
        match next {
            Ok(f) => {
                self.current = f;
                self.state = StreamState::Polling;
                Ok(Async::Ready(Some(page)))
            },
            Err(e) => {
                self.state = StreamState::Exhausted;
                Err(e)
            },
        }
    }
}

} // verus!
