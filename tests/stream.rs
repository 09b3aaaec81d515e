use gdcf::error::{ApiErrorKind, CacheErrorKind, GdcfError};
use gdcf::future::{Async, CacheLookup, GdcfFuture};
use gdcf::gdcf::Gdcf2;
use gdcf::request::LevelsRequest;
use gdcf::stream::{GdcfStream, StreamState};

/// Drives a stream over a source whose pages are `pages`, followed by no
/// result; returns what the stream emitted.
fn drive(pages: Vec<Vec<&'static str>>) -> Vec<Result<Async<Option<Vec<&'static str>>>, GdcfError>> {
    let mut gdcf = Gdcf2::new();
    let req = LevelsRequest::new();
    let (fut, _) = gdcf.levels(req.page as u64, Ok(CacheLookup::Missing)).unwrap();
    let mut stream = GdcfStream::new(req, fut);
    let mut out = Vec::new();
    loop {
        let page = stream.request().page as usize;
        let refresh = match pages.get(page) {
            Some(p) => Ok(Async::Ready(p.clone())),
            None => Err(GdcfError::Api(ApiErrorKind::NoResult)),
        };
        let mut r = stream.poll(refresh);
        if stream.state() == StreamState::Advancing {
            gdcf.complete(page as u64);
            let next = stream.request();
            let f = gdcf.levels(next.page as u64, Ok(CacheLookup::Missing)).map(|(f, _)| f);
            r = stream.resume(f);
        }
        let done = matches!(r, Ok(Async::Ready(None)) | Err(_));
        out.push(r);
        if done {
            break;
        }
    }
    out
}

#[test]
fn search_page_then_no_result() {
    let out = drive(vec![vec!["entityA", "entityB"]]);
    assert_eq!(out.len(), 2);
    match &out[0] {
        Ok(Async::Ready(Some(p))) => assert_eq!(p, &vec!["entityA", "entityB"]),
        _ => panic!("first page missing"),
    }
    assert!(matches!(out[1], Ok(Async::Ready(None))));
}

#[test]
fn pages_come_in_cursor_order_then_clean_end() {
    let pages = vec![vec!["a"], vec!["b"], vec!["c"]];
    let out = drive(pages.clone());
    assert_eq!(out.len(), 4);
    for (k, p) in pages.iter().enumerate() {
        match &out[k] {
            Ok(Async::Ready(Some(q))) => assert_eq!(q, p),
            _ => panic!("page {} missing", k),
        }
    }
    assert!(matches!(out[3], Ok(Async::Ready(None))));
}

#[test]
fn empty_source_ends_at_once() {
    let out = drive(vec![]);
    assert_eq!(out.len(), 1);
    assert!(matches!(out[0], Ok(Async::Ready(None))));
}

#[test]
fn other_error_is_emitted_once() {
    let mut stream = GdcfStream::new(LevelsRequest::new(), GdcfFuture::<u8>::absent());
    assert!(matches!(stream.poll(Ok(Async::NotReady)), Ok(Async::NotReady)));
    let r = stream.poll(Err(GdcfError::Api(ApiErrorKind::Transport)));
    assert!(matches!(r, Err(GdcfError::Api(ApiErrorKind::Transport))));
    assert_eq!(stream.state(), StreamState::Exhausted);
    assert!(matches!(stream.poll(Ok(Async::Ready(1))), Ok(Async::Ready(None))));
}

#[test]
fn failed_install_is_emitted_in_place_of_the_page() {
    let mut stream = GdcfStream::new(LevelsRequest::new(), GdcfFuture::up_to_date(3u8));
    assert!(matches!(stream.poll(Ok(Async::NotReady)), Ok(Async::NotReady)));
    assert_eq!(stream.state(), StreamState::Advancing);
    assert_eq!(stream.request().page, 1);
    let r = stream.resume(Err(GdcfError::Cache(CacheErrorKind::Backend)));
    assert!(matches!(r, Err(GdcfError::Cache(CacheErrorKind::Backend))));
    assert_eq!(stream.state(), StreamState::Exhausted);
    assert!(matches!(stream.poll(Ok(Async::NotReady)), Ok(Async::Ready(None))));
}

#[test]
fn installed_fetch_hands_out_the_page() {
    let mut stream = GdcfStream::new(LevelsRequest::new(), GdcfFuture::up_to_date(3u8));
    assert!(matches!(stream.poll(Ok(Async::NotReady)), Ok(Async::NotReady)));
    let r = stream.resume(Ok(GdcfFuture::up_to_date(4u8)));
    assert!(matches!(r, Ok(Async::Ready(Some(3)))));
    assert_eq!(stream.state(), StreamState::Polling);
    assert!(matches!(stream.poll(Ok(Async::NotReady)), Ok(Async::NotReady)));
    assert!(matches!(stream.resume(Ok(GdcfFuture::absent())), Ok(Async::Ready(Some(4)))));
    assert!(matches!(stream.poll(Err(GdcfError::Api(ApiErrorKind::NoResult))), Ok(Async::Ready(None))));
    assert_eq!(stream.state(), StreamState::Ended);
}

#[test]
fn cursor_limit_hands_out_the_last_page_and_stops() {
    let start = LevelsRequest::new().page(u32::MAX);
    let mut stream = GdcfStream::new(start, GdcfFuture::up_to_date(8u8));
    assert!(matches!(stream.poll(Ok(Async::NotReady)), Ok(Async::Ready(Some(8)))));
    assert_eq!(stream.state(), StreamState::CursorLimit);
    assert!(matches!(stream.poll(Ok(Async::NotReady)), Ok(Async::Ready(None))));
}

#[test]
fn request_next_keeps_filters() {
    let mut r = LevelsRequest::new().with_id(4).custom_song(9).page(2);
    r.next();
    assert_eq!(r, LevelsRequest { level_id: Some(4), custom_song: Some(9), page: 3 });
}
