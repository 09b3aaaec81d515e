use gdcf::error::{ApiErrorKind, CacheErrorKind, GdcfError};
use gdcf::future::{Async, CacheLookup, GdcfFuture, Phase};
use gdcf::gdcf::{Gdcf2, RefreshAction};

#[test]
fn fresh_hit_resolves_without_source() {
    let mut gdcf = Gdcf2::new();
    let (mut fut, action) = gdcf.levels(7, Ok(CacheLookup::Fresh(vec![1u32, 2]))).unwrap();
    assert_eq!(action, RefreshAction::Nothing);
    assert!(!fut.needs_refresh());
    assert!(!gdcf.is_in_flight(7));
    // whatever a refresh would give is ignored
    match fut.poll(Err(GdcfError::Api(ApiErrorKind::Transport))) {
        Ok(Async::Ready(v)) => assert_eq!(v, vec![1, 2]),
        _ => panic!("fresh value not handed out"),
    }
    assert_eq!(fut.phase(), Phase::Consumed);
}

#[test]
fn stale_hit_serves_old_then_refreshed() {
    let mut gdcf = Gdcf2::new();
    let (mut fut, action) = gdcf.levels(3, Ok(CacheLookup::Stale("old"))).unwrap();
    assert_eq!(action, RefreshAction::Start);
    assert_eq!(fut.cached(), &Some("old"));
    assert!(fut.needs_refresh());
    assert!(matches!(fut.poll(Ok(Async::NotReady)), Ok(Async::NotReady)));
    assert_eq!(fut.cached(), &Some("old"));
    assert!(matches!(fut.poll(Ok(Async::Ready("new"))), Ok(Async::Ready("new"))));
    assert_eq!(fut.phase(), Phase::Consumed);
}

#[test]
fn miss_needs_refresh_for_any_value() {
    let mut gdcf = Gdcf2::new();
    let (mut fut, action) = gdcf.levels::<u8>(4, Ok(CacheLookup::Missing)).unwrap();
    assert_eq!(action, RefreshAction::Start);
    assert_eq!(fut.cached(), &None);
    assert!(matches!(fut.poll(Ok(Async::NotReady)), Ok(Async::NotReady)));
    assert!(matches!(fut.poll(Ok(Async::Ready(9))), Ok(Async::Ready(9))));
}

#[test]
fn cache_miss_error_is_treated_as_missing() {
    let mut gdcf = Gdcf2::new();
    let (fut, action) = gdcf.levels::<u8>(4, Err(CacheErrorKind::Miss)).unwrap();
    assert_eq!(action, RefreshAction::Start);
    assert_eq!(fut.cached(), &None);
}

#[test]
fn backend_failure_is_surfaced() {
    let mut gdcf = Gdcf2::new();
    let r = gdcf.levels::<u8>(4, Err(CacheErrorKind::Backend));
    assert!(matches!(r, Err(GdcfError::Cache(CacheErrorKind::Backend))));
    assert!(!gdcf.is_in_flight(4));
}

#[test]
fn refresh_error_propagates_once() {
    let mut fut: GdcfFuture<u8> = GdcfFuture::absent();
    let r = fut.poll(Err(GdcfError::Api(ApiErrorKind::Malformed)));
    assert!(matches!(r, Err(GdcfError::Api(ApiErrorKind::Malformed))));
    assert_eq!(fut.phase(), Phase::Consumed);
}

#[test]
fn concurrent_fetches_of_one_fingerprint_share_the_refresh() {
    let mut gdcf = Gdcf2::new();
    let (_, first) = gdcf.levels::<u8>(11, Ok(CacheLookup::Missing)).unwrap();
    let (_, second) = gdcf.levels::<u8>(11, Ok(CacheLookup::Stale(1))).unwrap();
    let (_, other) = gdcf.levels::<u8>(12, Ok(CacheLookup::Missing)).unwrap();
    assert_eq!(first, RefreshAction::Start);
    assert_eq!(second, RefreshAction::Join);
    assert_eq!(other, RefreshAction::Start);
    assert!(gdcf.complete(11));
    assert!(!gdcf.complete(11));
    assert!(!gdcf.is_in_flight(11));
    assert!(gdcf.is_in_flight(12));
    let (_, again) = gdcf.levels::<u8>(11, Ok(CacheLookup::Missing)).unwrap();
    assert_eq!(again, RefreshAction::Start);
}

#[test]
fn take_moves_the_cached_value_out() {
    let mut fut = GdcfFuture::outdated(5u8);
    assert_eq!(fut.take(), Some(5));
    assert_eq!(fut.take(), None);
    assert!(fut.needs_refresh());
}
