use std::collections::HashMap;

use gdcf::error::{ApiErrorKind, CacheErrorKind, GdcfError};
use gdcf::future::{Async, CacheLookup};
use gdcf::gdcf::{Gdcf2, RefreshAction};
use gdcf::integrity::{integrity, join_sub_fetches};
use gdcf::model::{collect_song_references, split_response, GDObject, Level, NewgroundsSong, PartialLevel};
use gdcf::refresh::LevelsRefresh;
use gdcf::request::{sub_request, LevelsRequest};

fn level(id: u64, song: Option<u64>) -> GDObject {
    GDObject::Level(Level {
        base: PartialLevel { level_id: id, name: format!("level {}", id), custom_song_id: song },
        level_data: String::new(),
    })
}

fn song(id: u64) -> GDObject {
    GDObject::NewgroundsSong(NewgroundsSong { song_id: id, name: format!("song {}", id) })
}

#[test]
fn references_are_collected_in_order() {
    let batch = vec![level(1, Some(10)), level(2, None), song(10), level(3, Some(30))];
    assert_eq!(collect_song_references(&batch), vec![(1, 10), (3, 30)]);
}

#[test]
fn missing_songs_get_sub_requests() {
    let batch = vec![level(1, Some(10)), level(2, Some(20)), level(3, Some(30))];
    let lookups = vec![Err(CacheErrorKind::Miss), Ok(()), Err(CacheErrorKind::Miss)];
    let reqs = integrity(&batch, &lookups).unwrap();
    assert_eq!(reqs, vec![sub_request(1, 10), sub_request(3, 30)]);
    assert_eq!(
        reqs[0],
        LevelsRequest { level_id: Some(1), custom_song: Some(10), page: 0 }
    );
}

#[test]
fn no_reference_needs_no_sub_request() {
    let batch = vec![level(1, None), song(4)];
    assert_eq!(integrity(&batch, &vec![]).unwrap(), vec![]);
}

#[test]
fn backend_failure_short_circuits_the_pass() {
    let batch = vec![level(1, Some(10)), level(2, Some(20)), level(3, Some(30))];
    let lookups = vec![Err(CacheErrorKind::Miss), Err(CacheErrorKind::Backend), Err(CacheErrorKind::Miss)];
    assert_eq!(integrity(&batch, &lookups), Err(GdcfError::Cache(CacheErrorKind::Backend)));
}

#[test]
fn join_returns_batch_after_all_complete() {
    let batch = vec![level(1, Some(10))];
    let r = join_sub_fetches(batch, &vec![Ok(()), Ok(())]).unwrap();
    assert_eq!(r.len(), 1);
    let r = join_sub_fetches(
        vec![level(1, Some(10))],
        &vec![Ok(()), Err(GdcfError::Api(ApiErrorKind::Transport)), Err(GdcfError::Cache(CacheErrorKind::Backend))],
    );
    assert!(matches!(r, Err(GdcfError::Api(ApiErrorKind::Transport))));
}

#[test]
fn split_keeps_partial_levels_and_stores_the_rest() {
    let batch = vec![
        GDObject::PartialLevel(PartialLevel { level_id: 1, name: "a".to_string(), custom_song_id: None }),
        song(5),
        GDObject::PartialLevel(PartialLevel { level_id: 2, name: "b".to_string(), custom_song_id: Some(5) }),
    ];
    let (levels, others) = split_response(batch);
    assert_eq!(levels.iter().map(|l| l.level_id).collect::<Vec<_>>(), vec![1, 2]);
    assert_eq!(others.len(), 1);
    assert!(matches!(others[0], GDObject::NewgroundsSong(NewgroundsSong { song_id: 5, .. })));
}

/// A fetch of a level that references an uncached song stores the song
/// before the fetch resolves.
#[test]
fn referenced_song_is_stored_before_fetch_resolves() {
    let mut cache: HashMap<u64, ()> = HashMap::new();
    let mut stores: Vec<String> = Vec::new();
    let mut gdcf = Gdcf2::new();
    let f: u64 = 100;

    let (mut fut, action) = gdcf.levels::<Vec<GDObject>>(f, Ok(CacheLookup::Missing)).unwrap();
    assert_eq!(action, RefreshAction::Start);
    assert!(fut.cached().is_none());

    // the source answers the request with a level that uses song 77
    let batch = vec![level(1, Some(77))];
    let refs = collect_song_references(&batch);
    let lookups: Vec<Result<(), CacheErrorKind>> = refs
        .iter()
        .map(|(_, s)| if cache.contains_key(s) { Ok(()) } else { Err(CacheErrorKind::Miss) })
        .collect();
    let subs = integrity(&batch, &lookups).unwrap();
    assert_eq!(subs, vec![sub_request(1, 77)]);

    // the sub-fetch: nothing cached for it, the source returns the song
    let mut outcomes = Vec::new();
    for (k, _) in subs.iter().enumerate() {
        let sub_fp = 1000 + k as u64;
        let (mut sub, sub_action) = gdcf.levels::<Vec<GDObject>>(sub_fp, Ok(CacheLookup::Missing)).unwrap();
        assert_eq!(sub_action, RefreshAction::Start);
        let (_, others) = split_response(vec![song(77)]);
        for o in &others {
            if let GDObject::NewgroundsSong(s) = o {
                cache.insert(s.song_id, ());
                stores.push(format!("song {}", s.song_id));
            }
        }
        assert!(matches!(sub.poll(Ok(Async::Ready(others))), Ok(Async::Ready(_))));
        assert!(gdcf.complete(sub_fp));
        outcomes.push(Ok(()));
    }
    let joined = join_sub_fetches(batch, &outcomes).unwrap();
    stores.push(format!("request {}", f));
    assert!(gdcf.complete(f));
    assert!(matches!(fut.poll(Ok(Async::Ready(joined))), Ok(Async::Ready(_))));

    assert!(cache.contains_key(&77));
    assert_eq!(stores, vec!["song 77".to_string(), "request 100".to_string()]);
}

#[test]
fn refresh_steps_from_response_to_levels() {
    let partial = GDObject::PartialLevel(PartialLevel { level_id: 9, name: "p".to_string(), custom_song_id: Some(3) });
    let (refresh, refs) = LevelsRefresh::on_response(Ok(vec![partial, level(1, Some(77)), song(3)])).unwrap();
    assert_eq!(refs, vec![(1, 77)]);
    let subs = refresh.on_lookups(&vec![Err(CacheErrorKind::Miss)]).unwrap();
    assert_eq!(subs, vec![sub_request(1, 77)]);
    assert!(refresh.on_lookups(&vec![Err(CacheErrorKind::Backend)]).is_err());
    let (levels, others) = refresh.on_sub_fetches(&vec![Ok(())]).unwrap();
    assert_eq!(levels.len(), 1);
    assert_eq!(levels[0].level_id, 9);
    assert_eq!(others.len(), 2);
    let done = LevelsRefresh::on_stored(levels, Ok(())).unwrap();
    assert_eq!(done[0].name, "p");
    let failed = LevelsRefresh::on_stored(vec![], Err(CacheErrorKind::Backend));
    assert_eq!(failed.unwrap_err(), GdcfError::Cache(CacheErrorKind::Backend));
    assert!(matches!(
        LevelsRefresh::on_response(Err(ApiErrorKind::NoResult)),
        Err(GdcfError::Api(ApiErrorKind::NoResult))
    ));
}
