use twist_dl::cache::{
    catalog_source, AnimeStore, CachedRequest, CatalogSource, EpisodeStore, Interval, Store,
    Timestamp, MAX_AGE_DAYS, NEVER_UPDATED, STORE_INTERVAL_SECS, STORE_NEVER_UPDATED_SECS,
};
use twist_dl::message::Notice;
use twist_dl::notification::{Notification, ROWS};
use twist_dl::types::Anime;

fn anime(title: &str) -> Anime {
    Anime { id: 1, title: title.to_string(), alt_title: None }
}

#[test]
fn a_cache_that_was_never_filled_dates_from_1980() {
    let cache: CachedRequest<Vec<Anime>> = CachedRequest::default();
    assert!(cache.data.is_empty());
    assert_eq!(cache.updated_at, 722_815);
    assert_eq!(NEVER_UPDATED, 722_815);
    assert_eq!(MAX_AGE_DAYS, 4);
}

#[test]
fn a_cache_is_stale_after_more_than_four_days() {
    let cache = CachedRequest::fetched(vec![anime("a")], 738_000);
    assert_eq!(cache.updated_at, 738_000);
    assert!(!cache.should_update(738_000));
    assert!(!cache.should_update(738_004));
    assert!(cache.should_update(738_005));
    assert!(cache.should_update(739_000));
    assert!(!cache.should_update(737_000));
}

#[test]
fn staleness_has_no_overflow() {
    let old = CachedRequest::fetched((), i32::MIN);
    assert!(old.should_update(i32::MAX));
    let ahead = CachedRequest::fetched((), i32::MAX);
    assert!(!ahead.should_update(i32::MIN));
}

#[test]
fn the_catalog_comes_from_a_fresh_cache() {
    let cache = CachedRequest::fetched(vec![anime("a"), anime("b")], 738_000);
    assert_eq!(
        catalog_source(Some(cache), 738_004),
        CatalogSource::Cache(vec![anime("a"), anime("b")])
    );
}

#[test]
fn the_catalog_comes_from_the_server_otherwise() {
    let cache = CachedRequest::fetched(vec![anime("a")], 738_000);
    assert_eq!(catalog_source(Some(cache), 738_005), CatalogSource::Remote);
    assert_eq!(catalog_source(None, 738_000), CatalogSource::Remote);
    assert_eq!(catalog_source(Some(CachedRequest::default()), 738_000), CatalogSource::Remote);
}

#[test]
fn the_store_of_the_catalog() {
    let store = AnimeStore::new();
    assert!(store.data.is_empty());
    assert_eq!(store.path, "./.cache/animes.json");
    assert_eq!(store.last_updated, Timestamp { secs: 3_661, nanos: 0 });
    assert_eq!(store.update_intervall, Interval { secs: 259_200, nanos: 0 });
    assert_eq!(STORE_INTERVAL_SECS, 60 * 60 * 24 * 3);
    assert_eq!(STORE_NEVER_UPDATED_SECS, 3600 + 60 + 1);
}

#[test]
fn the_store_of_the_episodes_of_a_collection() {
    let store = EpisodeStore::new(&anime("Attack on Titan"));
    assert!(store.data.is_empty());
    assert_eq!(store.path, "./.cache/Attack on Titan/episodes.json");
    assert_eq!(store.last_updated, Timestamp { secs: 3_661, nanos: 0 });
    assert_eq!(store.update_intervall, Interval { secs: 259_200, nanos: 0 });
}

#[test]
fn a_store_is_due_when_its_update_lies_ahead_by_more_than_the_interval() {
    let store = Store {
        data: 0u8,
        last_updated: Timestamp { secs: 1_000_000, nanos: 500 },
        path: String::new(),
        update_intervall: Interval { secs: 100, nanos: 0 },
    };
    assert!(!store.should_update(Timestamp { secs: 2_000_000, nanos: 0 }));
    assert!(!store.should_update(Timestamp { secs: 1_000_000, nanos: 500 }));
    assert!(!store.should_update(Timestamp { secs: 999_900, nanos: 500 }));
    assert!(store.should_update(Timestamp { secs: 999_900, nanos: 499 }));
    assert!(store.should_update(Timestamp { secs: 0, nanos: 0 }));
}

#[test]
fn due_has_no_overflow() {
    let store = Store {
        data: (),
        last_updated: Timestamp { secs: i64::MAX, nanos: u32::MAX },
        path: String::new(),
        update_intervall: Interval { secs: u64::MAX, nanos: u32::MAX },
    };
    assert!(!store.should_update(Timestamp { secs: i64::MIN, nanos: 0 }));
    let store = Store {
        data: (),
        last_updated: Timestamp { secs: i64::MAX, nanos: 0 },
        path: String::new(),
        update_intervall: Interval { secs: 0, nanos: 0 },
    };
    assert!(store.should_update(Timestamp { secs: i64::MIN, nanos: 0 }));
}

#[test]
fn updating_a_store_replaces_its_data_only() {
    let mut store = AnimeStore::new();
    store.update(vec![anime("a")]);
    assert_eq!(store.data, vec![anime("a")]);
    assert_eq!(store.path, "./.cache/animes.json");
    assert_eq!(store.last_updated, Timestamp { secs: 3_661, nanos: 0 });
}

#[test]
fn the_notification_area_starts_with_ten_empty_rows() {
    let area = Notification::new();
    assert_eq!(ROWS, 10);
    assert_eq!(area.len(), 10);
    for i in 0..10 {
        assert_eq!(area.row(i), None);
    }
    assert_eq!(Notification::default().len(), 10);
}

#[test]
fn the_notification_area_scrolls() {
    let mut area = Notification::new();
    area.update(Notice::Starting);
    assert_eq!(area.len(), 10);
    assert_eq!(area.row(9), Some(&Notice::Starting));
    assert_eq!(area.row(8), None);
    area.update(Notice::Finished);
    assert_eq!(area.row(9), Some(&Notice::Finished));
    assert_eq!(area.row(8), Some(&Notice::Starting));
    for _ in 0..8 {
        area.update(Notice::UnknownSize);
    }
    assert_eq!(area.row(0), Some(&Notice::Starting));
    assert_eq!(area.row(1), Some(&Notice::Finished));
    assert_eq!(area.row(9), Some(&Notice::UnknownSize));
    area.update(Notice::Selected(anime("a")));
    assert_eq!(area.row(0), Some(&Notice::Finished));
    assert_eq!(area.row(9), Some(&Notice::Selected(anime("a"))));
    assert_eq!(area.len(), 10);
}

#[test]
fn rows_beyond_the_area_are_empty() {
    let mut area = Notification::new();
    area.update(Notice::Starting);
    assert_eq!(area.row(10), None);
    assert_eq!(area.row(usize::MAX), None);
}
