//! When cached catalog data is out of date.

use vstd::prelude::*;
use crate::text::push_text;
use crate::types::{Anime, Episode};

verus! {

/// The day from which a cache that was never filled counts: 1 January 1980,
/// as its number of days since the day before 1 January of year 1.
pub const NEVER_UPDATED: i32 = 722_815;

/// A cached catalog is out of date once it is older than this many days.
pub const MAX_AGE_DAYS: i64 = 4;

/// A response of the catalog with the day on which it was fetched. Days are
/// counted from the day before 1 January of year 1.
#[derive(Debug)]
pub struct CachedRequest<T> {
    pub data: T,
    pub updated_at: i32,
}

impl<T: Default> Default for CachedRequest<T> {
    fn default() -> (cache: Self)
        ensures
            cache.updated_at == NEVER_UPDATED,
    {
        CachedRequest { data: T::default(), updated_at: NEVER_UPDATED }
    }
}

impl<T> CachedRequest<T> {
    /// Whether the cache is out of date on the day `today`: more than four
    /// days have passed since it was fetched.
    pub open spec fn stale(self, today: i32) -> bool {
        today - self.updated_at > MAX_AGE_DAYS
    }

    /// Whether the cache is out of date on the day `today`.
    pub fn should_update(&self, today: i32) -> (b: bool)
        ensures
            b == self.stale(today),
    {
        (today as i64) - (self.updated_at as i64) > MAX_AGE_DAYS
    }

    /// The cache entry for data that was fetched on the day `today`.
    pub fn fetched(data: T, today: i32) -> (cache: Self)
        ensures
            cache.data == data,
            cache.updated_at == today,
    {
        CachedRequest { data, updated_at: today }
    }
}

/// Where the catalog is taken from.
#[derive(Debug, PartialEq, Eq)]
pub enum CatalogSource {
    /// The cache is fresh: here is its content.
    Cache(Vec<Anime>),
    /// There is no cache, or it is out of date: ask the server, and cache
    /// the answer.
    Remote,
}

/// Decides where the catalog is taken from: from the cache where one could
/// be read and is not out of date, else from the server.
pub fn catalog_source(cache: Option<CachedRequest<Vec<Anime>>>, today: i32) -> (source:
    CatalogSource)
    ensures
        match cache {
            Some(c) if !c.stale(today) => source == CatalogSource::Cache(c.data),
            _ => source == CatalogSource::Remote,
        },
{
    match cache {
        Some(c) => if c.should_update(today) {
            CatalogSource::Remote
        } else {
            CatalogSource::Cache(c.data)
        },
        None => CatalogSource::Remote,
    }
}

/// A point in time: seconds since the Unix epoch, and the nanoseconds into
/// that second.
#[derive(Debug, Clone, Copy, PartialEq, Eq, Structural)]
pub struct Timestamp {
    pub secs: i64,
    pub nanos: u32,
}

/// A span of time: seconds and nanoseconds.
#[derive(Debug, Clone, Copy, PartialEq, Eq, Structural)]
pub struct Interval {
    pub secs: u64,
    pub nanos: u32,
}

impl Timestamp {
    /// Nanoseconds since the Unix epoch.
    pub open spec fn total_nanos(self) -> int {
        self.secs * 1_000_000_000 + self.nanos
    }
}

impl Interval {
    /// The span in nanoseconds.
    pub open spec fn total_nanos(self) -> int {
        self.secs * 1_000_000_000 + self.nanos
    }
}

/// Three days, in seconds.
pub const STORE_INTERVAL_SECS: u64 = 259_200;

/// One hour, one minute and one second after the Unix epoch.
pub const STORE_NEVER_UPDATED_SECS: i64 = 3_661;

/// Data with the time of its last update, the file that keeps it, and the
/// interval after which it is updated.
#[derive(Debug)]
pub struct Store<T> {
    pub data: T,
    pub last_updated: Timestamp,
    pub path: String,
    pub update_intervall: Interval,
}

pub type AnimeStore = Store<Vec<Anime>>;

pub type EpisodeStore = Store<Vec<Episode>>;

impl<T> Store<T> {
    /// Whether the data is to be updated at the time `now`: the time of the
    /// last update is ahead of `now` by more than the interval.
    pub open spec fn due(self, now: Timestamp) -> bool {
        self.last_updated.total_nanos() - now.total_nanos() > self.update_intervall.total_nanos()
    }

    /// Whether the data is to be updated at the time `now`.
    pub fn should_update(&self, now: Timestamp) -> (b: bool)
        ensures
            b == self.due(now),
    {
        let last: i128 = (self.last_updated.secs as i128) * 1_000_000_000
            + self.last_updated.nanos as i128;
        let current: i128 = (now.secs as i128) * 1_000_000_000 + now.nanos as i128;
        let interval: i128 = (self.update_intervall.secs as i128) * 1_000_000_000
            + self.update_intervall.nanos as i128;
        last - current > interval
    }

    /// Replaces the data.
    pub fn update(&mut self, data: T)
        ensures
            final(self).data == data,
            final(self).last_updated == old(self).last_updated,
            final(self).path == old(self).path,
            final(self).update_intervall == old(self).update_intervall,
    {
        self.data = data;
    }
}

/// A store that was never updated, with the interval of three days.
fn empty_store<T>(data: T, path: String) -> (store: Store<T>)
    ensures
        store.data == data,
        store.path == path,
        store.last_updated == (Timestamp { secs: STORE_NEVER_UPDATED_SECS, nanos: 0 }),
        store.update_intervall == (Interval { secs: STORE_INTERVAL_SECS, nanos: 0 }),
{
    Store {
        data,
        last_updated: Timestamp { secs: STORE_NEVER_UPDATED_SECS, nanos: 0 },
        path,
        update_intervall: Interval { secs: STORE_INTERVAL_SECS, nanos: 0 },
    }
}

/// The file that keeps the episodes of a collection.
pub open spec fn episodes_path(title: Seq<char>) -> Seq<char> {
    "./.cache/"@ + title + "/episodes.json"@
}

impl Store<Vec<Anime>> {
    /// The store of the catalog, empty and never updated.
    pub fn new() -> (store: Self)
        ensures
            store.data@.len() == 0,
            store.path@ == "./.cache/animes.json"@,
            store.last_updated == (Timestamp { secs: STORE_NEVER_UPDATED_SECS, nanos: 0 }),
            store.update_intervall == (Interval { secs: STORE_INTERVAL_SECS, nanos: 0 }),
    {
        let mut path = String::new();
        push_text(&mut path, "./.cache/animes.json");
        assert(Seq::<char>::empty() + "./.cache/animes.json"@ == "./.cache/animes.json"@);
        empty_store(Vec::new(), path)
    }
}

impl Store<Vec<Episode>> {
    /// The store of the episodes of a collection, empty and never updated.
    pub fn new(anime: &Anime) -> (store: Self)
        ensures
            store.data@.len() == 0,
            store.path@ == episodes_path(anime.title@),
            store.last_updated == (Timestamp { secs: STORE_NEVER_UPDATED_SECS, nanos: 0 }),
            store.update_intervall == (Interval { secs: STORE_INTERVAL_SECS, nanos: 0 }),
    {
        let mut path = String::new();
        push_text(&mut path, "./.cache/");
        push_text(&mut path, anime.title.as_str());
        push_text(&mut path, "/episodes.json");
        assert(Seq::<char>::empty() + "./.cache/"@ == "./.cache/"@);
        empty_store(Vec::new(), path)
    }
}

} // verus!
