//! The catalog's records: collections, resources and transfer requests.

use vstd::prelude::*;

verus! {

/// A named collection of resources.
#[derive(Debug, PartialEq, Eq)]
pub struct Anime {
    pub id: u64,
    pub title: String,
    pub alt_title: Option<String>,
}

/// One downloadable resource of a collection. `source` is the encrypted
/// locator as the catalog delivers it.
#[derive(Debug, PartialEq, Eq)]
pub struct Episode {
    pub id: u64,
    pub source: String,
    pub number: i64,
    pub anime_id: u64,
}

/// A transfer request: a resource together with the collection that owns it.
#[derive(Debug, PartialEq, Eq)]
pub struct DownloadInfo(pub Anime, pub Episode);

impl Clone for Anime {
    fn clone(&self) -> (r: Self)
        ensures
            r == *self,
    {
        let alt_title = match &self.alt_title {
            Some(t) => Some(t.clone()),
            None => None,
        };
        Anime { id: self.id, title: self.title.clone(), alt_title }
    }
}

impl Clone for Episode {
    fn clone(&self) -> (r: Self)
        ensures
            r == *self,
    {
        Episode {
            id: self.id,
            source: self.source.clone(),
            number: self.number,
            anime_id: self.anime_id,
        }
    }
}

impl Clone for DownloadInfo {
    fn clone(&self) -> (r: Self)
        ensures
            r == *self,
    {
        DownloadInfo(self.0.clone(), self.1.clone())
    }
}

impl Default for Anime {
    fn default() -> (r: Self)
        ensures
            r.id == 0,
            r.title@.len() == 0,
            r.alt_title is None,
    {
        Anime { id: 0, title: String::new(), alt_title: None }
    }
}

impl Default for Episode {
    fn default() -> (r: Self)
        ensures
            r.id == 0,
            r.source@.len() == 0,
            r.number == 0,
            r.anime_id == 0,
    {
        Episode { id: 0, source: String::new(), number: 0, anime_id: 0 }
    }
}

} // verus!
