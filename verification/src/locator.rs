//! Locators: the decrypted path of a resource joined to the catalog's origin.

use vstd::prelude::*;
use crate::cipher::{catalog_secret, decrypt_data, decrypted_path};
use crate::error::TransferError;
use crate::text::push_text;
use crate::title::{clear_title, cleared};
use crate::types::{Anime, Episode};

verus! {

/// The error of `url::Url::parse`.
#[verifier::external_type_specification]
#[verifier::external_body]
pub struct ExUrlParseError(url::ParseError);

/// What `url::Url::parse` makes of a text: the serialization of the address
/// it read, or `None` where it reports an error.
pub uninterp spec fn url_parsed(input: Seq<char>) -> Option<Seq<char>>;

/// Calls `url::Url::parse` and takes the serialization out of the result.
///
/// Trusted: the outcome is a function of the text alone.
#[verifier::external_body]
fn parse_url(input: &str) -> (r: Result<String, url::ParseError>)
    ensures
        match r {
            Ok(href) => url_parsed(input@) == Some(href@),
            Err(_) => url_parsed(input@) is None,
        },
{
    url::Url::parse(input).map(String::from)
}

/// Scheme and host of the catalog.
pub open spec fn origin() -> Seq<char> {
    "https://twist.moe"@
}

/// A fully qualified address from which a resource can be fetched.
#[derive(Debug, Clone, PartialEq, Eq)]
pub struct Locator {
    href: String,
}

impl View for Locator {
    type V = Seq<char>;

    closed spec fn view(&self) -> Seq<char> {
        self.href@
    }
}

impl Locator {
    /// A locator holds the serialization of an address that was read
    /// successfully.
    pub open spec fn wf(&self) -> bool {
        exists|input: Seq<char>| url_parsed(input) == Some(self@)
    }

    /// Reads an address.
    pub fn parse(input: &str) -> (r: Result<Locator, TransferError>)
        ensures
            located(r, url_parsed(input@)),
    {
        match parse_url(input) {
            Ok(href) => Ok(Locator { href }),
            Err(_) => Err(TransferError::InvalidLocator),
        }
    }

    /// The address as text.
    pub fn as_str(&self) -> (text: &str)
        ensures
            text@ == self@,
    {
        self.href.as_str()
    }
}

/// Whether `r` is the locator of a parsed address, or the failure to parse one.
pub open spec fn located(r: Result<Locator, TransferError>, parsed: Option<Seq<char>>) -> bool {
    match parsed {
        Some(href) => r matches Ok(locator) && locator@ == href && locator.wf(),
        None => r == Err::<Locator, TransferError>(TransferError::InvalidLocator),
    }
}

/// The text of the address of a path: the origin followed by the path.
pub fn address_of(path: &str) -> (address: String)
    ensures
        address@ == origin() + path@,
{
    let mut address = String::new();
    push_text(&mut address, "https://twist.moe");
    push_text(&mut address, path);
    assert(Seq::<char>::empty() + origin() == origin());
    address
}

/// Joins a decrypted path to the catalog's origin.
///
/// Fails with `InvalidLocator` exactly when the joined text is no well-formed
/// address.
pub fn resolve(path: &str) -> (r: Result<Locator, TransferError>)
    ensures
        located(r, url_parsed(origin() + path@)),
{
    let address = address_of(path);
    Locator::parse(address.as_str())
}

/// The outcome of resolving what an envelope decrypts to.
pub open spec fn resolved_source(r: Result<Locator, TransferError>, source: Seq<char>) -> bool {
    match decrypted_path(source, catalog_secret()) {
        Ok(path) => located(r, url_parsed(origin() + path)),
        Err(e) => r == Err::<Locator, TransferError>(e.lifted()),
    }
}

/// Decrypts the locator of an episode and resolves it against the origin.
pub fn decrypt_source_url(episode: &Episode) -> (r: Result<Locator, TransferError>)
    ensures
        resolved_source(r, episode.source@),
{
    match decrypt_data(episode.source.as_str()) {
        Ok(path) => resolve(path.as_str()),
        Err(e) => Err(e.into_transfer_error()),
    }
}

/// The address of the list of collections.
pub open spec fn catalog_address() -> Seq<char> {
    "https://twist.moe/api/anime"@
}

/// The address of the episodes of the collection with a title.
pub open spec fn sources_address(title: Seq<char>) -> Seq<char> {
    "https://twist.moe/api/anime/"@ + cleared(title) + "/sources"@
}

/// The locator of the list of collections.
pub fn catalog_locator() -> (r: Result<Locator, TransferError>)
    ensures
        located(r, url_parsed(catalog_address())),
{
    Locator::parse("https://twist.moe/api/anime")
}

/// The locator of the episodes of a collection.
pub fn sources_locator(anime: &Anime) -> (r: Result<Locator, TransferError>)
    ensures
        located(r, url_parsed(sources_address(anime.title@))),
{
    let mut address = String::new();
    push_text(&mut address, "https://twist.moe/api/anime/");
    let slug = clear_title(anime.title.as_str());
    push_text(&mut address, slug.as_str());
    push_text(&mut address, "/sources");
    assert(Seq::<char>::empty() + "https://twist.moe/api/anime/"@
        == "https://twist.moe/api/anime/"@);
    Locator::parse(address.as_str())
}

} // verus!
