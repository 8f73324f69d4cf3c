//! What a transfer asks of the network and of the disk: the request headers,
//! the range to resume from, and the place of the target file.

use vstd::prelude::*;
use crate::decimal::{decimal, push_decimal, push_signed_decimal, signed_decimal};
use crate::error::TransferError;
use crate::locator::{decrypt_source_url, resolved_source, Locator};
use crate::text::push_text;
use crate::title::{clear_title, cleared};
use crate::types::{Anime, Episode};

verus! {

/// One header of a request.
#[derive(Debug, PartialEq, Eq)]
pub struct Header {
    pub name: String,
    pub value: String,
}

impl View for Header {
    type V = (Seq<char>, Seq<char>);

    open spec fn view(&self) -> (Seq<char>, Seq<char>) {
        (self.name@, self.value@)
    }
}

/// Names and values of a list of headers.
pub open spec fn header_views(headers: Seq<Header>) -> Seq<(Seq<char>, Seq<char>)> {
    headers.map_values(|h: Header| h@)
}

/// The headers that every request to the catalog carries.
pub open spec fn base_headers() -> Seq<(Seq<char>, Seq<char>)> {
    seq![
        ("Referer"@, "https://twist.moe/"@),
        (
            "user-agent"@,
            "Mozilla/5.0 (iPhone; CPU iPhone OS 12_2 like Mac OS X) AppleWebKit/605.1.15 (KHTML, like Gecko) Mobile/15E148"@,
        ),
        ("x-access-token"@, "1rj2vRtegS8Y60B3w3qNZm5T2Q0TN2NR"@),
        ("cache-control"@, "max-age=1000"@),
    ]
}

/// The value of a range header that asks for everything from `offset` on.
pub open spec fn range_value(offset: nat) -> Seq<char> {
    "bytes="@ + decimal(offset) + "-"@
}

/// The headers of a transfer request when the target file already holds
/// `existing_len` bytes: the base headers, and a range header that starts at
/// `existing_len` exactly when the file is not empty.
pub open spec fn transfer_headers(existing_len: nat) -> Seq<(Seq<char>, Seq<char>)> {
    if existing_len > 0 {
        base_headers().push(("range"@, range_value(existing_len)))
    } else {
        base_headers()
    }
}

/// Builds a header from two texts.
pub fn header(name: &str, value: &str) -> (h: Header)
    ensures
        h@ == (name@, value@),
{
    let mut n = String::new();
    push_text(&mut n, name);
    let mut v = String::new();
    push_text(&mut v, value);
    assert(Seq::<char>::empty() + name@ == name@);
    assert(Seq::<char>::empty() + value@ == value@);
    Header { name: n, value: v }
}

/// The headers that every request to the catalog carries.
pub fn construct_header() -> (headers: Vec<Header>)
    ensures
        header_views(headers@) == base_headers(),
{
    let mut headers: Vec<Header> = Vec::new();
    headers.push(header("Referer", "https://twist.moe/"));
    headers.push(
        header(
            "user-agent",
            "Mozilla/5.0 (iPhone; CPU iPhone OS 12_2 like Mac OS X) AppleWebKit/605.1.15 (KHTML, like Gecko) Mobile/15E148",
        ),
    );
    headers.push(header("x-access-token", "1rj2vRtegS8Y60B3w3qNZm5T2Q0TN2NR"));
    headers.push(header("cache-control", "max-age=1000"));
    assert(header_views(headers@) =~= base_headers());
    headers
}

/// The range header that resumes a transfer at `offset`.
pub fn range_header(offset: u64) -> (h: Header)
    ensures
        h@ == ("range"@, range_value(offset as nat)),
{
    let mut value = String::new();
    push_text(&mut value, "bytes=");
    push_decimal(&mut value, offset);
    push_text(&mut value, "-");
    let mut name = String::new();
    push_text(&mut name, "range");
    assert(Seq::<char>::empty() + "range"@ == "range"@);
    assert(Seq::<char>::empty() + "bytes="@ == "bytes="@);
    Header { name, value }
}

/// The headers of a transfer request when the target file already holds
/// `existing_len` bytes.
pub fn request_headers(existing_len: u64) -> (headers: Vec<Header>)
    ensures
        header_views(headers@) == transfer_headers(existing_len as nat),
{
    let mut headers = construct_header();
    if existing_len > 0 {
        let ghost before = headers@;
        headers.push(range_header(existing_len));
        assert(header_views(headers@) =~= header_views(before).push(
            ("range"@, range_value(existing_len as nat)),
        ));
    }
    headers
}

/// Where the file of a resource lies: a directory, and a file name in it.
#[derive(Debug, PartialEq, Eq)]
pub struct Target {
    pub directory: String,
    pub file_name: String,
}

/// The directory that holds the files of a collection.
pub open spec fn directory_of(title: Seq<char>) -> Seq<char> {
    "./animes/"@ + cleared(title)
}

/// The file name of the resource with a sequence number.
pub open spec fn file_name_of(number: int) -> Seq<char> {
    signed_decimal(number) + ".mp4"@
}

/// The place of the file of a resource: it depends on the title of the
/// collection and the sequence number of the resource alone.
pub fn target(anime: &Anime, episode: &Episode) -> (t: Target)
    ensures
        t.directory@ == directory_of(anime.title@),
        t.file_name@ == file_name_of(episode.number as int),
{
    let mut directory = String::new();
    push_text(&mut directory, "./animes/");
    let slug = clear_title(anime.title.as_str());
    push_text(&mut directory, slug.as_str());
    let mut file_name = String::new();
    push_signed_decimal(&mut file_name, episode.number);
    push_text(&mut file_name, ".mp4");
    assert(Seq::<char>::empty() + "./animes/"@ == "./animes/"@);
    assert(Seq::<char>::empty() + signed_decimal(episode.number as int) == signed_decimal(
        episode.number as int,
    ));
    Target { directory, file_name }
}

/// A request for the body of a resource.
#[derive(Debug)]
pub struct Request {
    pub locator: Locator,
    pub headers: Vec<Header>,
}

/// Whether `r` is the request for an episode whose file holds `existing_len`
/// bytes, or the failure to resolve its locator.
pub open spec fn prepared(r: Result<Request, TransferError>, source: Seq<char>, existing_len: nat) -> bool {
    match r {
        Ok(request) => {
            &&& resolved_source(Ok(request.locator), source)
            &&& header_views(request.headers@) == transfer_headers(existing_len)
        },
        Err(e) => resolved_source(Err(e), source),
    }
}

/// Resolves the locator of an episode and builds the request that fetches
/// what the target file does not hold yet.
pub fn prepare(episode: &Episode, existing_len: u64) -> (r: Result<Request, TransferError>)
    ensures
        prepared(r, episode.source@, existing_len as nat),
{
    match decrypt_source_url(episode) {
        Ok(locator) => Ok(Request { locator, headers: request_headers(existing_len) }),
        Err(e) => Err(e),
    }
}

} // verus!
