use twist_dl::error::{DecodeError, TransferError};
use twist_dl::locator::{
    address_of, catalog_locator, decrypt_source_url, resolve, sources_locator, Locator,
};
use twist_dl::request::{
    construct_header, header, prepare, range_header, request_headers, target, Header,
};
use twist_dl::types::{Anime, Episode};

const VIDEO_ENVELOPE: &str = "U2FsdGVkX18AAAAAAAAAAEbfGTw0urehrrm2ovzK46U=";

fn anime(title: &str) -> Anime {
    Anime { id: 1, title: title.to_string(), alt_title: None }
}

fn episode(source: &str, number: i64) -> Episode {
    Episode { id: 10, source: source.to_string(), number, anime_id: 1 }
}

fn pairs(headers: &[Header]) -> Vec<(String, String)> {
    headers.iter().map(|h| (h.name.clone(), h.value.clone())).collect()
}

fn href(r: Result<Locator, TransferError>) -> Result<String, TransferError> {
    r.map(|l| l.as_str().to_string())
}

#[test]
fn joins_origin_and_path() {
    assert_eq!(address_of("/path/to/video"), "https://twist.moe/path/to/video");
    assert_eq!(address_of(""), "https://twist.moe");
}

#[test]
fn resolves_a_path() {
    assert_eq!(href(resolve("/path/to/video")), Ok("https://twist.moe/path/to/video".to_string()));
}

#[test]
fn resolving_normalizes_the_address() {
    assert_eq!(href(resolve("")), Ok("https://twist.moe/".to_string()));
    assert_eq!(
        href(resolve("/anime/\u{65e5}\u{672c}\u{8a9e}/01.mp4")),
        Ok("https://twist.moe/anime/%E6%97%A5%E6%9C%AC%E8%AA%9E/01.mp4".to_string())
    );
    assert_eq!(href(resolve("/a b")), Ok("https://twist.moe/a%20b".to_string()));
}

#[test]
fn a_path_that_spoils_the_address_is_an_invalid_locator() {
    assert_eq!(href(resolve(":8080x/video")), Err(TransferError::InvalidLocator));
    assert_eq!(href(resolve(":99999999/")), Err(TransferError::InvalidLocator));
}

#[test]
fn parses_an_address() {
    assert_eq!(href(Locator::parse("https://example.net")), Ok("https://example.net/".to_string()));
    assert_eq!(href(Locator::parse("no address")), Err(TransferError::InvalidLocator));
    assert_eq!(href(Locator::parse("")), Err(TransferError::InvalidLocator));
}

#[test]
fn decrypts_and_resolves_the_source_of_an_episode() {
    assert_eq!(
        href(decrypt_source_url(&episode(VIDEO_ENVELOPE, 1))),
        Ok("https://twist.moe/path/to/video".to_string())
    );
}

#[test]
fn source_errors_surface_as_transfer_errors() {
    assert_eq!(href(decrypt_source_url(&episode("***", 1))), Err(TransferError::MalformedEnvelope));
    assert_eq!(
        href(decrypt_source_url(&episode("U2FsdGVkX18AAAAAAAAAAAABAgMEBQYHCAkKCwwNDg==", 1))),
        Err(TransferError::DecryptionFailure)
    );
    assert_eq!(
        href(decrypt_source_url(&episode("U2FsdGVkX18AAAAAAAAAAGB5r6+Tlg+YGDI0qsoWL10=", 1))),
        Err(TransferError::EncodingError)
    );
    // decrypts to ":8080x/video"
    assert_eq!(
        href(decrypt_source_url(&episode("U2FsdGVkX18AAAAAAAAAALog3JiTe5/EP1CXsAQVNLk=", 1))),
        Err(TransferError::InvalidLocator)
    );
}

#[test]
fn catalog_addresses() {
    assert_eq!(href(catalog_locator()), Ok("https://twist.moe/api/anime".to_string()));
    assert_eq!(
        href(sources_locator(&anime("Attack on Titan"))),
        Ok("https://twist.moe/api/anime/attack-on-titan/sources".to_string())
    );
}

#[test]
fn decode_errors_lift_one_to_one() {
    assert_eq!(DecodeError::MalformedEnvelope.into_transfer_error(), TransferError::MalformedEnvelope);
    assert_eq!(DecodeError::DecryptionFailure.into_transfer_error(), TransferError::DecryptionFailure);
    assert_eq!(DecodeError::EncodingError.into_transfer_error(), TransferError::EncodingError);
}

#[test]
fn errors_describe_themselves() {
    assert_eq!(DecodeError::MalformedEnvelope.describe(), "malformed envelope");
    assert_eq!(DecodeError::DecryptionFailure.describe(), "decryption failure");
    assert_eq!(DecodeError::EncodingError.describe(), "encoding error");
    assert_eq!(TransferError::MalformedEnvelope.describe(), "malformed envelope");
    assert_eq!(TransferError::DecryptionFailure.describe(), "decryption failure");
    assert_eq!(TransferError::EncodingError.describe(), "encoding error");
    assert_eq!(TransferError::InvalidLocator.describe(), "invalid locator");
    assert_eq!(TransferError::NetworkError.describe(), "network error");
    assert_eq!(TransferError::FileIOError.describe(), "file i/o error");
}

#[test]
fn base_headers() {
    assert_eq!(
        pairs(&construct_header()),
        vec![
            ("Referer".to_string(), "https://twist.moe/".to_string()),
            (
                "user-agent".to_string(),
                "Mozilla/5.0 (iPhone; CPU iPhone OS 12_2 like Mac OS X) AppleWebKit/605.1.15 (KHTML, like Gecko) Mobile/15E148".to_string()
            ),
            ("x-access-token".to_string(), "1rj2vRtegS8Y60B3w3qNZm5T2Q0TN2NR".to_string()),
            ("cache-control".to_string(), "max-age=1000".to_string()),
        ]
    );
}

#[test]
fn builds_a_header() {
    assert_eq!(header("a", "b"), Header { name: "a".to_string(), value: "b".to_string() });
}

#[test]
fn fresh_transfer_has_no_range() {
    assert_eq!(pairs(&request_headers(0)), pairs(&construct_header()));
}

#[test]
fn resumed_transfer_asks_for_the_range_from_the_file_length() {
    let headers = pairs(&request_headers(1234));
    assert_eq!(headers.len(), 5);
    assert_eq!(headers[..4], pairs(&construct_header())[..]);
    assert_eq!(headers[4], ("range".to_string(), "bytes=1234-".to_string()));
    assert_eq!(pairs(&request_headers(1))[4].1, "bytes=1-");
    assert_eq!(pairs(&request_headers(u64::MAX))[4].1, "bytes=18446744073709551615-");
}

#[test]
fn range_header_value() {
    assert_eq!(range_header(0).value, "bytes=0-");
    assert_eq!(range_header(4096), Header { name: "range".to_string(), value: "bytes=4096-".to_string() });
}

#[test]
fn target_of_an_episode() {
    let t = target(&anime("Attack on Titan"), &episode("", 12));
    assert_eq!(t.directory, "./animes/attack-on-titan");
    assert_eq!(t.file_name, "12.mp4");
}

#[test]
fn target_depends_on_title_and_number_alone() {
    let a = target(&Anime { id: 1, title: " K-On!! ".to_string(), alt_title: None }, &episode("x", 3));
    let b = target(
        &Anime { id: 99, title: " K-On!! ".to_string(), alt_title: Some("Keion".to_string()) },
        &Episode { id: 5, source: "y".to_string(), number: 3, anime_id: 7 },
    );
    assert_eq!(a, b);
    assert_eq!(a.directory, "./animes/k-on");
    assert_eq!(a.file_name, "3.mp4");
    assert_eq!(target(&anime(""), &episode("", -2)).directory, "./animes/");
    assert_eq!(target(&anime(""), &episode("", -2)).file_name, "-2.mp4");
}

#[test]
fn prepares_a_fresh_request() {
    let request = prepare(&episode(VIDEO_ENVELOPE, 1), 0).ok().unwrap();
    assert_eq!(request.locator.as_str(), "https://twist.moe/path/to/video");
    assert_eq!(pairs(&request.headers), pairs(&construct_header()));
}

#[test]
fn prepares_a_resumed_request() {
    let request = prepare(&episode(VIDEO_ENVELOPE, 1), 500).ok().unwrap();
    assert_eq!(request.locator.as_str(), "https://twist.moe/path/to/video");
    assert_eq!(pairs(&request.headers)[4], ("range".to_string(), "bytes=500-".to_string()));
}

#[test]
fn prepare_fails_as_the_source_does() {
    assert_eq!(prepare(&episode("", 1), 500).err(), Some(TransferError::MalformedEnvelope));
    assert_eq!(
        prepare(&episode("U2FsdGVkX18AAAAAAAAAALog3JiTe5/EP1CXsAQVNLk=", 1), 0).err(),
        Some(TransferError::InvalidLocator)
    );
}
