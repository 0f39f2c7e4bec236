use flate2::write::ZlibEncoder;
use flate2::Compression;
use std::io::Write;

use gogdl::cdn::{Cdn, CdnUrlParams};
use gogdl::retrieval::{AttemptOutcome, ChunkDownload, ChunkStep};
use gogdl::session::{decompress, SessionError};

const HASH: &str = "abcdef0123456789abcdef0123456789";

fn candidate(base: &str, priority: u64) -> Cdn {
    Cdn {
        url_format: String::from("{base_url}/files"),
        parameters: CdnUrlParams {
            base_url: String::from(base),
            path: String::from("/p"),
            token: String::from("t"),
            expires_at: None,
            dirs: None,
            ttl: None,
            source: None,
            gog_token: None,
            l: None,
        },
        priority,
    }
}

fn compress(data: &[u8]) -> Vec<u8> {
    let mut enc = ZlibEncoder::new(Vec::new(), Compression::default());
    enc.write_all(data).unwrap();
    enc.finish().unwrap()
}

fn requested_url(step: &ChunkStep) -> String {
    match step {
        ChunkStep::Request(url) => url.clone(),
        ChunkStep::Done(_) => panic!("expected a request, got completion"),
        ChunkStep::Failed(e) => panic!("expected a request, got failure: {}", e.message()),
    }
}

#[test]
fn candidates_are_visited_in_ascending_priority_order() {
    let cdns = vec![candidate("https://p2", 2), candidate("https://p1", 1), candidate("https://p3", 3)];
    let mut dl = ChunkDownload::new(cdns, HASH, false);
    let first = requested_url(&dl.start());
    assert!(first.starts_with("https://p1/"), "visited {first} before the priority-1 candidate");
    let second = requested_url(&dl.on_outcome(AttemptOutcome::Failed(SessionError::NetworkError(
        String::from("connection reset"),
    ))));
    assert!(second.starts_with("https://p2/"));
    let third = requested_url(&dl.on_outcome(AttemptOutcome::Failed(SessionError::HttpError(503))));
    assert!(third.starts_with("https://p3/"));
}

#[test]
fn first_successful_candidate_short_circuits() {
    let cdns = vec![candidate("https://p2", 2), candidate("https://p1", 1), candidate("https://p3", 3)];
    let mut dl = ChunkDownload::new(cdns, HASH, false);
    let first = requested_url(&dl.start());
    assert_eq!(first, format!("https://p1/files/ab/cd/{HASH}"));
    let payload = b"chunk payload bytes".to_vec();
    match dl.on_outcome(AttemptOutcome::Delivered(compress(&payload))) {
        ChunkStep::Done(bytes) => assert_eq!(bytes, payload),
        _ => panic!("the first successful candidate must complete the retrieval"),
    }
}

#[test]
fn exhaustion_reports_the_aggregate_error_not_a_raw_one() {
    let cdns = vec![candidate("https://p1", 1), candidate("https://p2", 2)];
    let mut dl = ChunkDownload::new(cdns, HASH, false);
    dl.start();
    dl.on_outcome(AttemptOutcome::Failed(SessionError::NetworkError(String::from("refused"))));
    match dl.on_outcome(AttemptOutcome::Failed(SessionError::HttpError(404))) {
        ChunkStep::Failed(SessionError::DownloadError(msg)) => {
            assert_eq!(msg, "All CDN attempts failed");
        }
        ChunkStep::Failed(other) => {
            panic!("a single candidate's raw error leaked out: {}", other.message())
        }
        _ => panic!("exhaustion must fail the retrieval"),
    }
}

#[test]
fn equal_priority_candidates_are_each_attempted_once() {
    let cdns = vec![candidate("https://a", 1), candidate("https://b", 1)];
    let mut dl = ChunkDownload::new(cdns, HASH, false);
    let first = requested_url(&dl.start());
    let second = requested_url(&dl.on_outcome(AttemptOutcome::Failed(SessionError::HttpError(500))));
    let mut seen = vec![first, second];
    seen.sort();
    assert_eq!(seen, vec![format!("https://a/files/ab/cd/{HASH}"), format!("https://b/files/ab/cd/{HASH}")]);
    match dl.on_outcome(AttemptOutcome::Failed(SessionError::HttpError(500))) {
        ChunkStep::Failed(SessionError::DownloadError(_)) => {}
        _ => panic!("both equal-priority candidates exhausted"),
    }
}

#[test]
fn empty_candidate_list_is_immediate_exhaustion() {
    let dl = ChunkDownload::new(Vec::new(), HASH, false);
    match dl.start() {
        ChunkStep::Failed(SessionError::DownloadError(msg)) => {
            assert_eq!(msg, "All CDN attempts failed");
        }
        _ => panic!("no candidates means the retrieval cannot start"),
    }
}

#[test]
fn redistributable_retrieval_requests_the_fixed_store() {
    let cdns = vec![candidate("https://p1", 1)];
    let dl = ChunkDownload::new(cdns, HASH, true);
    let url = requested_url(&dl.start());
    assert_eq!(
        url,
        format!("https://gog-cdn-fastly.gog.com/content-system/v2/dependencies/store/ab/cd/{HASH}")
    );
}

#[test]
fn delivered_payload_round_trips_through_decompression() {
    let original: Vec<u8> = (0u16..2048).map(|i| (i % 251) as u8).collect();
    let cdns = vec![candidate("https://p1", 1)];
    let mut dl = ChunkDownload::new(cdns, HASH, false);
    dl.start();
    match dl.on_outcome(AttemptOutcome::Delivered(compress(&original))) {
        ChunkStep::Done(bytes) => assert_eq!(bytes, original),
        _ => panic!("a well-formed stream must decompress to the original bytes"),
    }
}

#[test]
fn truncated_payload_is_a_decompression_error_not_partial_output() {
    let original = b"some payload that will be truncated".to_vec();
    let mut compressed = compress(&original);
    compressed.truncate(compressed.len() - 4);
    let cdns = vec![candidate("https://p1", 1)];
    let mut dl = ChunkDownload::new(cdns, HASH, false);
    dl.start();
    match dl.on_outcome(AttemptOutcome::Delivered(compressed)) {
        ChunkStep::Failed(SessionError::DecompressionError(_)) => {}
        ChunkStep::Done(_) => panic!("a truncated stream must not pass as a partial success"),
        _ => panic!("a truncated stream is a decompression error"),
    }
}

#[test]
fn decompress_round_trip_and_rejection() {
    let original = b"fixture payload".to_vec();
    let compressed = compress(&original);
    assert_ne!(compressed, original);
    match decompress(&compressed) {
        Ok(bytes) => assert_eq!(bytes, original),
        Err(e) => panic!("well-formed stream rejected: {}", e.message()),
    }
    match decompress(&b"definitely not zlib".to_vec()) {
        Err(SessionError::DecompressionError(_)) => {}
        _ => panic!("garbage must be a decompression error"),
    }
}
