use transmission_rss::config::{DownloadRule, RssFeed};
use transmission_rss::feed::{
    extract_candidates, extract_title_and_link, is_in_db, read_candidates, torrents_for_feed,
    was_processed, Candidate, Enclosure, FeedItem, FetchError,
};
use transmission_rss::StoreError;

fn item(title: Option<&str>, link: Option<&str>, enclosure: Option<(&str, &str)>) -> FeedItem {
    FeedItem {
        title: title.map(|s| s.to_string()),
        link: link.map(|s| s.to_string()),
        enclosure: enclosure.map(|(url, mime)| Enclosure {
            url: url.to_string(),
            mime_type: mime.to_string(),
        }),
    }
}

fn fault() -> StoreError {
    StoreError { message: "disk unavailable".to_string() }
}

#[test]
fn torrent_enclosure_preferred_over_link() {
    let it = item(
        Some("Show S01"),
        Some("http://example.com/page"),
        Some(("http://example.com/show.torrent", "application/x-bittorrent")),
    );
    assert_eq!(
        extract_title_and_link(it),
        Some(("http://example.com/show.torrent".to_string(), "Show S01".to_string()))
    );
}

#[test]
fn other_enclosure_falls_back_to_link() {
    let it = item(
        Some("Show S01"),
        Some("http://example.com/page"),
        Some(("http://example.com/show.mp3", "audio/mpeg")),
    );
    assert_eq!(
        extract_title_and_link(it),
        Some(("http://example.com/page".to_string(), "Show S01".to_string()))
    );
}

#[test]
fn item_without_link_or_title_is_dropped() {
    assert_eq!(extract_title_and_link(item(Some("t"), None, None)), None);
    assert_eq!(extract_title_and_link(item(None, Some("l"), None)), None);
    assert_eq!(extract_title_and_link(item(None, None, None)), None);
    assert_eq!(
        extract_title_and_link(item(None, None, Some(("u", "application/x-bittorrent")))),
        None
    );
    assert_eq!(
        extract_title_and_link(item(Some("t"), None, Some(("u", "application/x-bittorrent")))),
        Some(("u".to_string(), "t".to_string()))
    );
}

#[test]
fn candidates_keep_feed_order() {
    let items = vec![
        item(Some("a"), Some("la"), None),
        item(None, Some("lb"), None),
        item(Some("c"), Some("lc"), None),
    ];
    assert_eq!(
        extract_candidates(items),
        vec![("la".to_string(), "a".to_string()), ("lc".to_string(), "c".to_string())]
    );
}

const FEED: &str = r#"<?xml version="1.0" encoding="UTF-8"?>
<rss version="2.0">
  <channel>
    <title>Shows</title>
    <link>http://example.com</link>
    <description>releases</description>
    <item>
      <title>Show S01E01 1080p</title>
      <link>http://example.com/1</link>
      <enclosure url="http://example.com/1.torrent" length="10" type="application/x-bittorrent"/>
    </item>
    <item>
      <title>Other S02E01</title>
      <link>http://example.com/2</link>
    </item>
    <item>
      <link>http://example.com/3</link>
    </item>
  </channel>
</rss>"#;

#[test]
fn reads_candidates_from_rss_document() {
    let got = read_candidates(FEED.as_bytes()).expect("valid feed");
    assert_eq!(
        got,
        vec![
            ("http://example.com/1.torrent".to_string(), "Show S01E01 1080p".to_string()),
            ("http://example.com/2".to_string(), "Other S02E01".to_string()),
        ]
    );
}

#[test]
fn undecodable_payload_is_a_decode_error() {
    assert!(matches!(read_candidates(b"not a feed at all"), Err(FetchError::Decode)));
}

#[test]
fn failed_lookup_counts_as_not_found() {
    assert!(!is_in_db(&Err(fault())));
    assert!(is_in_db(&Ok(true)));
    assert!(!is_in_db(&Ok(false)));
}

fn candidate(
    link: &str,
    title: &str,
    in_history: Result<bool, StoreError>,
    in_retry: Result<bool, StoreError>,
) -> Candidate {
    Candidate { link: link.to_string(), title: title.to_string(), in_history, in_retry }
}

#[test]
fn processed_when_either_store_holds_link() {
    assert!(was_processed(&candidate("l", "t", Ok(true), Ok(false))));
    assert!(was_processed(&candidate("l", "t", Ok(false), Ok(true))));
    assert!(was_processed(&candidate("l", "t", Err(fault()), Ok(true))));
    assert!(!was_processed(&candidate("l", "t", Ok(false), Ok(false))));
    assert!(!was_processed(&candidate("l", "t", Err(fault()), Err(fault()))));
}

fn shows_feed() -> RssFeed {
    RssFeed {
        name: "shows".to_string(),
        url: url::Url::parse("http://example.com/feed.xml").unwrap(),
        rules: vec![DownloadRule {
            filter: "Show".to_string(),
            download_dir: "tv".to_string(),
            labels: vec!["tv".to_string()],
        }],
    }
}

#[test]
fn feed_requests_skip_stored_and_unmatched() {
    let cs = vec![
        candidate("l1", "Show S01E01", Ok(false), Ok(false)),
        candidate("l2", "Show S01E02", Ok(true), Ok(false)),
        candidate("l3", "Other", Ok(false), Ok(false)),
        candidate("l4", "Show S01E03", Ok(false), Ok(true)),
        candidate("l5", "Show S01E04", Ok(false), Ok(false)),
    ];
    let got = torrents_for_feed(&shows_feed(), "/dl", cs);
    let links: Vec<&str> = got.iter().map(|t| t.link.as_str()).collect();
    assert_eq!(links, vec!["l1", "l5"]);
    assert_eq!(got[0].download_dir, "/dl/tv");
    assert_eq!(got[1].title, "Show S01E04");
}

#[test]
fn store_fault_during_fetch_keeps_candidate() {
    let cs = vec![candidate("l1", "Show S01E01", Err(fault()), Err(fault()))];
    let got = torrents_for_feed(&shows_feed(), "/dl", cs);
    assert_eq!(got.len(), 1);
    assert_eq!(got[0].link, "l1");
}

#[test]
fn fetch_error_messages() {
    assert_eq!(FetchError::Timeout.message(), "connection timeout");
    assert_eq!(FetchError::Transport("dns".to_string()).message(), "transport error: dns");
    assert_eq!(FetchError::Decode.message(), "not a valid feed");
}
