//! Reading a feed: decoding, choosing each item's link, deduplication
//! against the stores, and rule matching.
use vstd::prelude::*;

use crate::config::{
    first_matching_rule, is_first_match, some_rule_matches, DownloadRule, RssFeed,
};
use crate::{texts, torrent_views, StoreError, Torrent, TorrentView};

verus! {

/// Seconds that fetching one feed may take before the feed is skipped.
pub const FETCH_TIMEOUT_SECS: u64 = 5;

/// Media type of an enclosure that carries a torrent.
pub open spec fn torrent_mime_type() -> Seq<char> {
    "application/x-bittorrent"@
}

/// Media attached to a feed item.
#[derive(Debug, Clone)]
pub struct Enclosure {
    pub url: String,
    pub mime_type: String,
}

/// One entry of a decoded feed.
#[derive(Debug, Clone)]
pub struct FeedItem {
    pub title: Option<String>,
    pub link: Option<String>,
    pub enclosure: Option<Enclosure>,
}

/// The link an item is downloaded from: a torrent enclosure's URL when there
/// is one, else the item's own link.
pub open spec fn chosen_link(item: FeedItem) -> Option<String> {
    match item.enclosure {
        Some(e) => if e.mime_type@ == torrent_mime_type() {
            Some(e.url)
        } else {
            item.link
        },
        None => item.link,
    }
}

/// The (link, title) pair of an item, when it has both.
pub open spec fn extracted(item: FeedItem) -> Option<(String, String)> {
    match (chosen_link(item), item.title) {
        (Some(link), Some(title)) => Some((link, title)),
        _ => None,
    }
}

/// The (link, title) pairs of the items that have both, in feed order.
pub open spec fn extract_all(items: Seq<FeedItem>) -> Seq<(String, String)>
    decreases items.len(),
{
    if items.len() == 0 {
        Seq::empty()
    } else {
        let rest = extract_all(items.drop_last());
        match extracted(items.last()) {
            Some(p) => rest.push(p),
            None => rest,
        }
    }
}

/// Picks the link and title of a feed item; `None` when either is missing.
pub fn extract_title_and_link(item: FeedItem) -> (r: Option<(String, String)>)
    ensures
        r == extracted(item),
{
    let FeedItem { title, link, enclosure } = item;
    let link = match enclosure {
        Some(e) => {
            let torrent = e.mime_type == String::from_str("application/x-bittorrent");
            proof {
                reveal_strlit("application/x-bittorrent");
            }
            if torrent {
                Some(e.url)
            } else {
                link
            }
        },
        None => link,
    };
    match (link, title) {
        (Some(link), Some(title)) => Some((link, title)),
        _ => None,
    }
}

/// The items that the RSS decoder finds in `content`, in document order;
/// `None` when `content` is not a feed it accepts.
pub uninterp spec fn decoded_items(content: Seq<u8>) -> Option<Seq<FeedItem>>;

/// Relies on `rss::Channel::read_from` and `rss::Channel::into_items`:
/// decoding depends on the bytes alone; a decoding error becomes `None`.
#[verifier::external_body]
fn decode_items(content: &[u8]) -> (r: Option<Vec<FeedItem>>)
    ensures
        match r {
            Some(items) => decoded_items(content@) == Some(items@),
            None => decoded_items(content@) is None,
        },
{
    let channel = rss::Channel::read_from(content).ok()?;
    Some(channel.into_items().into_iter().map(|i| FeedItem {
        title: i.title,
        link: i.link,
        enclosure: i.enclosure.map(|e| Enclosure { url: e.url, mime_type: e.mime_type }),
    }).collect())
}

/// Why a feed contributed nothing this run.
#[derive(Debug, Clone)]
pub enum FetchError {
    /// The fetch did not finish within its time bound.
    Timeout,
    /// The transport failed, with its message.
    Transport(String),
    /// The payload is not a feed.
    Decode,
}

/// The text that describes `e`.
pub open spec fn fetch_error_text(e: FetchError) -> Seq<char> {
    match e {
        FetchError::Timeout => "connection timeout"@,
        FetchError::Transport(m) => "transport error: "@ + m@,
        FetchError::Decode => "not a valid feed"@,
    }
}

impl FetchError {
    /// A description of the failure, for the log.
    pub fn message(&self) -> (r: String)
        ensures
            r@ == fetch_error_text(*self),
    {
        match self {
            FetchError::Timeout => String::from_str("connection timeout"),
            FetchError::Transport(m) => String::from_str("transport error: ").concat(m.as_str()),
            FetchError::Decode => String::from_str("not a valid feed"),
        }
    }
}

/// The (link, title) pairs of the decoded items that have both, in feed order.
pub fn extract_candidates(items: Vec<FeedItem>) -> (r: Vec<(String, String)>)
    ensures
        r@ == extract_all(items@),
{
    let ghost all = items@;
    let mut out: Vec<(String, String)> = Vec::new();
    for item in it: items
        invariant
            all == it.seq(),
            out@ == extract_all(all.take(it.index() as int)),
    {
        assert(all.take(it.index() + 1).drop_last() =~= all.take(it.index() as int));
        if let Some(pair) = extract_title_and_link(item) {
            out.push(pair);
        }
    }
    assert(all.take(all.len() as int) =~= all);
    out
}

/// Decodes a fetched feed and picks the (link, title) pair of each item.
pub fn read_candidates(content: &[u8]) -> (r: Result<Vec<(String, String)>, FetchError>)
    ensures
        match decoded_items(content@) {
            None => r matches Err(FetchError::Decode),
            Some(items) => r matches Ok(v) && v@ == extract_all(items),
        },
{
    match decode_items(content) {
        Some(items) => Ok(extract_candidates(items)),
        None => Err(FetchError::Decode),
    }
}

/// A store lookup found the link. A failed lookup counts as not found, so
/// that a store fault never blocks discovery.
pub open spec fn found(lookup: Result<bool, StoreError>) -> bool {
    lookup matches Ok(present) && present
}

/// Whether a store lookup found the link; a failed lookup did not.
pub fn is_in_db(lookup: &Result<bool, StoreError>) -> (r: bool)
    ensures
        r == found(*lookup),
{
    match lookup {
        Ok(present) => *present,
        Err(_) => false,
    }
}

/// A candidate item with the outcome of looking its link up in the history
/// store and in the retry store.
#[derive(Debug)]
pub struct Candidate {
    pub link: String,
    pub title: String,
    pub in_history: Result<bool, StoreError>,
    pub in_retry: Result<bool, StoreError>,
}

/// The candidate's link is already held by one of the stores.
pub open spec fn processed(c: Candidate) -> bool {
    found(c.in_history) || found(c.in_retry)
}

/// Whether either store already holds the candidate's link.
pub fn was_processed(c: &Candidate) -> (r: bool)
    ensures
        r == processed(*c),
{
    is_in_db(&c.in_history) || is_in_db(&c.in_retry)
}

/// The path `rel` resolved against the directory `base`.
pub uninterp spec fn joined_path(base: Seq<char>, rel: Seq<char>) -> Seq<char>;

/// Relies on `std::path::Path::join`: the joined path depends on the two
/// paths alone.
#[verifier::external_body]
fn join_path(base: &str, rel: &str) -> (r: String)
    ensures
        r@ == joined_path(base@, rel@),
{
    std::path::Path::new(base).join(rel).to_string_lossy().into_owned()
}

/// The first rule that accepts `title`.
pub open spec fn first_index(rules: Seq<DownloadRule>, title: Seq<char>) -> int {
    choose|i: int| is_first_match(rules, title, i)
}

/// The request built from `rule` for an item.
pub open spec fn request_view(
    rule: DownloadRule,
    base: Seq<char>,
    link: Seq<char>,
    title: Seq<char>,
) -> TorrentView {
    TorrentView {
        link,
        title,
        download_dir: joined_path(base, rule.download_dir@),
        labels: texts(rule.labels@),
    }
}

/// The request for an item under the first rule that accepts its title.
pub open spec fn matched_request(
    rules: Seq<DownloadRule>,
    base: Seq<char>,
    link: Seq<char>,
    title: Seq<char>,
) -> Option<TorrentView> {
    if some_rule_matches(rules, title) {
        Some(request_view(rules[first_index(rules, title)], base, link, title))
    } else {
        None
    }
}

proof fn lemma_first_index(rules: Seq<DownloadRule>, title: Seq<char>, i: int)
    requires
        is_first_match(rules, title, i),
    ensures
        first_index(rules, title) == i,
{
    let j = first_index(rules, title);
    assert(is_first_match(rules, title, j));
    if j < i {
        assert(!crate::config::rule_matches(rules[j], title));
    }
    if i < j {
        assert(!crate::config::rule_matches(rules[i], title));
    }
}

/// Builds the request for an item from the first of the feed's rules that
/// accepts its title, its directory resolved against `base_download_dir`;
/// `None` when no rule accepts it.
pub fn check_rules(feed: &RssFeed, base_download_dir: &str, link: String, title: String) -> (r:
    Option<Torrent>)
    ensures
        r is None <==> !some_rule_matches(feed.rules@, title@),
        r matches Some(t) ==> Some(t@) == matched_request(
            feed.rules@,
            base_download_dir@,
            link@,
            title@,
        ),
{
    match first_matching_rule(&feed.rules, title.as_str()) {
        None => None,
        Some(i) => {
            proof {
                lemma_first_index(feed.rules@, title@, i as int);
            }
            let rule = &feed.rules[i];
            let labels = rule.labels.clone();
            assert(texts(labels@) =~= texts(rule.labels@));
            Some(
                Torrent {
                    link,
                    title,
                    download_dir: join_path(base_download_dir, rule.download_dir.as_str()),
                    labels,
                },
            )
        },
    }
}

/// The request a candidate yields: none when a store already holds its link
/// or no rule accepts its title.
pub open spec fn candidate_request(
    rules: Seq<DownloadRule>,
    base: Seq<char>,
    c: Candidate,
) -> Option<TorrentView> {
    if processed(c) {
        None
    } else {
        matched_request(rules, base, c.link@, c.title@)
    }
}

/// The requests that a feed's candidates yield, in feed order.
pub open spec fn feed_requests(
    rules: Seq<DownloadRule>,
    base: Seq<char>,
    cs: Seq<Candidate>,
) -> Seq<TorrentView>
    decreases cs.len(),
{
    if cs.len() == 0 {
        Seq::empty()
    } else {
        let rest = feed_requests(rules, base, cs.drop_last());
        match candidate_request(rules, base, cs.last()) {
            Some(t) => rest.push(t),
            None => rest,
        }
    }
}

/// The submission requests of one feed: each candidate whose link neither
/// store holds and whose title some rule accepts, in feed order.
pub fn torrents_for_feed(feed: &RssFeed, base_download_dir: &str, candidates: Vec<Candidate>) -> (r:
    Vec<Torrent>)
    ensures
        torrent_views(r@) == feed_requests(feed.rules@, base_download_dir@, candidates@),
{
    let ghost all = candidates@;
    let ghost rules = feed.rules@;
    let mut out: Vec<Torrent> = Vec::new();
    for c in it: candidates
        invariant
            all == it.seq(),
            rules == feed.rules@,
            torrent_views(out@) == feed_requests(rules, base_download_dir@, all.take(it.index() as int)),
    {
        assert(all.take(it.index() + 1).drop_last() =~= all.take(it.index() as int));
        if !was_processed(&c) {
            let Candidate { link, title, .. } = c;
            if let Some(t) = check_rules(feed, base_download_dir, link, title) {
                let ghost before = out@;
                out.push(t);
                assert(torrent_views(out@) =~= torrent_views(before).push(t@));
            }
        }
    }
    assert(all.take(all.len() as int) =~= all);
    out
}

} // verus!
