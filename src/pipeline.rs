//! One run of the pipeline: gathering the feeds' requests, and the store
//! writes that follow each submission and each retry.
use vstd::prelude::*;

use crate::config::DownloadRule;
use crate::feed::{
    candidate_request, feed_requests, found, matched_request, processed, Candidate, FetchError,
};
use crate::transmission::Error;
use crate::{torrent_views, StoreError, Torrent, TorrentView};

verus! {

/// The requests a feed's fetch contributes: none when it failed.
pub open spec fn contribution(r: Result<Vec<Torrent>, FetchError>) -> Seq<TorrentView> {
    match r {
        Ok(v) => torrent_views(v@),
        Err(_) => Seq::empty(),
    }
}

/// The requests of all feeds, feed after feed.
pub open spec fn collected(rs: Seq<Result<Vec<Torrent>, FetchError>>) -> Seq<TorrentView>
    decreases rs.len(),
{
    if rs.len() == 0 {
        Seq::empty()
    } else {
        collected(rs.drop_last()) + contribution(rs.last())
    }
}

/// Gathers the requests of every feed; a feed whose fetch failed is skipped
/// and the others are kept.
pub fn fetch_new_torrents(results: Vec<Result<Vec<Torrent>, FetchError>>) -> (r: Vec<Torrent>)
    ensures
        torrent_views(r@) == collected(results@),
{
    let ghost all = results@;
    let mut out: Vec<Torrent> = Vec::new();
    for result in it: results
        invariant
            all == it.seq(),
            torrent_views(out@) == collected(all.take(it.index() as int)),
    {
        assert(all.take(it.index() + 1).drop_last() =~= all.take(it.index() as int));
        if let Ok(mut torrents) = result {
            let ghost before = out@;
            let ghost added = torrents@;
            out.append(&mut torrents);
            assert(torrent_views(out@) =~= torrent_views(before) + torrent_views(added));
        }
    }
    assert(all.take(all.len() as int) =~= all);
    out
}

/// A write to one of the two persistent stores.
#[derive(Debug, Clone)]
pub enum StoreWrite {
    /// Marks `link` as handled in the history store, with its title.
    RecordHistory { link: String, title: String },
    /// Queues the request in the retry store, under its link.
    QueueRetry { torrent: Torrent },
    /// Drops `link` from the retry store.
    RemoveRetry { link: String },
}

/// A `StoreWrite` over character sequences.
pub enum WriteView {
    RecordHistory(Seq<char>, Seq<char>),
    QueueRetry(TorrentView),
    RemoveRetry(Seq<char>),
}

impl View for StoreWrite {
    type V = WriteView;

    open spec fn view(&self) -> WriteView {
        match self {
            StoreWrite::RecordHistory { link, title } => WriteView::RecordHistory(link@, title@),
            StoreWrite::QueueRetry { torrent } => WriteView::QueueRetry(torrent@),
            StoreWrite::RemoveRetry { link } => WriteView::RemoveRetry(link@),
        }
    }
}

/// The views of `ws`, in order.
pub open spec fn write_views(ws: Seq<StoreWrite>) -> Seq<WriteView> {
    ws.map_values(|w: StoreWrite| w@)
}

/// The contents of the two stores: the history maps a handled link to its
/// title, the retry store maps a link to the request that failed.
pub struct Stores {
    pub history: Map<Seq<char>, Seq<char>>,
    pub retry: Map<Seq<char>, TorrentView>,
}

/// The stores after one write.
pub open spec fn apply_write(s: Stores, w: WriteView) -> Stores {
    match w {
        WriteView::RecordHistory(link, title) => Stores {
            history: s.history.insert(link, title),
            retry: s.retry,
        },
        WriteView::QueueRetry(t) => Stores { history: s.history, retry: s.retry.insert(t.link, t) },
        WriteView::RemoveRetry(link) => Stores { history: s.history, retry: s.retry.remove(link) },
    }
}

/// The stores after the writes `ws`, first to last.
pub open spec fn apply_writes(s: Stores, ws: Seq<WriteView>) -> Stores
    decreases ws.len(),
{
    if ws.len() == 0 {
        s
    } else {
        apply_writes(apply_write(s, ws[0]), ws.drop_first())
    }
}

proof fn lemma_apply_one(s: Stores, w: WriteView)
    ensures
        apply_writes(s, seq![w]) == apply_write(s, w),
{
    assert(seq![w].drop_first() =~= Seq::<WriteView>::empty());
    assert(apply_writes(apply_write(s, w), Seq::<WriteView>::empty()) == apply_write(s, w));
}

proof fn lemma_apply_two(s: Stores, v: WriteView, w: WriteView)
    ensures
        apply_writes(s, seq![v, w]) == apply_write(apply_write(s, v), w),
{
    assert(seq![v, w].drop_first() =~= seq![w]);
    lemma_apply_one(apply_write(s, v), w);
}

/// What follows a first submission of `t`: its link goes to the history
/// when the daemon accepted it, and the request to the retry store when not.
pub open spec fn submission_writes(t: TorrentView, accepted: bool) -> Seq<WriteView> {
    if accepted {
        seq![WriteView::RecordHistory(t.link, t.title)]
    } else {
        seq![WriteView::QueueRetry(t)]
    }
}

/// What follows a retry of `t`: on success its link goes to the history and
/// leaves the retry store; on failure the entry stays for the next run.
pub open spec fn retry_writes(t: TorrentView, accepted: bool) -> Seq<WriteView> {
    if accepted {
        seq![WriteView::RecordHistory(t.link, t.title), WriteView::RemoveRetry(t.link)]
    } else {
        Seq::empty()
    }
}

/// The store writes that follow submitting `torrent` with `outcome`.
pub fn after_submission(torrent: Torrent, outcome: &Result<(), Error>) -> (r: Vec<StoreWrite>)
    ensures
        write_views(r@) == submission_writes(torrent@, outcome is Ok),
{
    let mut r: Vec<StoreWrite> = Vec::new();
    match outcome {
        Ok(()) => {
            let Torrent { link, title, .. } = torrent;
            r.push(StoreWrite::RecordHistory { link, title });
        },
        Err(_) => {
            r.push(StoreWrite::QueueRetry { torrent });
        },
    }
    assert(write_views(r@) =~= submission_writes(torrent@, outcome is Ok));
    r
}

/// The store writes that follow retrying `torrent` with `outcome`.
pub fn after_retry(torrent: Torrent, outcome: &Result<(), Error>) -> (r: Vec<StoreWrite>)
    ensures
        write_views(r@) == retry_writes(torrent@, outcome is Ok),
{
    let mut r: Vec<StoreWrite> = Vec::new();
    if outcome.is_ok() {
        let Torrent { link, title, .. } = torrent;
        let key = link.clone();
        r.push(StoreWrite::RecordHistory { link, title });
        r.push(StoreWrite::RemoveRetry { link: key });
    }
    assert(write_views(r@) =~= retry_writes(torrent@, outcome is Ok));
    r
}

/// Retries converge: a request whose submission failed sits in the retry
/// store; once a retry of it succeeds it has left the retry store and its
/// link is in the history.
pub proof fn lemma_retry_convergence(s: Stores, t: TorrentView)
    ensures
        apply_writes(s, submission_writes(t, false)).retry.contains_key(t.link),
        !apply_writes(
            apply_writes(s, submission_writes(t, false)),
            retry_writes(t, true),
        ).retry.contains_key(t.link),
        apply_writes(
            apply_writes(s, submission_writes(t, false)),
            retry_writes(t, true),
        ).history.contains_key(t.link),
{
    lemma_apply_one(s, WriteView::QueueRetry(t));
    let failed = apply_writes(s, submission_writes(t, false));
    lemma_apply_two(failed, WriteView::RecordHistory(t.link, t.title), WriteView::RemoveRetry(t.link));
}

/// A failed store lookup counts as "not seen": the link is then judged by
/// the other store alone, and when both lookups fail the candidate goes on
/// to rule matching.
pub proof fn lemma_store_fault_tolerance(rules: Seq<DownloadRule>, base: Seq<char>, c: Candidate)
    ensures
        c.in_history is Err ==> processed(c) == found(c.in_retry),
        c.in_retry is Err ==> processed(c) == found(c.in_history),
        c.in_history is Err && c.in_retry is Err ==> candidate_request(rules, base, c)
            == matched_request(rules, base, c.link@, c.title@),
{
}

/// A feed whose fetch failed, by timeout or otherwise, adds nothing, and
/// the run gathers exactly what the other feeds produced.
pub proof fn lemma_failed_feed_isolated(rs: Seq<Result<Vec<Torrent>, FetchError>>, i: int)
    requires
        0 <= i < rs.len(),
        rs[i] is Err,
    ensures
        collected(rs) == collected(rs.remove(i)),
    decreases rs.len(),
{
    if i == rs.len() - 1 {
        assert(rs.remove(i) =~= rs.drop_last());
        assert(collected(rs) =~= collected(rs.drop_last()));
    } else {
        lemma_failed_feed_isolated(rs.drop_last(), i);
        assert(rs.remove(i).drop_last() =~= rs.drop_last().remove(i));
        assert(rs.remove(i).last() == rs.last());
    }
}

/// A link whose submission succeeded is not requested again: once its
/// history write is applied, a later fetch whose history lookups report
/// that store yields no request for the link.
pub proof fn lemma_no_duplicate_submission(
    s: Stores,
    t: TorrentView,
    rules: Seq<DownloadRule>,
    base: Seq<char>,
    cs: Seq<Candidate>,
)
    requires
        forall|i: int|
            0 <= i < cs.len() ==> (#[trigger] cs[i]).in_history == Ok::<bool, StoreError>(
                apply_writes(s, submission_writes(t, true)).history.contains_key(cs[i].link@),
            ),
    ensures
        forall|j: int|
            0 <= j < feed_requests(rules, base, cs).len() ==> (#[trigger] feed_requests(
                rules,
                base,
                cs,
            )[j]).link != t.link,
    decreases cs.len(),
{
    lemma_apply_one(s, WriteView::RecordHistory(t.link, t.title));
    let after = apply_writes(s, submission_writes(t, true));
    assert(after.history.contains_key(t.link));
    if cs.len() > 0 {
        let rest = cs.drop_last();
        assert forall|i: int| 0 <= i < rest.len() implies (#[trigger] rest[i]).in_history == Ok::<
            bool,
            StoreError,
        >(after.history.contains_key(rest[i].link@)) by {
            assert(rest[i] == cs[i]);
        }
        lemma_no_duplicate_submission(s, t, rules, base, rest);
        let c = cs.last();
        assert(c == cs[cs.len() - 1]);
        if c.link@ == t.link {
            assert(found(c.in_history));
        }
        let prev = feed_requests(rules, base, rest);
        match candidate_request(rules, base, c) {
            Some(r) => {
                assert(r.link == c.link@);
                assert(feed_requests(rules, base, cs) == prev.push(r));
                assert forall|j: int| 0 <= j < prev.len() implies (#[trigger] prev.push(r)[j]).link
                    != t.link by {
                    assert(prev.push(r)[j] == prev[j]);
                }
            },
            None => {
                assert(feed_requests(rules, base, cs) == prev);
            },
        }
    }
}

} // verus!
