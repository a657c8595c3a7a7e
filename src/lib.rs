//! Watches syndication feeds, selects the items whose titles satisfy the
//! configured rules, and tracks their submission to a download daemon.
pub mod config;
pub mod feed;
pub mod pipeline;
pub mod text;
pub mod transmission;

use vstd::prelude::*;

verus! {

/// A submission request: an item that matched a rule, ready for the daemon.
#[derive(Debug, Clone)]
pub struct Torrent {
    /// Where the daemon fetches the torrent from; identifies the request.
    pub link: String,
    pub title: String,
    /// Resolved destination directory.
    pub download_dir: String,
    pub labels: Vec<String>,
}

/// The contents of a `Torrent`, as character sequences.
pub struct TorrentView {
    pub link: Seq<char>,
    pub title: Seq<char>,
    pub download_dir: Seq<char>,
    pub labels: Seq<Seq<char>>,
}

/// The texts of `v`, in order.
pub open spec fn texts(v: Seq<String>) -> Seq<Seq<char>> {
    v.map_values(|s: String| s@)
}

impl View for Torrent {
    type V = TorrentView;

    open spec fn view(&self) -> TorrentView {
        TorrentView {
            link: self.link@,
            title: self.title@,
            download_dir: self.download_dir@,
            labels: texts(self.labels@),
        }
    }
}

/// The views of `v`, in order.
pub open spec fn torrent_views(v: Seq<Torrent>) -> Seq<TorrentView> {
    v.map_values(|t: Torrent| t@)
}

/// A fault reported by a persistent store.
#[derive(Debug, Clone)]
pub struct StoreError {
    pub message: String,
}

} // verus!
