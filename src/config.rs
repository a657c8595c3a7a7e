//! The configuration that drives a run: the downloader's endpoint and
//! credentials, and the feeds with their ordered download rules.
use vstd::prelude::*;

use crate::text::{all_words_in, all_words_occur, trim, trimmed};

verus! {

/// `url::Url`, held opaquely: the library only carries it to the transport.
#[verifier::external_type_specification]
#[verifier::external_body]
pub struct ExUrl(url::Url);

/// Settings of one run, as loaded from the configuration file.
#[derive(Debug)]
pub struct Config {
    /// Directory that every rule's download directory is relative to.
    pub base_download_dir: String,
    pub transmission: Transmission,
    pub rss_feeds: Vec<RssFeed>,
}

/// Where and how to reach the download daemon.
#[derive(Debug)]
pub struct Transmission {
    pub url: url::Url,
    pub username: String,
    pub password: String,
}

/// The daemon's settings as written in the file, before the password is resolved.
#[derive(Debug, PartialEq)]
pub struct RawTransmission {
    pub url: url::Url,
    pub username: String,
    pub password: TransmissionPassword,
}

/// A password given inline, or the path of a file that holds it.
#[derive(Debug, Clone, PartialEq)]
pub enum TransmissionPassword {
    Raw { password: String },
    File { password_file: String },
}

/// A feed to poll, with its rules in declaration order.
#[derive(Debug)]
pub struct RssFeed {
    pub name: String,
    pub url: url::Url,
    pub rules: Vec<DownloadRule>,
}

/// A filter on titles, with where matching items go and how they are labelled.
#[derive(Debug, Clone)]
pub struct DownloadRule {
    /// Whitespace-separated words that a title must all contain.
    pub filter: String,
    /// Destination, relative to the configuration's base download directory.
    pub download_dir: String,
    pub labels: Vec<String>,
}

/// Rule `rule` accepts `title`.
pub open spec fn rule_matches(rule: DownloadRule, title: Seq<char>) -> bool {
    all_words_occur(rule.filter@, title)
}

/// `i` is the first rule of `rules` that accepts `title`.
pub open spec fn is_first_match(rules: Seq<DownloadRule>, title: Seq<char>, i: int) -> bool {
    &&& 0 <= i < rules.len()
    &&& rule_matches(rules[i], title)
    &&& forall|j: int| 0 <= j < i ==> !rule_matches(#[trigger] rules[j], title)
}

/// Some rule of `rules` accepts `title`.
pub open spec fn some_rule_matches(rules: Seq<DownloadRule>, title: Seq<char>) -> bool {
    exists|i: int| 0 <= i < rules.len() && rule_matches(#[trigger] rules[i], title)
}

impl DownloadRule {
    /// Whether `title` contains every word of this rule's filter.
    pub fn check(&self, title: &str) -> (r: bool)
        ensures
            r == rule_matches(*self, title@),
    {
        all_words_in(self.filter.as_str(), title)
    }
}

/// The index of the first rule that accepts `title`; rules are tried in order.
pub fn first_matching_rule(rules: &Vec<DownloadRule>, title: &str) -> (r: Option<usize>)
    ensures
        r is None <==> !some_rule_matches(rules@, title@),
        r matches Some(i) ==> is_first_match(rules@, title@, i as int),
{
    let mut i: usize = 0;
    while i < rules.len()
        invariant
            i <= rules@.len(),
            forall|j: int| 0 <= j < i ==> !rule_matches(#[trigger] rules@[j], title@),
        decreases rules@.len() - i,
    {
        if rules[i].check(title) {
            return Some(i);
        }
        i = i + 1;
    }
    None
}

impl TransmissionPassword {
    /// The file to read the password from, if the password is not inline.
    pub fn password_file(&self) -> (r: Option<String>)
        ensures
            match *self {
                TransmissionPassword::Raw { .. } => r is None,
                TransmissionPassword::File { password_file } => r == Some(password_file),
            },
    {
        match self {
            TransmissionPassword::Raw { .. } => None,
            TransmissionPassword::File { password_file } => Some(password_file.clone()),
        }
    }
}

impl RawTransmission {
    /// Resolves the password: an inline one is kept as it is; one kept in a
    /// file is taken from `file_contents`, the text read from that file,
    /// with surrounding whitespace removed. A password file whose contents
    /// are not given yields `None`.
    pub fn resolve(self, file_contents: Option<String>) -> (r: Option<Transmission>)
        ensures
            match self.password {
                TransmissionPassword::Raw { password } => r == Some(
                    Transmission { url: self.url, username: self.username, password },
                ),
                TransmissionPassword::File { .. } => match file_contents {
                    None => r is None,
                    Some(c) => r matches Some(t) && t.url == self.url && t.username
                        == self.username && t.password@ == trimmed(c@),
                },
            },
    {
        let RawTransmission { url, username, password } = self;
        match password {
            TransmissionPassword::Raw { password } => Some(Transmission { url, username, password }),
            TransmissionPassword::File { .. } => match file_contents {
                None => None,
                Some(c) => Some(Transmission { url, username, password: trim(c.as_str()) }),
            },
        }
    }
}

} // verus!
