use transmission_rss::config::{
    first_matching_rule, DownloadRule, RawTransmission, RssFeed, TransmissionPassword,
};
use transmission_rss::feed::check_rules;
use transmission_rss::text::{all_words_in, trim};

fn rule(filter: &str, dir: &str, labels: &[&str]) -> DownloadRule {
    DownloadRule {
        filter: filter.to_string(),
        download_dir: dir.to_string(),
        labels: labels.iter().map(|l| l.to_string()).collect(),
    }
}

fn feed(rules: Vec<DownloadRule>) -> RssFeed {
    RssFeed {
        name: "shows".to_string(),
        url: url::Url::parse("http://example.com/feed.xml").unwrap(),
        rules,
    }
}

#[test]
fn check_requires_every_word() {
    let r = rule("S01 1080p", "hd", &[]);
    assert!(r.check("Show S01 1080p"));
    assert!(r.check("Show 1080p S01E02"));
    assert!(!r.check("Show S01 720p"));
}

#[test]
fn check_is_case_sensitive() {
    assert!(!rule("s01", "x", &[]).check("Show S01"));
}

#[test]
fn check_empty_filter_matches_everything() {
    assert!(rule("", "x", &[]).check("anything"));
    assert!(rule("  \t ", "x", &[]).check(""));
}

#[test]
fn check_splits_on_unicode_whitespace() {
    assert!(all_words_in("Show\u{3000}S01\n", "Show S01"));
    assert!(!all_words_in("Show\u{00A0}X", "Show S01"));
    assert!(all_words_in("a\u{00A0}b", "b a"));
}

#[test]
fn check_word_longer_than_title() {
    assert!(!rule("Season01Complete", "x", &[]).check("S01"));
}

#[test]
fn first_match_wins() {
    let rules = vec![rule("S01", "season1", &["tv"]), rule("S01 1080p", "hd", &["hd"])];
    assert_eq!(first_matching_rule(&rules, "Show S01 1080p"), Some(0));
    assert_eq!(first_matching_rule(&rules, "Show S02 1080p"), None);
    let later = vec![rule("S02", "a", &[]), rule("1080p", "b", &[])];
    assert_eq!(first_matching_rule(&later, "Show S01 1080p"), Some(1));
}

#[test]
fn check_rules_builds_request_from_first_rule() {
    let f = feed(vec![rule("S01", "season1", &["tv"]), rule("S01 1080p", "hd", &["hd"])]);
    let t = check_rules(&f, "/downloads", "magnet:1".to_string(), "Show S01 1080p".to_string())
        .expect("a rule matches");
    assert_eq!(t.link, "magnet:1");
    assert_eq!(t.title, "Show S01 1080p");
    assert_eq!(t.download_dir, "/downloads/season1");
    assert_eq!(t.labels, vec!["tv".to_string()]);
}

#[test]
fn check_rules_absolute_rule_directory_replaces_base() {
    let f = feed(vec![rule("Show", "/srv/other", &[])]);
    let t = check_rules(&f, "/downloads", "l".to_string(), "Show".to_string()).unwrap();
    assert_eq!(t.download_dir, "/srv/other");
}

#[test]
fn check_rules_without_match() {
    let f = feed(vec![rule("S02", "x", &[])]);
    assert!(check_rules(&f, "/d", "l".to_string(), "Show S01".to_string()).is_none());
    assert!(check_rules(&feed(vec![]), "/d", "l".to_string(), "Show".to_string()).is_none());
}

#[test]
fn trim_removes_surrounding_whitespace() {
    assert_eq!(trim("  secret\n"), "secret");
    assert_eq!(trim("\u{2003}pa ss\t"), "pa ss");
    assert_eq!(trim(" \n "), "");
    assert_eq!(trim(""), "");
}

fn raw(password: TransmissionPassword) -> RawTransmission {
    RawTransmission {
        url: url::Url::parse("http://localhost:9091/transmission/rpc").unwrap(),
        username: "user".to_string(),
        password,
    }
}

#[test]
fn inline_password_is_kept() {
    let p = TransmissionPassword::Raw { password: " pw ".to_string() };
    assert_eq!(p.password_file(), None);
    let t = raw(p).resolve(None).unwrap();
    assert_eq!(t.password, " pw ");
    assert_eq!(t.username, "user");
}

#[test]
fn file_password_is_trimmed() {
    let p = TransmissionPassword::File { password_file: "/etc/pw".to_string() };
    assert_eq!(p.password_file(), Some("/etc/pw".to_string()));
    let t = raw(p).resolve(Some("hunter2\n".to_string())).unwrap();
    assert_eq!(t.password, "hunter2");
    assert_eq!(t.url.as_str(), "http://localhost:9091/transmission/rpc");
}

#[test]
fn file_password_without_contents() {
    let p = TransmissionPassword::File { password_file: "/etc/pw".to_string() };
    assert!(raw(p).resolve(None).is_none());
}
