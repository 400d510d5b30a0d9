use chrono::{Duration, Utc};
use filterflow::config::{
    check_url_parts, validate_config, validate_url, ConfigError, ConfigOutline, FeedConfig, ProxyConfig,
    SitemapConfig, UrlProblem,
};
use filterflow::expiry::{end_stamp, expiry_verdict, is_inmet_alert_expired};

const HOUR_MS: i64 = 3_600_000;

#[test]
fn inmet_expiry_primary_path() {
    let desc = "<table><tr><th>Início</th><td>2019-12-31 00:00:00.0</td></tr>\n<tr><th>Fim</th><td>2020-01-01 00:00:00.0</td></tr></table>";
    let now = Utc::now().timestamp_millis();
    assert!(is_inmet_alert_expired(desc, &None, now));
    // The stated end wins over a fresh publication date.
    let fresh = Some(Utc::now().to_rfc2822());
    assert!(is_inmet_alert_expired(desc, &fresh, now));
}

#[test]
fn inmet_future_end_is_current() {
    let desc = "<th>Fim</th><td>2999-01-01 00:00:00.0</td>";
    let now = Utc::now().timestamp_millis();
    let old = Some((Utc::now() - Duration::hours(100)).to_rfc2822());
    assert!(!is_inmet_alert_expired(desc, &old, now));
}

#[test]
fn inmet_expiry_fallback_path() {
    let now = Utc::now();
    let old = Some((now - Duration::hours(100)).to_rfc2822());
    let recent = Some((now - Duration::hours(10)).to_rfc2822());
    assert!(is_inmet_alert_expired("Aviso sem tabela", &old, now.timestamp_millis()));
    assert!(!is_inmet_alert_expired("Aviso sem tabela", &recent, now.timestamp_millis()));
}

#[test]
fn unreadable_end_falls_back_to_publication() {
    let now = Utc::now();
    let old = Some((now - Duration::hours(100)).to_rfc2822());
    assert!(is_inmet_alert_expired("<th>Fim</th><td>soon</td>", &old, now.timestamp_millis()));
}

#[test]
fn no_signal_means_current() {
    let now = Utc::now().timestamp_millis();
    assert!(!is_inmet_alert_expired("nothing", &None, now));
    assert!(!is_inmet_alert_expired("nothing", &Some("not a date".to_string()), now));
}

#[test]
fn end_stamp_normalises() {
    assert_eq!(end_stamp(" 2025-10-28 10:00:00.0 "), "2025-10-28T10:00:00Z");
    assert_eq!(end_stamp("2025-10-28 10:00:00"), "2025-10-28T10:00:00Z");
}

#[test]
fn expiry_verdict_values() {
    assert!(expiry_verdict(Some(10), Some(0), 11));
    assert!(!expiry_verdict(Some(10), None, 10));
    assert!(!expiry_verdict(None, Some(0), 72 * HOUR_MS));
    assert!(expiry_verdict(None, Some(0), 72 * HOUR_MS + 1));
    assert!(!expiry_verdict(None, None, i64::MAX));
    assert!(expiry_verdict(None, Some(i64::MIN), i64::MAX));
}

fn outline(interval: u64, feed_url: &str, proxy_enabled: bool, proxy: &str) -> ConfigOutline {
    ConfigOutline {
        interval_minutes: interval,
        endpoint: "http://localhost:1234/v1/chat/completions".to_string(),
        proxy: ProxyConfig { enabled: proxy_enabled, address: proxy.to_string() },
        feeds: vec![FeedConfig { name: "News".to_string(), url: feed_url.to_string() }],
        sitemaps: vec![SitemapConfig { name: "Site".to_string(), url: "https://example.com/sitemap.xml".to_string() }],
    }
}

#[test]
fn config_validation() {
    assert_eq!(validate_config(&outline(1, "https://example.com/rss", false, "")), Err(ConfigError::IntervalTooShort));
    assert_eq!(validate_config(&outline(5, "example.com/rss", false, "")), Err(ConfigError::Feed(0, UrlProblem::Unparsable)));
    assert_eq!(validate_config(&outline(5, "https://example.com/rss", false, "not a url")), Ok(()));
    assert_eq!(
        validate_config(&outline(5, "https://example.com/rss", true, "not a url")),
        Err(ConfigError::Proxy(UrlProblem::Unparsable))
    );
    assert_eq!(validate_config(&outline(2, "https://example.com/rss", true, "http://proxy:8080")), Ok(()));
}

#[test]
fn config_checks_sitemaps_and_endpoint() {
    let mut c = outline(5, "https://example.com/rss", false, "");
    c.sitemaps.push(SitemapConfig { name: "Bad".to_string(), url: "ftp://example.com/s.xml".to_string() });
    assert_eq!(validate_config(&c), Err(ConfigError::Sitemap(1, UrlProblem::Scheme)));
    c.endpoint = "localhost".to_string();
    assert_eq!(validate_config(&c), Err(ConfigError::Endpoint(UrlProblem::Unparsable)));
}

#[test]
fn url_problems() {
    assert_eq!(validate_url("https://example.com/feed"), Ok(()));
    assert_eq!(validate_url("ftp://example.com/feed"), Err(UrlProblem::Scheme));
    assert_eq!(validate_url("mailto:someone@example.com"), Err(UrlProblem::MissingHost));
    assert_eq!(validate_url("example.com"), Err(UrlProblem::Unparsable));
    assert_eq!(check_url_parts(&Some(("http".to_string(), false))), Err(UrlProblem::MissingHost));
    assert_eq!(check_url_parts(&Some(("https".to_string(), true))), Ok(()));
    assert_eq!(check_url_parts(&None), Err(UrlProblem::Unparsable));
}
