use filterflow::feed::{plan_feed, plan_feed_at, FeedError, FeedStep};
use filterflow::flow::{Action, Event, ItemFlow, Outcome, Phase};
use filterflow::sitemap::{plan_document, SitemapWalk, MAX_SITEMAP_DEPTH};

/// Runs one item against fixed answers, returning the actions taken and the outcome.
fn drive(flow: &mut ItemFlow, irrelevant: bool, processed: bool, verdict: Option<bool>) -> (Vec<Action>, Outcome) {
    let mut actions = Vec::new();
    loop {
        let a = flow.action();
        actions.push(a);
        let ev = match a {
            Action::LookupIrrelevant => Event::Found(irrelevant),
            Action::LookupProcessed => Event::Found(processed),
            Action::RequestVerdict => match verdict {
                Some(v) => Event::Verdict(v),
                None => Event::VerdictFailed,
            },
            Action::RequestSummary => Event::Summarized,
            Action::MarkProcessed | Action::MarkIrrelevant => Event::Written,
            Action::Finish(o) => return (actions, o),
        };
        flow.advance(ev);
    }
}

fn asks_oracle(actions: &[Action]) -> bool {
    actions.iter().any(|a| matches!(a, Action::RequestVerdict | Action::RequestSummary))
}

#[test]
fn idempotence_of_known_links() {
    let (a, o) = drive(&mut ItemFlow::new(), true, false, Some(true));
    assert_eq!(o, Outcome::Skipped);
    assert!(!asks_oracle(&a));
    let (a, o) = drive(&mut ItemFlow::new(), false, true, Some(true));
    assert_eq!(o, Outcome::Skipped);
    assert!(!asks_oracle(&a));
}

#[test]
fn relevant_item_is_summarised_and_recorded() {
    let (a, o) = drive(&mut ItemFlow::new(), false, false, Some(true));
    assert_eq!(o, Outcome::Processed);
    assert_eq!(
        a,
        vec![
            Action::LookupIrrelevant,
            Action::LookupProcessed,
            Action::RequestVerdict,
            Action::RequestSummary,
            Action::MarkProcessed,
            Action::Finish(Outcome::Processed)
        ]
    );
}

#[test]
fn irrelevant_item_is_recorded() {
    let (a, o) = drive(&mut ItemFlow::new(), false, false, Some(false));
    assert_eq!(o, Outcome::Irrelevant);
    assert!(a.contains(&Action::MarkIrrelevant));
    assert!(!a.contains(&Action::RequestSummary));
}

#[test]
fn failed_filter_is_not_recorded() {
    let (a, o) = drive(&mut ItemFlow::new(), false, false, None);
    assert_eq!(o, Outcome::Deferred);
    assert!(!a.contains(&Action::MarkIrrelevant));
    assert!(!a.contains(&Action::MarkProcessed));
}

#[test]
fn store_read_failure_ends_item() {
    let mut f = ItemFlow::new();
    f.advance(Event::LookupFailed);
    assert_eq!(f.phase, Phase::Done(Outcome::StoreFailed));
    let mut f = ItemFlow::new();
    f.advance(Event::Found(false));
    f.advance(Event::LookupFailed);
    assert_eq!(f.action(), Action::Finish(Outcome::StoreFailed));
}

#[test]
fn expired_alert_goes_straight_to_irrelevant() {
    let (a, o) = drive(&mut ItemFlow::expired(), false, false, Some(true));
    assert_eq!(o, Outcome::Irrelevant);
    assert_eq!(a, vec![Action::MarkIrrelevant, Action::Finish(Outcome::Irrelevant)]);
}

#[test]
fn unrelated_event_changes_nothing() {
    let mut f = ItemFlow::new();
    f.advance(Event::Summarized);
    assert_eq!(f.phase, Phase::CheckIrrelevant);
    assert!(!f.is_done());
}

fn urlset(links: &[&str]) -> Vec<u8> {
    let mut s = String::from("<?xml version=\"1.0\" encoding=\"UTF-8\"?><urlset xmlns=\"http://www.sitemaps.org/schemas/sitemap/0.9\">");
    for l in links {
        s.push_str(&format!("<url><loc>{l}</loc></url>"));
    }
    s.push_str("</urlset>");
    s.into_bytes()
}

fn index(children: &[&str]) -> Vec<u8> {
    let mut s = String::from("<?xml version=\"1.0\" encoding=\"UTF-8\"?><sitemapindex xmlns=\"http://www.sitemaps.org/schemas/sitemap/0.9\">");
    for c in children {
        s.push_str(&format!("<sitemap><loc>{c}</loc></sitemap>"));
    }
    s.push_str("</sitemapindex>");
    s.into_bytes()
}

#[test]
fn sitemap_pages_become_candidates() {
    let (items, children) = plan_document(&urlset(&["https://example.com/a", "https://example.com/b"]));
    assert!(children.is_empty());
    assert_eq!(items.len(), 2);
    assert_eq!(items[0].link, "https://example.com/a");
    assert_eq!(items[0].title, "[Sitemap] https://example.com/a");
    assert_eq!(items[0].description, "Last modified: [N/A]");
}

#[test]
fn sitemap_lastmod_is_described() {
    let xml = b"<urlset><url><loc>https://example.com/a</loc><lastmod>2024-05-01T10:00:00+00:00</lastmod></url><url><lastmod>2024-05-01</lastmod></url></urlset>";
    let (items, _) = plan_document(xml);
    assert_eq!(items.len(), 1);
    assert!(items[0].description.starts_with("Last modified: 2024-05-01"));
    assert_ne!(items[0].description, "Last modified: [N/A]");
}

#[test]
fn sitemap_index_gives_children() {
    let (items, children) = plan_document(&index(&["https://example.com/s1.xml", "https://example.com/s2.xml"]));
    assert!(items.is_empty());
    assert_eq!(children, vec!["https://example.com/s1.xml".to_string(), "https://example.com/s2.xml".to_string()]);
}

/// Runs a walk where `fetch` gives each sitemap's document, or `None` when the fetch fails;
/// every candidate counts as processed.
fn walk(root: &str, fetch: &dyn Fn(&str) -> Option<Vec<u8>>) -> (u64, Vec<String>) {
    let mut w = SitemapWalk::new(root);
    let mut fetched = Vec::new();
    while let Some((url, depth)) = w.next_fetch() {
        fetched.push(url.clone());
        if let Some(xml) = fetch(&url) {
            for _item in w.on_fetched(depth, &xml) {
                w.record(Outcome::Processed);
            }
        }
    }
    (w.processed, fetched)
}

#[test]
fn sitemap_recursion_partial_failure() {
    let fetch = |u: &str| -> Option<Vec<u8>> {
        match u {
            "https://example.com/root.xml" => Some(index(&[
                "https://example.com/a.xml",
                "https://example.com/b.xml",
                "https://example.com/c.xml",
            ])),
            "https://example.com/a.xml" => Some(urlset(&["https://example.com/1", "https://example.com/2"])),
            "https://example.com/b.xml" => None,
            "https://example.com/c.xml" => Some(urlset(&["https://example.com/3"])),
            _ => None,
        }
    };
    let (count, fetched) = walk("https://example.com/root.xml", &fetch);
    assert_eq!(count, 3);
    assert_eq!(fetched.len(), 4);
}

#[test]
fn sitemap_cycle_is_fetched_once() {
    let fetch = |u: &str| -> Option<Vec<u8>> {
        match u {
            "https://example.com/a.xml" => Some(index(&["https://example.com/b.xml", "https://example.com/a.xml"])),
            "https://example.com/b.xml" => Some(index(&["https://example.com/a.xml"])),
            _ => None,
        }
    };
    let (count, fetched) = walk("https://example.com/a.xml", &fetch);
    assert_eq!(count, 0);
    assert_eq!(fetched, vec!["https://example.com/a.xml".to_string(), "https://example.com/b.xml".to_string()]);
}

#[test]
fn sitemap_depth_is_bounded() {
    let fetch = |u: &str| -> Option<Vec<u8>> {
        let n: usize = u.trim_start_matches("https://example.com/s").trim_end_matches(".xml").parse().ok()?;
        Some(index(&[&format!("https://example.com/s{}.xml", n + 1)]))
    };
    let (_, fetched) = walk("https://example.com/s0.xml", &fetch);
    assert_eq!(fetched.len(), MAX_SITEMAP_DEPTH + 1);
}

#[test]
fn processed_count_ignores_other_outcomes() {
    let mut w = SitemapWalk::new("https://example.com/s.xml");
    w.record(Outcome::Skipped);
    w.record(Outcome::Irrelevant);
    w.record(Outcome::Processed);
    assert_eq!(w.processed, 1);
}

const CHANNEL: &str = r#"<?xml version="1.0"?>
<rss version="2.0" xmlns:content="http://purl.org/rss/1.0/modules/content/"><channel><title>t</title><link>https://example.com</link><description>d</description>
<item><title>First</title><link>https://example.com/1</link><description>&lt;p&gt;Plain http://x.org text&lt;/p&gt;</description></item>
<item><title>No link</title><description>skipped</description></item>
<item><link>https://example.com/3</link><description>short</description><content:encoded>&lt;b&gt;Richer&lt;/b&gt; content</content:encoded></item>
<item><title>List</title><link>https://example.com/4</link><description>&lt;ol&gt;&lt;li&gt;a&lt;/li&gt;&lt;/ol&gt;</description></item>
</channel></rss>"#;

#[test]
fn feed_items_become_candidates() {
    let steps = plan_feed_at("News", CHANNEL.as_bytes(), 0).unwrap();
    assert_eq!(steps.len(), 3);
    match &steps[0] {
        FeedStep::Candidate(c) => {
            assert_eq!(c.link, "https://example.com/1");
            assert_eq!(c.title, "First");
            assert_eq!(c.description, "Plain x.org text");
        }
        _ => panic!("expected a candidate"),
    }
    match &steps[1] {
        FeedStep::Candidate(c) => {
            assert_eq!(c.title, "https://example.com/3");
            assert_eq!(c.description, "Richer content");
        }
        _ => panic!("expected a candidate"),
    }
    match &steps[2] {
        FeedStep::Candidate(c) => assert_eq!(c.description, ""),
        _ => panic!("expected a candidate"),
    }
}

#[test]
fn malformed_feed_is_refused() {
    assert!(matches!(plan_feed("News", b"not xml at all"), Err(FeedError::Malformed)));
}

const ALERTS: &str = r#"<?xml version="1.0"?>
<rss version="2.0"><channel><title>a</title><link>https://alerts.example</link><description>d</description>
<item><title>Old</title><link>https://alerts.example/1</link><description>&lt;table&gt;&lt;tr&gt;&lt;th&gt;Fim&lt;/th&gt;&lt;td&gt;2020-01-01 00:00:00.0&lt;/td&gt;&lt;/tr&gt;&lt;/table&gt;</description></item>
<item><title>Live</title><link>https://alerts.example/2</link><description>&lt;table&gt;&lt;tr&gt;&lt;th&gt;Fim&lt;/th&gt;&lt;td&gt;2999-01-01 00:00:00.0&lt;/td&gt;&lt;/tr&gt;&lt;/table&gt;</description></item>
</channel></rss>"#;

#[test]
fn expired_alerts_are_recorded_unclassified() {
    let steps = plan_feed("Avisos INMET", ALERTS.as_bytes()).unwrap();
    assert_eq!(steps.len(), 2);
    assert!(matches!(&steps[0], FeedStep::Expired(l) if l == "https://alerts.example/1"));
    assert!(matches!(&steps[1], FeedStep::Candidate(c) if c.title == "Live"));
    // A source without the marker classifies every item.
    let steps = plan_feed("Weather", ALERTS.as_bytes()).unwrap();
    assert!(steps.iter().all(|s| matches!(s, FeedStep::Candidate(_))));
}
