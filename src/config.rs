//! Checks on the configuration before any cycle runs on it.
use vstd::prelude::*;
use crate::text::same_text;

verus! {

broadcast use vstd::string::group_string_axioms;

/// The shortest polling interval allowed, in minutes.
pub const MIN_INTERVAL_MINUTES: u64 = 2;

/// A feed source: a name for the operator and the address of the feed.
pub struct FeedConfig {
    pub name: String,
    pub url: String,
}

/// A sitemap source: a name for the operator and the address of the root sitemap.
pub struct SitemapConfig {
    pub name: String,
    pub url: String,
}

/// Whether requests go through a proxy, and which.
pub struct ProxyConfig {
    pub enabled: bool,
    pub address: String,
}

/// The part of a configuration snapshot whose values are checked before use.
pub struct ConfigOutline {
    pub interval_minutes: u64,
    pub endpoint: String,
    pub proxy: ProxyConfig,
    pub feeds: Vec<FeedConfig>,
    pub sitemaps: Vec<SitemapConfig>,
}

/// Why an address is refused.
#[derive(Debug, Clone, Copy, PartialEq, Eq, Structural)]
pub enum UrlProblem {
    /// It does not parse as an absolute URL.
    Unparsable,
    /// It names no host.
    MissingHost,
    /// Its scheme is neither `http` nor `https`.
    Scheme,
}

/// Why a configuration is refused; a source is given by its position in its list.
#[derive(Debug, Clone, Copy, PartialEq, Eq, Structural)]
pub enum ConfigError {
    IntervalTooShort,
    Endpoint(UrlProblem),
    Proxy(UrlProblem),
    Feed(usize, UrlProblem),
    Sitemap(usize, UrlProblem),
}

/// The scheme of the URL that the `url` crate parses from `s`, and whether it has a
/// host; `None` when `s` does not parse.
pub uninterp spec fn url_parts(s: Seq<char>) -> Option<(Seq<char>, bool)>;

pub open spec fn parts_verdict(p: Option<(Seq<char>, bool)>) -> Result<(), UrlProblem> {
    match p {
        None => Err(UrlProblem::Unparsable),
        Some((scheme, host)) => if !host {
            Err(UrlProblem::MissingHost)
        } else if scheme != seq!['h', 't', 't', 'p'] && scheme != seq!['h', 't', 't', 'p', 's'] {
            Err(UrlProblem::Scheme)
        } else {
            Ok(())
        },
    }
}

/// Whether an address is acceptable: it parses, names a host, and uses http or https.
pub open spec fn url_verdict(s: Seq<char>) -> Result<(), UrlProblem> {
    parts_verdict(url_parts(s))
}

/// The first address from position `i` on that is refused, with why.
pub open spec fn first_refused(urls: Seq<Seq<char>>, i: int) -> Option<(int, UrlProblem)>
    decreases urls.len() - i,
{
    if i < 0 || i >= urls.len() {
        None
    } else {
        match url_verdict(urls[i]) {
            Err(e) => Some((i, e)),
            Ok(_) => first_refused(urls, i + 1),
        }
    }
}

pub open spec fn feed_urls(c: ConfigOutline) -> Seq<Seq<char>> {
    c.feeds@.map_values(|f: FeedConfig| f.url@)
}

pub open spec fn sitemap_urls(c: ConfigOutline) -> Seq<Seq<char>> {
    c.sitemaps@.map_values(|f: SitemapConfig| f.url@)
}

/// The checks in order: the interval, the endpoint, the proxy when it is enabled, each
/// feed, each sitemap. The first that fails decides the error.
pub open spec fn config_verdict(c: ConfigOutline) -> Result<(), ConfigError> {
    if c.interval_minutes < MIN_INTERVAL_MINUTES {
        Err(ConfigError::IntervalTooShort)
    } else if url_verdict(c.endpoint@) is Err {
        Err(ConfigError::Endpoint(url_verdict(c.endpoint@)->Err_0))
    } else if c.proxy.enabled && url_verdict(c.proxy.address@) is Err {
        Err(ConfigError::Proxy(url_verdict(c.proxy.address@)->Err_0))
    } else if first_refused(feed_urls(c), 0) is Some {
        let (i, e) = first_refused(feed_urls(c), 0)->0;
        Err(ConfigError::Feed(i as usize, e))
    } else if first_refused(sitemap_urls(c), 0) is Some {
        let (i, e) = first_refused(sitemap_urls(c), 0)->0;
        Err(ConfigError::Sitemap(i as usize, e))
    } else {
        Ok(())
    }
}

/// Relies on url::Url::parse, Url::scheme and Url::has_host.
#[verifier::external_body]
fn parse_url_parts(s: &str) -> (r: Option<(String, bool)>)
    ensures
        match r {
            Some((scheme, host)) => url_parts(s@) == Some((scheme@, host)),
            None => url_parts(s@) is None,
        },
{
    url::Url::parse(s).ok().map(|u| (u.scheme().to_string(), u.has_host()))
}

/// The verdict on an address, from what parsing it gave.
pub fn check_url_parts(parts: &Option<(String, bool)>) -> (r: Result<(), UrlProblem>)
    ensures
        r == parts_verdict(match parts {
            Some((scheme, host)) => Some((scheme@, *host)),
            None => None,
        }),
{
    match parts {
        None => Err(UrlProblem::Unparsable),
        Some((scheme, host)) => {
            if !*host {
                return Err(UrlProblem::MissingHost);
            }
            proof {
                reveal_strlit("http");
                reveal_strlit("https");
            }
            let http = same_text(scheme.as_str(), "http");
            let https = same_text(scheme.as_str(), "https");
            assert("http"@ =~= seq!['h', 't', 't', 'p']);
            assert("https"@ =~= seq!['h', 't', 't', 'p', 's']);
            if http || https {
                Ok(())
            } else {
                Err(UrlProblem::Scheme)
            }
        },
    }
}

/// Whether an address parses, names a host, and uses http or https.
pub fn validate_url(url: &str) -> (r: Result<(), UrlProblem>)
    ensures
        r == url_verdict(url@),
{
    let parts = parse_url_parts(url);
    check_url_parts(&parts)
}

/// Checks a configuration before use.
pub fn validate_config(config: &ConfigOutline) -> (r: Result<(), ConfigError>)
    ensures
        r == config_verdict(*config),
{
    if config.interval_minutes < MIN_INTERVAL_MINUTES {
        return Err(ConfigError::IntervalTooShort);
    }
    if let Err(e) = validate_url(config.endpoint.as_str()) {
        return Err(ConfigError::Endpoint(e));
    }
    if config.proxy.enabled {
        if let Err(e) = validate_url(config.proxy.address.as_str()) {
            return Err(ConfigError::Proxy(e));
        }
    }
    let ghost feeds = feed_urls(*config);
    let mut i: usize = 0;
    while i < config.feeds.len()
        invariant
            i <= config.feeds.len(),
            config.interval_minutes >= MIN_INTERVAL_MINUTES,
            url_verdict(config.endpoint@) is Ok,
            config.proxy.enabled ==> url_verdict(config.proxy.address@) is Ok,
            feeds == feed_urls(*config),
            first_refused(feeds, 0) == first_refused(feeds, i as int),
        decreases config.feeds.len() - i,
    {
        assert(feeds[i as int] == config.feeds@[i as int].url@);
        if let Err(e) = validate_url(config.feeds[i].url.as_str()) {
            return Err(ConfigError::Feed(i, e));
        }
        i += 1;
    }
    let ghost sitemaps = sitemap_urls(*config);
    let mut j: usize = 0;
    while j < config.sitemaps.len()
        invariant
            j <= config.sitemaps.len(),
            first_refused(feed_urls(*config), 0) is None,
            config.interval_minutes >= MIN_INTERVAL_MINUTES,
            url_verdict(config.endpoint@) is Ok,
            config.proxy.enabled ==> url_verdict(config.proxy.address@) is Ok,
            sitemaps == sitemap_urls(*config),
            first_refused(sitemaps, 0) == first_refused(sitemaps, j as int),
        decreases config.sitemaps.len() - j,
    {
        assert(sitemaps[j as int] == config.sitemaps@[j as int].url@);
        if let Err(e) = validate_url(config.sitemaps[j].url.as_str()) {
            return Err(ConfigError::Sitemap(j, e));
        }
        j += 1;
    }
    assert(first_refused(feeds, 0) is None);
    assert(first_refused(sitemaps, 0) is None);
    Ok(())
}

} // verus!
