//! Configuration records handed to the core by the config loader, and the
//! defaulting the core applies to them.
//!
//! All durations are held as whole milliseconds.
use vstd::prelude::*;

use crate::discover::Discover;
use crate::result::Error;

verus! {

/// Global scrape settings: the defaults a job falls back to when it
/// carries no override of its own.
#[derive(Clone, Copy, Debug, PartialEq, Eq, Structural)]
pub struct GlobalConfig {
    /// Default time between two polls of one target, in milliseconds.
    pub scrape_interval: u64,
    /// Default bound on one poll, in milliseconds.
    pub scrape_timeout: u64,
    /// Time between two rule evaluations, in milliseconds.
    pub evaluation_interval: u64,
}

/// One scrape-job definition: an immutable per-reload snapshot.
#[derive(Clone, Debug, PartialEq, Eq, Hash)]
pub struct ScrapeConfig {
    /// The job's name, unique within one reload generation.
    pub job_name: String,
    /// Override of the global scrape interval, in milliseconds.
    pub scrape_interval: Option<u64>,
    /// Override of the global scrape timeout, in milliseconds.
    pub scrape_timeout: Option<u64>,
    /// The path polled on every target.
    pub metrics_path: String,
    /// The URL scheme polled on every target.
    pub scheme: String,
    /// How this job's targets are discovered.
    pub discover: Discover,
}

/// The mathematical content of a `ScrapeConfig`.
#[verifier::ext_equal]
pub ghost struct ScrapeConfigView {
    pub job_name: Seq<char>,
    pub scrape_interval: Option<u64>,
    pub scrape_timeout: Option<u64>,
    pub metrics_path: Seq<char>,
    pub scheme: Seq<char>,
    pub discover: Option<Seq<Seq<Seq<char>>>>,
}

impl View for ScrapeConfig {
    type V = ScrapeConfigView;

    open spec fn view(&self) -> ScrapeConfigView {
        ScrapeConfigView {
            job_name: self.job_name@,
            scrape_interval: self.scrape_interval,
            scrape_timeout: self.scrape_timeout,
            metrics_path: self.metrics_path@,
            scheme: self.scheme@,
            discover: self.discover@,
        }
    }
}

impl DeepView for ScrapeConfig {
    type V = ScrapeConfigView;

    open spec fn deep_view(&self) -> ScrapeConfigView {
        self@
    }
}

impl ScrapeConfig {
    /// A field-wise copy of this snapshot.
    pub fn deep_clone(&self) -> (r: ScrapeConfig)
        ensures
            r@ == self@,
    {
        let discover = Discover {
            static_configs: match &self.discover.static_configs {
                Some(groups) => Some(crate::discover::clone_groups(groups)),
                None => None,
            },
        };
        ScrapeConfig {
            job_name: self.job_name.clone(),
            scrape_interval: self.scrape_interval,
            scrape_timeout: self.scrape_timeout,
            metrics_path: self.metrics_path.clone(),
            scheme: self.scheme.clone(),
            discover,
        }
    }
}

/// An element-wise copy of a scrape-config list, as a reload message
/// carries it.
pub fn clone_configs(configs: &Vec<ScrapeConfig>) -> (r: Vec<ScrapeConfig>)
    ensures
        r.deep_view() == configs.deep_view(),
{
    let mut r: Vec<ScrapeConfig> = Vec::new();
    let mut i: usize = 0;
    while i < configs.len()
        invariant
            i <= configs@.len(),
            r.deep_view() =~= configs.deep_view().take(i as int),
        decreases configs@.len() - i,
    {
        let ghost pre = r;
        let c = configs[i].deep_clone();
        r.push(c);
        proof {
            crate::views::lemma_deep_view_push(pre, r, c);
            crate::views::lemma_deep_view_index(*configs, i as int);
        }
        i += 1;
        assert(r.deep_view() =~= configs.deep_view().take(i as int));
    }
    assert(r.deep_view() =~= configs.deep_view());
    r
}

/// The whole configuration one reload delivers: global settings and one
/// entry per scrape job.
#[derive(Debug, PartialEq, Eq)]
pub struct Config {
    /// The global defaults.
    pub global: GlobalConfig,
    /// One entry per scrape job.
    pub scrape_configs: Vec<ScrapeConfig>,
}

/// The path polled when a scrape config names none.
pub fn default_metrics_path() -> (r: String)
    ensures
        r@ == "/metrics"@,
{
    "/metrics".to_owned()
}

/// The URL scheme used when a scrape config names none.
pub fn default_scheme() -> (r: String)
    ensures
        r@ == "http"@,
{
    "http".to_owned()
}

/// The evaluation interval used when the global section names none:
/// fifteen seconds, in milliseconds.
pub fn default_evaluation_interval() -> (r: u64)
    ensures
        r == 15000,
{
    15000
}

/// A scrape config with the global timeout filled in where the entry
/// carries no override of its own.
pub open spec fn spec_with_default_timeout(c: ScrapeConfigView, default_timeout: u64) -> ScrapeConfigView {
    if c.scrape_timeout is None {
        ScrapeConfigView { scrape_timeout: Some(default_timeout), ..c }
    } else {
        c
    }
}

/// Fills each scrape config's missing timeout with the global one, as the
/// config loader does right after parsing.
pub fn apply_timeout_defaults(config: &mut Config)
    ensures
        final(config).global == old(config).global,
        final(config).scrape_configs.deep_view() == old(config).scrape_configs.deep_view().map_values(
            |c: ScrapeConfigView| spec_with_default_timeout(c, old(config).global.scrape_timeout),
        ),
{
    let default_timeout = config.global.scrape_timeout;
    let n = config.scrape_configs.len();
    let mut i: usize = 0;
    while i < n
        invariant
            n == config.scrape_configs@.len(),
            config.global == old(config).global,
            default_timeout == old(config).global.scrape_timeout,
            forall|k: int|
                0 <= k < i ==> #[trigger] config.scrape_configs@[k]@ == spec_with_default_timeout(
                    old(config).scrape_configs@[k]@,
                    old(config).global.scrape_timeout,
                ),
            forall|k: int|
                i <= k < n ==> #[trigger] config.scrape_configs@[k] == old(
                    config,
                ).scrape_configs@[k],
        decreases n - i,
    {
        if config.scrape_configs[i].scrape_timeout.is_none() {
            config.scrape_configs[i].scrape_timeout = Some(default_timeout);
        }
        i += 1;
    }
    proof {
        let dt = old(config).global.scrape_timeout;
        let m = old(config).scrape_configs.deep_view().map_values(
            |c: ScrapeConfigView| spec_with_default_timeout(c, dt),
        );
        assert forall|k: int| 0 <= k < n implies config.scrape_configs.deep_view()[k] == m[k] by {
            crate::views::lemma_deep_view_index(config.scrape_configs, k);
            crate::views::lemma_deep_view_index(old(config).scrape_configs, k);
        }
        assert(config.scrape_configs.deep_view() =~= m);
    }
}

/// What a duration string denotes, in milliseconds: the result of duration
/// parsing, which depends on the characters alone.
pub uninterp spec fn spec_parsed_millis(s: Seq<char>) -> Option<u128>;

/// Relies on duration_str::parse: turns a string such as "15s" or "1m+30s"
/// into a duration; the result is a function of the characters alone.
#[verifier::external_body]
fn parse_duration_millis(s: &str) -> (r: Option<u128>)
    ensures
        r == spec_parsed_millis(s@),
{
    match duration_str::parse(s) {
        Ok(d) => Some(d.as_millis()),
        Err(_) => None,
    }
}

/// Parses a duration string into whole milliseconds, rejecting strings the
/// duration grammar refuses and values beyond the `u64` range.
pub fn parse_duration(s: &str) -> (r: Result<u64, Error>)
    ensures
        (match spec_parsed_millis(s@) {
            Some(ms) => if ms <= u64::MAX {
                r == Ok::<u64, Error>(ms as u64)
            } else {
                r == Err::<u64, Error>(Error::InvalidDuration)
            },
            None => r == Err::<u64, Error>(Error::InvalidDuration),
        }),
{
    match parse_duration_millis(s) {
        Some(ms) => if ms <= u64::MAX as u128 {
            Ok(ms as u64)
        } else {
            Err(Error::InvalidDuration)
        },
        None => Err(Error::InvalidDuration),
    }
}

} // verus!
