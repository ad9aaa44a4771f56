//! The per-scrape-job worker: owns one config snapshot and the dynamic set
//! of scrapers for its discovered targets. A discovery result replaces the
//! whole set: the superseded scrapers are stopped first, then the new set
//! becomes the current one — a full, non-incremental replace by design.
use vstd::prelude::*;
use vstd::string::StringExecFns;

use crate::config::{ScrapeConfig, ScrapeConfigView};
use crate::discover::{Targets, TargetsView};
use crate::result::Error;
use crate::scrape::scraper::{spec_stopped_scraper, Scraper, ScraperState, ScraperView};

verus! {

/// The life of a job: created, running, or stopped. Stopped is terminal.
#[derive(Clone, Copy, Debug, PartialEq, Eq, Structural)]
pub enum JobState {
    Created,
    Running,
    Stopped,
}

/// The mathematical content of a `Job`.
#[verifier::ext_equal]
pub ghost struct JobView {
    pub name: Seq<char>,
    pub interval: u64,
    pub timeout: u64,
    pub config: ScrapeConfigView,
    pub scrapers: Seq<ScraperView>,
    pub state: JobState,
}

/// The scheduling unit for one scrape-config entry: its name, the resolved
/// interval and timeout, the immutable config snapshot, and the live
/// scraper set for its discovered targets.
#[derive(Debug, PartialEq, Eq)]
pub struct Job {
    /// The job's name: its key in the manager's registry.
    pub name: String,
    /// Time between two polls of one target, in milliseconds: the config's
    /// override where present, else the global default.
    pub interval: u64,
    /// Bound on one poll, in milliseconds: the config's override where
    /// present, else the global default.
    pub timeout: u64,
    /// The immutable per-reload snapshot this job was built from.
    pub scrape_config: ScrapeConfig,
    /// The live scrapers: one per target of the latest discovery result.
    pub scrapers: Vec<Scraper>,
    /// Where the job stands in its life cycle.
    pub state: JobState,
}

impl View for Job {
    type V = JobView;

    open spec fn view(&self) -> JobView {
        JobView {
            name: self.name@,
            interval: self.interval,
            timeout: self.timeout,
            config: self.scrape_config@,
            scrapers: self.scrapers.deep_view(),
            state: self.state,
        }
    }
}

impl DeepView for Job {
    type V = JobView;

    open spec fn deep_view(&self) -> JobView {
        self@
    }
}

/// A setting's resolution: the job's own override where present, else the
/// global default.
pub open spec fn spec_resolved(override_value: Option<u64>, default_value: u64) -> u64 {
    match override_value {
        Some(v) => v,
        None => default_value,
    }
}

/// The URL polled for one target: `{scheme}://{target}{path}`.
pub open spec fn spec_url(scheme: Seq<char>, target: Seq<char>, path: Seq<char>) -> Seq<char> {
    scheme + "://"@ + target + path
}

/// The scrapers one target group provisions, in group order.
pub open spec fn spec_group_scrapers(
    targets: Seq<Seq<char>>,
    scheme: Seq<char>,
    path: Seq<char>,
    interval: u64,
    timeout: u64,
) -> Seq<ScraperView> {
    targets.map_values(
        |t: Seq<char>| ScraperView {
            url: spec_url(scheme, t, path),
            interval,
            timeout,
            state: ScraperState::Running,
        },
    )
}

/// The scraper set one discovery result provisions: one running scraper
/// per target across all delivered groups, in delivery order.
pub open spec fn spec_scraper_set(
    groups: TargetsView,
    scheme: Seq<char>,
    path: Seq<char>,
    interval: u64,
    timeout: u64,
) -> Seq<ScraperView> {
    spec_group_scrapers(groups.flatten(), scheme, path, interval, timeout)
}

/// The job a config provisions, before start: resolved settings, the
/// snapshot kept, no scrapers yet.
pub open spec fn spec_new_job(
    name: Seq<char>,
    c: ScrapeConfigView,
    default_interval: u64,
    default_timeout: u64,
) -> JobView {
    JobView {
        name,
        interval: spec_resolved(c.scrape_interval, default_interval),
        timeout: spec_resolved(c.scrape_timeout, default_timeout),
        config: c,
        scrapers: Seq::empty(),
        state: JobState::Created,
    }
}

/// The job a config provisions once started and given its static
/// discovery result: running, with one scraper per static target.
pub open spec fn spec_provisioned_job(
    name: Seq<char>,
    c: ScrapeConfigView,
    default_interval: u64,
    default_timeout: u64,
) -> JobView {
    let interval = spec_resolved(c.scrape_interval, default_interval);
    let timeout = spec_resolved(c.scrape_timeout, default_timeout);
    JobView {
        name,
        interval,
        timeout,
        config: c,
        scrapers: match c.discover {
            Some(groups) => spec_scraper_set(groups, c.scheme, c.metrics_path, interval, timeout),
            None => Seq::empty(),
        },
        state: JobState::Running,
    }
}

/// A job after its stop signal: a running one has every scraper stopped
/// and is stopped itself; one not running has no worker to signal.
pub open spec fn spec_stopped_job(j: JobView) -> JobView {
    if j.state == JobState::Running {
        JobView {
            state: JobState::Stopped,
            scrapers: j.scrapers.map_values(|s: ScraperView| spec_stopped_scraper(s)),
            ..j
        }
    } else {
        j
    }
}

/// Builds `{scheme}://{target}{path}`.
fn build_url(scheme: &str, target: &str, path: &str) -> (r: String)
    ensures
        r@ == spec_url(scheme@, target@, path@),
{
    let mut r = scheme.to_owned();
    r.append("://");
    r.append(target);
    r.append(path);
    r
}

/// Signals every scraper of the set to stop, in place.
pub(crate) fn stop_all(scrapers: &mut Vec<Scraper>)
    ensures
        final(scrapers).deep_view() == old(scrapers).deep_view().map_values(
            |s: ScraperView| spec_stopped_scraper(s),
        ),
{
    let n = scrapers.len();
    let mut i: usize = 0;
    while i < n
        invariant
            n == scrapers@.len(),
            scrapers@.len() == old(scrapers)@.len(),
            forall|k: int| 0 <= k < i ==> #[trigger] scrapers@[k]@ == spec_stopped_scraper(old(scrapers)@[k]@),
            forall|k: int| i <= k < n ==> #[trigger] scrapers@[k] == old(scrapers)@[k],
        decreases n - i,
    {
        scrapers[i].stop();
        i += 1;
    }
    proof {
        let m = old(scrapers).deep_view().map_values(|s: ScraperView| spec_stopped_scraper(s));
        assert forall|k: int| 0 <= k < n implies scrapers.deep_view()[k] == m[k] by {
            crate::views::lemma_deep_view_index(*scrapers, k);
            crate::views::lemma_deep_view_index(*old(scrapers), k);
        }
        assert(scrapers.deep_view() =~= m);
    }
}

impl Job {
    /// A job for one scrape-config entry: resolves the effective interval
    /// and timeout and stores the snapshot. Cannot fail today; the result
    /// keeps the surface forward-compatible with fallible construction.
    pub fn new(
        job_name: &str,
        scrape_config: ScrapeConfig,
        default_interval: u64,
        default_timeout: u64,
    ) -> (r: Result<Job, Error>)
        ensures
            r is Ok,
            r matches Ok(j) ==> j@ == spec_new_job(
                job_name@,
                scrape_config@,
                default_interval,
                default_timeout,
            ),
    {
        let interval = match scrape_config.scrape_interval {
            Some(v) => v,
            None => default_interval,
        };
        let timeout = match scrape_config.scrape_timeout {
            Some(v) => v,
            None => default_timeout,
        };
        let j = Job {
            name: job_name.to_owned(),
            interval,
            timeout,
            scrape_config,
            scrapers: Vec::new(),
            state: JobState::Created,
        };
        proof {
            assert(j@ =~= spec_new_job(job_name@, j.scrape_config@, default_interval, default_timeout));
        }
        Ok(j)
    }

    /// Starts the job: begins its worker's event loop and starts
    /// discovery, handing back what discovery delivers immediately — the
    /// full static group list, or nothing if none is configured.
    pub fn start(&mut self) -> (delivery: Option<Targets>)
        requires
            old(self)@.state == JobState::Created,
        ensures
            final(self)@ == (JobView { state: JobState::Running, ..old(self)@ }),
            delivery.deep_view() == old(self)@.config.discover,
    {
        self.state = JobState::Running;
        self.scrape_config.discover.start()
    }

    /// Applies one discovery result: builds and starts one new scraper per
    /// target across every received group, then — as one atomic replace —
    /// stops every previously held scraper and makes the new set current.
    /// The superseded scrapers are handed back, each already signaled to
    /// stop, so no reader ever sees old and new targets side by side.
    pub fn handle_discovery(&mut self, targets: &Targets) -> (retired: Vec<Scraper>)
        requires
            old(self)@.state == JobState::Running,
        ensures
            retired.deep_view() == old(self)@.scrapers.map_values(
                |s: ScraperView| spec_stopped_scraper(s),
            ),
            final(self)@ == (JobView {
                scrapers: spec_scraper_set(
                    targets.deep_view(),
                    old(self)@.config.scheme,
                    old(self)@.config.metrics_path,
                    old(self)@.interval,
                    old(self)@.timeout,
                ),
                ..old(self)@
            }),
    {
        let ghost scheme = self@.config.scheme;
        let ghost path = self@.config.metrics_path;
        let mut new_scrapers: Vec<Scraper> = Vec::new();
        let mut gi: usize = 0;
        while gi < targets.len()
            invariant
                gi <= targets@.len(),
                *self == *old(self),
                new_scrapers.deep_view() =~= spec_scraper_set(
                    targets.deep_view().take(gi as int),
                    old(self)@.config.scheme,
                    old(self)@.config.metrics_path,
                    old(self)@.interval,
                    old(self)@.timeout,
                ),
            decreases targets@.len() - gi,
        {
            let group = &targets[gi];
            let mut ti: usize = 0;
            while ti < group.targets.len()
                invariant
                    gi < targets@.len(),
                    ti <= group.targets@.len(),
                    *self == *old(self),
                    *group == targets@[gi as int],
                    new_scrapers.deep_view() =~= spec_scraper_set(
                        targets.deep_view().take(gi as int),
                        old(self)@.config.scheme,
                        old(self)@.config.metrics_path,
                        old(self)@.interval,
                        old(self)@.timeout,
                    ) + spec_group_scrapers(
                        group@.take(ti as int),
                        old(self)@.config.scheme,
                        old(self)@.config.metrics_path,
                        old(self)@.interval,
                        old(self)@.timeout,
                    ),
                decreases group.targets@.len() - ti,
            {
                let url = build_url(
                    self.scrape_config.scheme.as_str(),
                    group.targets[ti].as_str(),
                    self.scrape_config.metrics_path.as_str(),
                );
                let mut s = Scraper::new(url, self.interval, self.timeout);
                s.start();
                let ghost pre = new_scrapers;
                let ghost sv = s@;
                new_scrapers.push(s);
                proof {
                    crate::views::lemma_deep_view_push(pre, new_scrapers, s);
                    crate::views::lemma_deep_view_index(group.targets, ti as int);
                    assert(new_scrapers.deep_view() =~= pre.deep_view().push(sv));
                    assert(group@.take(ti + 1) =~= group@.take(ti as int).push(group@[ti as int]));
                }
                ti += 1;
                assert(new_scrapers.deep_view() =~= spec_scraper_set(
                    targets.deep_view().take(gi as int),
                    old(self)@.config.scheme,
                    old(self)@.config.metrics_path,
                    old(self)@.interval,
                    old(self)@.timeout,
                ) + spec_group_scrapers(
                    group@.take(ti as int),
                    old(self)@.config.scheme,
                    old(self)@.config.metrics_path,
                    old(self)@.interval,
                    old(self)@.timeout,
                ));
            }
            proof {
                crate::views::lemma_deep_view_index(*targets, gi as int);
                assert(group@.take(group@.len() as int) =~= group@);
                targets.deep_view().take(gi as int).lemma_flatten_push(targets.deep_view()[gi as int]);
                assert(targets.deep_view().take(gi + 1) =~= targets.deep_view().take(gi as int).push(
                    targets.deep_view()[gi as int],
                ));
                assert(spec_scraper_set(
                    targets.deep_view().take(gi + 1),
                    old(self)@.config.scheme,
                    old(self)@.config.metrics_path,
                    old(self)@.interval,
                    old(self)@.timeout,
                ) =~= spec_scraper_set(
                    targets.deep_view().take(gi as int),
                    old(self)@.config.scheme,
                    old(self)@.config.metrics_path,
                    old(self)@.interval,
                    old(self)@.timeout,
                ) + spec_group_scrapers(
                    group@,
                    old(self)@.config.scheme,
                    old(self)@.config.metrics_path,
                    old(self)@.interval,
                    old(self)@.timeout,
                ));
            }
            gi += 1;
        }
        proof {
            assert(targets.deep_view().take(targets@.len() as int) =~= targets.deep_view());
        }
        stop_all(&mut self.scrapers);
        let mut retired: Vec<Scraper> = Vec::new();
        core::mem::swap(&mut self.scrapers, &mut retired);
        self.scrapers = new_scrapers;
        proof {
            assert(final(self)@ =~= (JobView {
                scrapers: spec_scraper_set(
                    targets.deep_view(),
                    old(self)@.config.scheme,
                    old(self)@.config.metrics_path,
                    old(self)@.interval,
                    old(self)@.timeout,
                ),
                ..old(self)@
            }));
        }
        retired
    }

    /// Stops the job: stops discovery, and — if the job is running —
    /// signals every current scraper to stop and leaves the worker's loop
    /// for good. Stopping a job that is not running changes nothing.
    pub fn stop(&mut self)
        ensures
            final(self)@ == spec_stopped_job(old(self)@),
    {
        self.scrape_config.discover.stop();
        match self.state {
            JobState::Running => {
                stop_all(&mut self.scrapers);
                self.state = JobState::Stopped;
                proof {
                    assert(self@ =~= spec_stopped_job(old(self)@));
                }
            },
            _ => {},
        }
    }
}

/// After one discovery delivery a job holds exactly one running scraper
/// per delivered target, in delivery order, each polling
/// `{scheme}://{target}{path}`.
pub proof fn lemma_scraper_set_shape(
    groups: TargetsView,
    scheme: Seq<char>,
    path: Seq<char>,
    interval: u64,
    timeout: u64,
)
    ensures
        spec_scraper_set(groups, scheme, path, interval, timeout).len() == groups.flatten().len(),
        forall|i: int|
            0 <= i < groups.flatten().len() ==> #[trigger] spec_scraper_set(
                groups,
                scheme,
                path,
                interval,
                timeout,
            )[i] == (ScraperView {
                url: spec_url(scheme, groups.flatten()[i], path),
                interval,
                timeout,
                state: ScraperState::Running,
            }),
{
}

/// A provisioned job resolves each setting to its config's override where
/// present, else the global default, and every scraper it holds carries
/// the job's resolved interval and timeout.
pub proof fn lemma_resolved_settings(
    name: Seq<char>,
    c: ScrapeConfigView,
    default_interval: u64,
    default_timeout: u64,
)
    ensures
        spec_provisioned_job(name, c, default_interval, default_timeout).interval == spec_resolved(
            c.scrape_interval,
            default_interval,
        ),
        spec_provisioned_job(name, c, default_interval, default_timeout).timeout == spec_resolved(
            c.scrape_timeout,
            default_timeout,
        ),
        forall|i: int|
            0 <= i < spec_provisioned_job(name, c, default_interval, default_timeout).scrapers.len()
                ==> (#[trigger] spec_provisioned_job(
                name,
                c,
                default_interval,
                default_timeout,
            ).scrapers[i]).interval == spec_resolved(c.scrape_interval, default_interval)
                && spec_provisioned_job(
                name,
                c,
                default_interval,
                default_timeout,
            ).scrapers[i].timeout == spec_resolved(c.scrape_timeout, default_timeout),
{
}

} // verus!
