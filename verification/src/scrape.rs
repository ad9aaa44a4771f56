//! The top of the supervision tree: the manager owns the registry of
//! running jobs, one per scrape-config entry, and serializes every reload
//! through one message queue. A reload replaces the entire job set — full
//! stop, full start, no incremental reconciliation.
use vstd::prelude::*;

use crate::config::{clone_configs, GlobalConfig, ScrapeConfig, ScrapeConfigView};
use crate::result::Error;
use crate::scrape::job::{spec_provisioned_job, spec_stopped_job, Job, JobView};

pub mod job;
pub mod scraper;

verus! {

/// The requests the manager's worker serializes.
pub enum Message {
    /// Replace the whole running job set to match `scrape_configs`, with
    /// the global interval and timeout as defaults. Carries its own copy
    /// of the list.
    Reload {
        scrape_configs: Vec<ScrapeConfig>,
        default_interval: u64,
        default_timeout: u64,
    },
}

/// The scrape-config list a message carries.
pub open spec fn spec_msg_configs(m: Message) -> Seq<ScrapeConfigView> {
    match m {
        Message::Reload { scrape_configs, .. } => scrape_configs.deep_view(),
    }
}

/// The default interval a message carries.
pub open spec fn spec_msg_interval(m: Message) -> u64 {
    match m {
        Message::Reload { default_interval, .. } => default_interval,
    }
}

/// The default timeout a message carries.
pub open spec fn spec_msg_timeout(m: Message) -> u64 {
    match m {
        Message::Reload { default_timeout, .. } => default_timeout,
    }
}

/// Whether some registered job carries this name.
pub open spec fn has_name(jobs: Seq<JobView>, name: Seq<char>) -> bool {
    exists|i: int| 0 <= i < jobs.len() && jobs[i].name == name
}

/// Whether some config entry carries this job name.
pub open spec fn config_has_name(configs: Seq<ScrapeConfigView>, name: Seq<char>) -> bool {
    exists|i: int| 0 <= i < configs.len() && configs[i].job_name == name
}

/// No two registered jobs share a name.
pub open spec fn unique_names(jobs: Seq<JobView>) -> bool {
    forall|i: int, k: int| 0 <= i < k < jobs.len() ==> jobs[i].name != jobs[k].name
}

/// Registration of one job: it replaces the job already holding its name,
/// if any, else it is appended — the registry's last-one-wins insert.
pub open spec fn spec_insert(jobs: Seq<JobView>, j: JobView) -> Seq<JobView>
    decreases jobs.len(),
{
    if jobs.len() == 0 {
        seq![j]
    } else if jobs[0].name == j.name {
        seq![j] + jobs.drop_first()
    } else {
        seq![jobs[0]] + spec_insert(jobs.drop_first(), j)
    }
}

/// The registry one reload leaves behind: one provisioned job per config
/// entry, registered in list order by name, last one winning a duplicated
/// name.
pub open spec fn spec_registry(
    configs: Seq<ScrapeConfigView>,
    default_interval: u64,
    default_timeout: u64,
) -> Seq<JobView>
    decreases configs.len(),
{
    if configs.len() == 0 {
        Seq::empty()
    } else {
        spec_insert(
            spec_registry(configs.drop_last(), default_interval, default_timeout),
            spec_provisioned_job(
                configs.last().job_name,
                configs.last(),
                default_interval,
                default_timeout,
            ),
        )
    }
}

/// The first registry slot holding this name.
proof fn lemma_first_match(s: Seq<JobView>, name: Seq<char>) -> (i: int)
    requires
        has_name(s, name),
    ensures
        0 <= i < s.len(),
        s[i].name == name,
        forall|k: int| 0 <= k < i ==> s[k].name != name,
    decreases s.len(),
{
    if s[0].name == name {
        0
    } else {
        let w = choose|w: int| 0 <= w < s.len() && s[w].name == name;
        assert(s.drop_first()[w - 1].name == name);
        assert(has_name(s.drop_first(), name));
        let i0 = lemma_first_match(s.drop_first(), name);
        assert forall|k: int| 0 <= k < i0 + 1 implies s[k].name != name by {
            if k > 0 {
                assert(s.drop_first()[k - 1].name != name);
            }
        }
        i0 + 1
    }
}

/// Inserting a name already registered replaces its first slot.
proof fn lemma_insert_at_first_match(s: Seq<JobView>, j: JobView, i: int)
    requires
        0 <= i < s.len(),
        s[i].name == j.name,
        forall|k: int| 0 <= k < i ==> s[k].name != j.name,
    ensures
        spec_insert(s, j) =~= s.update(i, j),
    decreases i,
{
    if i == 0 {
        assert(seq![j] + s.drop_first() =~= s.update(0, j));
    } else {
        assert forall|k: int| 0 <= k < i - 1 implies s.drop_first()[k].name != j.name by {
            assert(s[k + 1].name != j.name);
        }
        lemma_insert_at_first_match(s.drop_first(), j, i - 1);
        assert(seq![s[0]] + s.drop_first().update(i - 1, j) =~= s.update(i, j));
    }
}

/// Inserting a name not yet registered appends.
proof fn lemma_insert_no_match(s: Seq<JobView>, j: JobView)
    requires
        forall|k: int| 0 <= k < s.len() ==> s[k].name != j.name,
    ensures
        spec_insert(s, j) =~= s.push(j),
    decreases s.len(),
{
    if s.len() == 0 {
        assert(seq![j] =~= s.push(j));
    } else {
        assert forall|k: int| 0 <= k < s.drop_first().len() implies s.drop_first()[k].name != j.name by {
            assert(s[k + 1].name != j.name);
        }
        lemma_insert_no_match(s.drop_first(), j);
        assert(seq![s[0]] + s.drop_first().push(j) =~= s.push(j));
    }
}

/// An insert leaves the registry holding exactly the old names and the
/// inserted one.
proof fn lemma_insert_names(s: Seq<JobView>, j: JobView, n: Seq<char>)
    requires
        unique_names(s),
    ensures
        has_name(spec_insert(s, j), n) <==> (has_name(s, n) || j.name == n),
{
    if has_name(s, j.name) {
        let i = lemma_first_match(s, j.name);
        lemma_insert_at_first_match(s, j, i);
        let r = s.update(i, j);
        assert(forall|k: int| 0 <= k < s.len() && k != i ==> r[k] == s[k]);
        assert(r[i] == j);
        if has_name(r, n) {
            let w = choose|w: int| 0 <= w < r.len() && r[w].name == n;
            if w == i {
                assert(s[i].name == n);
            } else {
                assert(s[w].name == n);
            }
            assert(has_name(s, n));
        }
        if has_name(s, n) {
            let w = choose|w: int| 0 <= w < s.len() && s[w].name == n;
            if w == i {
                assert(r[i].name == n);
            } else {
                assert(r[w].name == n);
            }
            assert(has_name(r, n));
        }
        if j.name == n {
            assert(r[i].name == n);
            assert(has_name(r, n));
        }
    } else {
        lemma_insert_no_match(s, j);
        let r = s.push(j);
        if has_name(r, n) {
            let w = choose|w: int| 0 <= w < r.len() && r[w].name == n;
            if w < s.len() {
                assert(s[w].name == n);
                assert(has_name(s, n));
            } else {
                assert(j.name == n);
            }
        }
        if has_name(s, n) {
            let w = choose|w: int| 0 <= w < s.len() && s[w].name == n;
            assert(r[w].name == n);
            assert(has_name(r, n));
        }
        if j.name == n {
            assert(r[s.len() as int].name == n);
            assert(has_name(r, n));
        }
    }
}

/// An insert keeps the registry's names unique.
proof fn lemma_insert_unique(s: Seq<JobView>, j: JobView)
    requires
        unique_names(s),
    ensures
        unique_names(spec_insert(s, j)),
{
    if has_name(s, j.name) {
        let i = lemma_first_match(s, j.name);
        lemma_insert_at_first_match(s, j, i);
        let r = s.update(i, j);
        assert forall|a: int, b: int| 0 <= a < b < r.len() implies r[a].name != r[b].name by {
            assert(s[a].name != s[b].name);
        }
    } else {
        lemma_insert_no_match(s, j);
        let r = s.push(j);
        assert forall|a: int, b: int| 0 <= a < b < r.len() implies r[a].name != r[b].name by {
            if b < s.len() {
                assert(s[a].name != s[b].name);
            } else {
                assert(s[a].name != j.name);
            }
        }
    }
}

/// After any sequence of reloads the registry holds exactly one job per
/// name present in the latest scrape-config list, and none for a name
/// absent from it — the registry after a reload is a function of that
/// reload's inputs alone.
pub proof fn lemma_registry_names(
    configs: Seq<ScrapeConfigView>,
    default_interval: u64,
    default_timeout: u64,
)
    ensures
        unique_names(spec_registry(configs, default_interval, default_timeout)),
        forall|n: Seq<char>|
            #[trigger] has_name(spec_registry(configs, default_interval, default_timeout), n)
                <==> config_has_name(configs, n),
    decreases configs.len(),
{
    let r = spec_registry(configs, default_interval, default_timeout);
    if configs.len() == 0 {
        assert forall|n: Seq<char>| #[trigger] has_name(r, n) <==> config_has_name(configs, n) by {
            if has_name(r, n) {
                let w = choose|w: int| 0 <= w < r.len() && r[w].name == n;
                assert(false);
            }
            if config_has_name(configs, n) {
                let w = choose|w: int| 0 <= w < configs.len() && configs[w].job_name == n;
                assert(false);
            }
        }
    } else {
        lemma_registry_names(configs.drop_last(), default_interval, default_timeout);
        let sub = spec_registry(configs.drop_last(), default_interval, default_timeout);
        let j = spec_provisioned_job(
            configs.last().job_name,
            configs.last(),
            default_interval,
            default_timeout,
        );
        lemma_insert_unique(sub, j);
        assert forall|n: Seq<char>| #[trigger] has_name(r, n) <==> config_has_name(configs, n) by {
            lemma_insert_names(sub, j, n);
            if has_name(sub, n) {
                let w = choose|w: int| 0 <= w < sub.len() && sub[w].name == n;
            }
            if config_has_name(configs.drop_last(), n) {
                let w = choose|w: int|
                    0 <= w < configs.drop_last().len() && configs.drop_last()[w].job_name == n;
                assert(configs[w].job_name == n);
                assert(config_has_name(configs, n));
            }
            if j.name == n {
                assert(configs[configs.len() - 1].job_name == n);
                assert(config_has_name(configs, n));
            }
            if config_has_name(configs, n) {
                let w = choose|w: int| 0 <= w < configs.len() && configs[w].job_name == n;
                if w < configs.len() - 1 {
                    assert(configs.drop_last()[w].job_name == n);
                    assert(config_has_name(configs.drop_last(), n));
                } else {
                    assert(j.name == n);
                }
            }
        }
    }
}

/// The single authoritative owner of what is currently being scraped: the
/// registry of running jobs, keyed by job name and rebuilt wholesale on
/// every reload.
#[derive(Debug, PartialEq, Eq)]
pub struct Manager {
    /// The registered jobs, at most one per name.
    pub jobs: Vec<Job>,
}

impl View for Manager {
    type V = Seq<JobView>;

    open spec fn view(&self) -> Seq<JobView> {
        self.jobs.deep_view()
    }
}

/// Registers one job: replaces the job already holding its name, if any,
/// else appends it.
fn insert_job(jobs: &mut Vec<Job>, job: Job)
    ensures
        final(jobs).deep_view() == spec_insert(old(jobs).deep_view(), job@),
{
    let n = jobs.len();
    let mut i: usize = 0;
    while i < n
        invariant
            n == jobs@.len(),
            *jobs == *old(jobs),
            forall|k: int| 0 <= k < i ==> #[trigger] jobs@[k]@.name != job@.name,
        decreases n - i,
    {
        if jobs[i].name == job.name {
            let ghost pre = *jobs;
            let ghost jv = job@;
            jobs[i] = job;
            proof {
                assert forall|k: int| 0 <= k < i implies pre.deep_view()[k].name != jv.name by {
                    crate::views::lemma_deep_view_index(pre, k);
                }
                crate::views::lemma_deep_view_index(pre, i as int);
                lemma_insert_at_first_match(pre.deep_view(), jv, i as int);
                crate::views::lemma_deep_view_update(pre, *jobs, i as int, jobs@[i as int]);
            }
            return;
        }
        i += 1;
    }
    let ghost pre = *jobs;
    let ghost jv = job@;
    jobs.push(job);
    proof {
        assert forall|k: int| 0 <= k < pre@.len() implies pre.deep_view()[k].name != jv.name by {
            crate::views::lemma_deep_view_index(pre, k);
        }
        lemma_insert_no_match(pre.deep_view(), jv);
        crate::views::lemma_deep_view_push(pre, *jobs, job);
    }
}

impl Manager {
    /// A manager with an empty registry, ready to take reloads.
    pub fn new() -> (m: Manager)
        ensures
            m@ == Seq::<JobView>::empty(),
    {
        let m = Manager { jobs: Vec::new() };
        proof {
            assert(m@ =~= Seq::<JobView>::empty());
        }
        m
    }

    /// Processes one queued message, as the manager's worker does,
    /// strictly in send order: on a reload, stops every registered job,
    /// clears the registry, then provisions, starts and registers one new
    /// job per entry of the incoming list — full stop, full start, no
    /// reconciliation. The stopped jobs are handed back; a duplicated job
    /// name within one list is last-one-wins in the registry.
    pub fn apply(&mut self, msg: Message) -> (retired: Vec<Job>)
        ensures
            final(self)@ == spec_registry(
                spec_msg_configs(msg),
                spec_msg_interval(msg),
                spec_msg_timeout(msg),
            ),
            retired.deep_view() == old(self)@.map_values(|j: JobView| spec_stopped_job(j)),
    {
        let n = self.jobs.len();
        let mut i: usize = 0;
        while i < n
            invariant
                n == self.jobs@.len(),
                forall|k: int|
                    0 <= k < i ==> #[trigger] self.jobs@[k]@ == spec_stopped_job(
                        old(self).jobs@[k]@,
                    ),
                forall|k: int| i <= k < n ==> #[trigger] self.jobs@[k] == old(self).jobs@[k],
            decreases n - i,
        {
            self.jobs[i].stop();
            i += 1;
        }
        let mut retired: Vec<Job> = Vec::new();
        core::mem::swap(&mut self.jobs, &mut retired);
        proof {
            let m = old(self)@.map_values(|j: JobView| spec_stopped_job(j));
            assert forall|k: int| 0 <= k < n implies retired.deep_view()[k] == m[k] by {
                crate::views::lemma_deep_view_index(retired, k);
                crate::views::lemma_deep_view_index(old(self).jobs, k);
            }
            assert(retired.deep_view() =~= m);
            assert(self.jobs.deep_view() =~= Seq::<JobView>::empty());
        }
        match msg {
            Message::Reload { mut scrape_configs, default_interval, default_timeout } => {
                let ghost all = scrape_configs.deep_view();
                let total = scrape_configs.len();
                let mut done: usize = 0;
                proof {
                    assert(all.take(0) =~= Seq::<ScrapeConfigView>::empty());
                }
                while scrape_configs.len() > 0
                    invariant
                        total == all.len(),
                        done + scrape_configs@.len() == all.len(),
                        scrape_configs.deep_view() =~= all.skip(done as int),
                        self.jobs.deep_view() == spec_registry(
                            all.take(done as int),
                            default_interval,
                            default_timeout,
                        ),
                    decreases scrape_configs@.len(),
                {
                    let ghost prevv = scrape_configs;
                    let config = scrape_configs.remove(0);
                    let ghost cv = config@;
                    proof {
                        crate::views::lemma_deep_view_index(prevv, 0);
                        assert(cv == all[done as int]);
                        assert forall|k: int|
                            0 <= k < scrape_configs@.len()
                                implies scrape_configs.deep_view()[k] == prevv.deep_view()[k + 1] by {
                            crate::views::lemma_deep_view_index(scrape_configs, k);
                            crate::views::lemma_deep_view_index(prevv, k + 1);
                        }
                        assert(scrape_configs.deep_view() =~= all.skip(done + 1));
                    }
                    let name = config.job_name.clone();
                    let mut job = match Job::new(
                        name.as_str(),
                        config,
                        default_interval,
                        default_timeout,
                    ) {
                        Ok(j) => j,
                        Err(_) => unreached(),
                    };
                    let delivery = job.start();
                    match delivery {
                        Some(groups) => {
                            let _superseded = job.handle_discovery(&groups);
                        },
                        None => {},
                    }
                    proof {
                        assert(job@ =~= spec_provisioned_job(
                            cv.job_name,
                            cv,
                            default_interval,
                            default_timeout,
                        ));
                    }
                    insert_job(&mut self.jobs, job);
                    done += 1;
                    proof {
                        assert(all.take(done as int).drop_last() =~= all.take(done - 1));
                        assert(all.take(done as int).last() == cv);
                    }
                }
                proof {
                    assert(all.take(done as int) =~= all);
                }
                retired
            },
        }
    }

    /// Requests that the running job set be replaced to match the given
    /// scrape configs, with the global interval and timeout as the
    /// defaults. The request carries its own copy of the list and is
    /// serialized with every other reload, so concurrent callers are
    /// linearized; in this owned registry the queue cannot close, so the
    /// reload is applied before returning and always succeeds.
    pub fn reload(
        &mut self,
        global_config: &GlobalConfig,
        scrape_configs: &Vec<ScrapeConfig>,
    ) -> (r: Result<(), Error>)
        ensures
            r is Ok,
            final(self)@ == spec_registry(
                scrape_configs.deep_view(),
                global_config.scrape_interval,
                global_config.scrape_timeout,
            ),
    {
        let msg = Message::Reload {
            scrape_configs: clone_configs(scrape_configs),
            default_interval: global_config.scrape_interval,
            default_timeout: global_config.scrape_timeout,
        };
        let _retired = self.apply(msg);
        Ok(())
    }
}

} // verus!
