use scrape_core::config::{GlobalConfig, ScrapeConfig};
use scrape_core::discover::{Discover, Group};
use scrape_core::scrape::job::{Job, JobState};
use scrape_core::scrape::scraper::{Scraper, ScraperState};
use scrape_core::scrape::Manager;

fn global(interval: u64, timeout: u64) -> GlobalConfig {
    GlobalConfig { scrape_interval: interval, scrape_timeout: timeout, evaluation_interval: 15000 }
}

fn config(name: &str, targets: Vec<Vec<&str>>) -> ScrapeConfig {
    ScrapeConfig {
        job_name: name.to_string(),
        scrape_interval: None,
        scrape_timeout: None,
        metrics_path: "/metrics".to_string(),
        scheme: "http".to_string(),
        discover: Discover {
            static_configs: Some(
                targets
                    .into_iter()
                    .map(|g| Group { targets: g.into_iter().map(|t| t.to_string()).collect() })
                    .collect(),
            ),
        },
    }
}

fn urls(job: &Job) -> Vec<String> {
    job.scrapers.iter().map(|s| s.url.clone()).collect()
}

fn names(manager: &Manager) -> Vec<String> {
    manager.jobs.iter().map(|j| j.name.clone()).collect()
}

#[test]
fn registry_matches_latest_reload() {
    let mut manager = Manager::new();
    let g = global(15000, 10000);
    manager
        .reload(&g, &vec![config("a", vec![vec!["h1:1"]]), config("b", vec![vec!["h2:2"]])])
        .unwrap();
    assert_eq!(names(&manager), vec!["a".to_string(), "b".to_string()]);
    manager
        .reload(&g, &vec![config("b", vec![vec!["h2:2"]]), config("c", vec![vec!["h3:3"]])])
        .unwrap();
    assert_eq!(names(&manager), vec!["b".to_string(), "c".to_string()]);
}

#[test]
fn reload_replaces_jobs_wholesale() {
    let mut manager = Manager::new();
    let g = global(15000, 10000);
    manager.reload(&g, &vec![config("a", vec![vec!["h1:1"]])]).unwrap();
    let before = urls(&manager.jobs[0]);
    manager.reload(&g, &vec![config("b", vec![vec!["h2:2"]])]).unwrap();
    assert_eq!(names(&manager), vec!["b".to_string()]);
    assert_eq!(before, vec!["http://h1:1/metrics".to_string()]);
    assert_eq!(urls(&manager.jobs[0]), vec!["http://h2:2/metrics".to_string()]);
}

#[test]
fn reload_is_idempotent() {
    let mut manager_once = Manager::new();
    let mut manager_twice = Manager::new();
    let g = global(15000, 10000);
    let configs = vec![config("a", vec![vec!["h1:1", "h2:2"]]), config("b", vec![vec!["h3:3"]])];
    manager_once.reload(&g, &configs).unwrap();
    manager_twice.reload(&g, &configs).unwrap();
    manager_twice.reload(&g, &configs).unwrap();
    assert_eq!(manager_once, manager_twice);
}

#[test]
fn duplicate_job_name_is_last_one_wins() {
    let mut manager = Manager::new();
    let g = global(15000, 10000);
    manager
        .reload(&g, &vec![config("a", vec![vec!["h1:1"]]), config("a", vec![vec!["h2:2"]])])
        .unwrap();
    assert_eq!(names(&manager), vec!["a".to_string()]);
    assert_eq!(urls(&manager.jobs[0]), vec!["http://h2:2/metrics".to_string()]);
}

#[test]
fn retired_jobs_are_stopped() {
    let mut manager = Manager::new();
    let g = global(15000, 10000);
    manager.reload(&g, &vec![config("a", vec![vec!["h1:1"]])]).unwrap();
    let msg = scrape_core::scrape::Message::Reload {
        scrape_configs: vec![config("b", vec![vec!["h2:2"]])],
        default_interval: 15000,
        default_timeout: 10000,
    };
    let retired = manager.apply(msg);
    assert_eq!(retired.len(), 1);
    assert_eq!(retired[0].name, "a".to_string());
    assert_eq!(retired[0].state, JobState::Stopped);
    for s in retired[0].scrapers.iter() {
        assert_eq!(s.state, ScraperState::Stopped);
    }
    assert_eq!(names(&manager), vec!["b".to_string()]);
}

#[test]
fn discovery_provisions_one_scraper_per_target() {
    let c = config("node", vec![vec!["a", "b"], vec!["c"]]);
    let mut job = Job::new("node", c, 15000, 10000).unwrap();
    let delivery = job.start().unwrap();
    let retired = job.handle_discovery(&delivery);
    assert!(retired.is_empty());
    assert_eq!(
        urls(&job),
        vec![
            "http://a/metrics".to_string(),
            "http://b/metrics".to_string(),
            "http://c/metrics".to_string(),
        ],
    );
    for s in job.scrapers.iter() {
        assert_eq!(s.state, ScraperState::Running);
    }
}

#[test]
fn discovery_replaces_and_stops_old_scrapers() {
    let c = config("node", vec![vec!["a", "b"]]);
    let mut job = Job::new("node", c, 15000, 10000).unwrap();
    let delivery = job.start().unwrap();
    let none = job.handle_discovery(&delivery);
    assert!(none.is_empty());
    let next = vec![Group { targets: vec!["b".to_string(), "d".to_string()] }];
    let retired = job.handle_discovery(&next);
    let retired_urls: Vec<String> = retired.iter().map(|s| s.url.clone()).collect();
    assert_eq!(retired_urls, vec!["http://a/metrics".to_string(), "http://b/metrics".to_string()]);
    for s in retired.iter() {
        assert_eq!(s.state, ScraperState::Stopped);
    }
    assert_eq!(urls(&job), vec!["http://b/metrics".to_string(), "http://d/metrics".to_string()]);
    for s in job.scrapers.iter() {
        assert_eq!(s.state, ScraperState::Running);
    }
}

#[test]
fn overrides_resolve_against_global_defaults() {
    let mut c = config("node", vec![vec!["a"]]);
    c.scrape_interval = Some(5000);
    let mut job = Job::new("node", c, 15000, 10000).unwrap();
    assert_eq!(job.interval, 5000);
    assert_eq!(job.timeout, 10000);
    let delivery = job.start().unwrap();
    job.handle_discovery(&delivery);
    assert_eq!(job.scrapers[0].interval, 5000);
    assert_eq!(job.scrapers[0].timeout, 10000);
    let req = job.scrapers[0].tick().unwrap();
    assert_eq!(req.timeout, 10000);
}

#[test]
fn scrape_tick_polls_the_target_once_and_survives_a_503() {
    let c = config("node", vec![vec!["10.0.0.1:9100"]]);
    let mut job = Job::new("node", c, 15000, 10000).unwrap();
    let delivery = job.start().unwrap();
    job.handle_discovery(&delivery);
    assert_eq!(job.scrapers.len(), 1);
    let scraper = &job.scrapers[0];
    assert_eq!(scraper.interval, 15000);
    let req = scraper.tick().unwrap();
    assert_eq!(req.url, "http://10.0.0.1:9100/metrics".to_string());
    assert_eq!(req.timeout, 10000);
    assert!(!scraper.observe_status(503));
    assert_eq!(scraper.state, ScraperState::Running);
    let again = scraper.tick().unwrap();
    assert_eq!(again.url, "http://10.0.0.1:9100/metrics".to_string());
}

#[test]
fn scraper_stop_is_idempotent_and_terminal() {
    let mut s = Scraper::new("http://a/metrics".to_string(), 1000, 500);
    assert_eq!(s.state, ScraperState::Idle);
    s.stop();
    assert_eq!(s.state, ScraperState::Idle);
    s.start();
    assert_eq!(s.state, ScraperState::Running);
    s.stop();
    assert_eq!(s.state, ScraperState::Stopped);
    s.stop();
    assert_eq!(s.state, ScraperState::Stopped);
    assert!(s.tick().is_none());
}

#[test]
fn observe_status_classifies_only_2xx_as_success() {
    let s = Scraper::new("http://a/metrics".to_string(), 1000, 500);
    assert!(s.observe_status(200));
    assert!(s.observe_status(299));
    assert!(!s.observe_status(199));
    assert!(!s.observe_status(300));
    assert!(!s.observe_status(404));
    assert!(!s.observe_status(503));
}

#[test]
fn job_stop_stops_every_scraper() {
    let c = config("node", vec![vec!["a", "b"]]);
    let mut job = Job::new("node", c, 15000, 10000).unwrap();
    let delivery = job.start().unwrap();
    job.handle_discovery(&delivery);
    job.stop();
    assert_eq!(job.state, JobState::Stopped);
    for s in job.scrapers.iter() {
        assert_eq!(s.state, ScraperState::Stopped);
    }
}

#[test]
fn stopping_an_unstarted_job_changes_nothing() {
    let c = config("node", vec![vec!["a"]]);
    let mut job = Job::new("node", c, 15000, 10000).unwrap();
    assert_eq!(job.state, JobState::Created);
    job.stop();
    assert_eq!(job.state, JobState::Created);
    assert!(job.scrapers.is_empty());
}

#[test]
fn unconfigured_discovery_delivers_nothing() {
    let d = Discover { static_configs: None };
    assert!(d.start().is_none());
    d.stop();
    let mut c = config("node", vec![]);
    c.discover = Discover { static_configs: None };
    let mut job = Job::new("node", c, 15000, 10000).unwrap();
    assert!(job.start().is_none());
    assert!(job.scrapers.is_empty());
}

#[test]
fn discovery_start_hands_out_the_configured_groups() {
    let groups = vec![
        Group { targets: vec!["a".to_string(), "b".to_string()] },
        Group { targets: vec!["c".to_string()] },
    ];
    let d = Discover { static_configs: Some(groups.clone()) };
    let delivered = d.start().unwrap();
    assert_eq!(delivered, groups);
    d.stop();
    assert_eq!(d.start().unwrap(), groups);
}

#[test]
fn duplicate_targets_run_independent_scrapers() {
    let c = config("node", vec![vec!["a"], vec!["a"]]);
    let mut job = Job::new("node", c, 15000, 10000).unwrap();
    let delivery = job.start().unwrap();
    job.handle_discovery(&delivery);
    assert_eq!(
        urls(&job),
        vec!["http://a/metrics".to_string(), "http://a/metrics".to_string()],
    );
}
