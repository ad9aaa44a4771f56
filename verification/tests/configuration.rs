use scrape_core::cli::LogLevel;
use scrape_core::config::{
    apply_timeout_defaults, clone_configs, default_evaluation_interval, default_metrics_path,
    default_scheme, parse_duration, Config, GlobalConfig, ScrapeConfig,
};
use scrape_core::discover::{Discover, Group};
use scrape_core::result::Error;

fn entry(name: &str, timeout: Option<u64>) -> ScrapeConfig {
    ScrapeConfig {
        job_name: name.to_string(),
        scrape_interval: None,
        scrape_timeout: timeout,
        metrics_path: default_metrics_path(),
        scheme: default_scheme(),
        discover: Discover {
            static_configs: Some(vec![Group { targets: vec!["h:1".to_string()] }]),
        },
    }
}

#[test]
fn parse_duration_reads_seconds() {
    assert_eq!(parse_duration("15s"), Ok(15000));
}

#[test]
fn parse_duration_reads_compound_values() {
    assert_eq!(parse_duration("1m+30s"), Ok(90000));
    assert_eq!(parse_duration("250ms"), Ok(250));
}

#[test]
fn parse_duration_rejects_garbage() {
    assert_eq!(parse_duration(""), Err(Error::InvalidDuration));
    assert_eq!(parse_duration("soon"), Err(Error::InvalidDuration));
}

#[test]
fn defaults_match_the_config_loader() {
    assert_eq!(default_metrics_path(), "/metrics".to_string());
    assert_eq!(default_scheme(), "http".to_string());
    assert_eq!(default_evaluation_interval(), 15000);
}

#[test]
fn missing_timeouts_fall_back_to_the_global_one() {
    let mut config = Config {
        global: GlobalConfig {
            scrape_interval: 15000,
            scrape_timeout: 10000,
            evaluation_interval: 15000,
        },
        scrape_configs: vec![entry("a", None), entry("b", Some(3000))],
    };
    apply_timeout_defaults(&mut config);
    assert_eq!(config.scrape_configs[0].scrape_timeout, Some(10000));
    assert_eq!(config.scrape_configs[1].scrape_timeout, Some(3000));
}

#[test]
fn cloned_config_lists_are_equal() {
    let configs = vec![entry("a", None), entry("b", Some(3000))];
    let copy = clone_configs(&configs);
    assert_eq!(copy, configs);
}

#[test]
fn log_levels_name_themselves() {
    assert_eq!(LogLevel::Info.as_str(), "info");
    assert_eq!(LogLevel::Debug.as_str(), "debug");
    assert_eq!(LogLevel::Error.as_str(), "error");
}

#[test]
fn error_variants_are_distinct() {
    assert_ne!(Error::InvalidDuration, Error::QueueClosed);
}
