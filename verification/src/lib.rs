//! Scrape-scheduling core of a metrics-collection agent.
//!
//! A `Manager` owns a registry of `Job`s, one per scrape-config entry; each
//! `Job` owns a set of `Scraper`s, one per discovered target. A reload
//! replaces the whole job set; a discovery result replaces a job's scraper
//! set, stopping the superseded scrapers first.

pub mod cli;
pub mod config;
pub mod discover;
pub mod result;
pub mod scrape;
pub mod views;
