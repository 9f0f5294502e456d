//! A minimal changelog service core: the entry data model, an append-only
//! repository over it, and the HTTP decision logic that maps repository
//! results to status codes and JSON bodies.

pub mod models;
pub mod repository;
pub mod timestamp;
pub mod idgen;
pub mod json;
pub mod http;

use vstd::prelude::*;

verus! {

/// Process configuration, read once at startup from the environment.
#[derive(Debug)]
pub struct AppConfig {
    pub debug: bool,
    pub db_url: String,
}

impl Default for AppConfig {
    /// The default configuration: telemetry quiet, no database URL.
    fn default() -> (r: Self)
        ensures
            !r.debug,
            r.db_url@ == Seq::<char>::empty(),
    {
        AppConfig { debug: false, db_url: String::new() }
    }
}

} // verus!
