use vstd::prelude::*;

use crate::repository::CacheRules;

verus! {

/// The configuration of one upstream repository.
pub struct ConfigRepository {
    pub address: String,
    /// Does this repository allow redeploy of artifacts
    pub allows_redeploy: bool,
    pub cache: CacheRules,
}

/// The settings the server starts with.
pub struct Config {
    pub bind_address: String,
    /// The root of the cache on disk.
    pub cache: String,
    /// If true only one repository can be used
    pub single_repo: bool,
    pub repositories: Vec<(String, ConfigRepository)>,
    pub log_location: Option<String>,
}

impl Config {
    /// A single-repository setup names exactly one repository.
    pub fn repositories_fit(&self) -> (r: bool)
        ensures
            r == (!self.single_repo || self.repositories@.len() == 1),
    {
        !self.single_repo || self.repositories.len() == 1
    }
}

/// What the landing page shows.
pub struct SiteSettings {
    pub title: String,
    pub description: String,
}

} // verus!
