//! The repository record that the filters and the starred marking work on.

use vstd::prelude::*;

verus! {

/// A trending repository as reported by one provider.
pub struct Repo {
    /// Provider identifier, such as `github`.
    pub provider: String,
    /// Short provider tag shown in the output.
    pub icon: String,
    /// Repository name, `owner/repo`.
    pub name: String,
    pub language: Option<String>,
    pub description: Option<String>,
    pub url: String,
    pub stars_today: Option<u64>,
    pub stars_total: Option<u64>,
    /// Time of the last activity, as the provider reported it.
    pub last_activity: Option<String>,
    pub topics: Vec<String>,
    /// Whether the configured user has starred this repository.
    pub is_starred: bool,
}

} // verus!
