use vstd::prelude::*;

verus! {

/// One repository as the catalog lists it. Never changed once listed.
pub struct RepoInfo {
    pub name: String,
    /// Base address of the repository; archive addresses extend it.
    pub html_url: String,
    pub language: Option<String>,
    pub stars: u32,
    /// Size in KB, as the catalog reports it.
    pub size: u32,
    pub is_fork: bool,
    pub default_branch: String,
}

} // verus!
