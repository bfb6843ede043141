use vstd::prelude::*;

use std::collections::HashMap;

verus! {

/// A crate as the registry describes it.
#[derive(Debug)]
pub struct Crate {
    pub badges: Vec<String>,
    pub categories: Vec<String>,
    pub created_at: jiff::civil::DateTime,
    pub description: String,
    pub documentation: Option<String>,
    pub downloads: u32,
    pub exact_match: bool,
    pub homepage: Option<String>,
    pub id: String,
    pub keywords: Vec<String>,
    pub links: CrateLinks,
    pub max_stable_version: String,
    pub max_version: String,
    pub name: String,
    pub newest_version: String,
    pub recent_downloads: u32,
    pub repository: Option<String>,
    pub updated_at: jiff::civil::DateTime,
    pub versions: Vec<u32>,
}

/// The registry paths that belong to a crate.
#[derive(Debug)]
pub struct CrateLinks {
    pub owner_team: String,
    pub owner_user: String,
    pub owners: String,
    pub reverse_dependencies: String,
    pub version_downloads: String,
    pub versions: Option<String>,
}

/// One published version of a crate.
#[derive(Debug)]
pub struct Version {
    pub audit_actions: Vec<AuditAction>,
    pub bin_names: Vec<String>,
    pub checksum: String,
    pub crate_name: String,
    pub crate_size: u32,
    pub created_at: jiff::civil::DateTime,
    pub dl_path: String,
    pub downloads: u32,
    pub features: HashMap<String, Vec<String>>,
    pub has_lib: bool,
    pub id: u32,
    pub lib_links: Option<String>,
    pub license: String,
    pub links: VersionLinks,
    pub num: String,
    pub published_by: User,
    pub readme_path: String,
    pub rust_version: Option<String>,
    pub updated_at: jiff::civil::DateTime,
    pub yanked: bool,
}

/// Something a user did to a version, and when.
#[derive(Debug)]
pub struct AuditAction {
    pub action: String,
    pub time: jiff::civil::DateTime,
    pub user: User,
}

/// A registry user.
#[derive(Debug)]
pub struct User {
    pub avatar: String,
    pub id: u32,
    pub login: String,
    pub name: String,
    pub url: String,
}

/// The registry paths that belong to a version.
#[derive(Debug)]
pub struct VersionLinks {
    pub authors: String,
    pub dependencies: String,
    pub version_downloads: String,
}

/// The answer to a crate lookup: the crate with its categories, keywords
/// and versions.
#[derive(Debug)]
pub struct CrateGet {
    pub categories: Vec<String>,
    pub crate_: Crate,
    pub keywords: Vec<String>,
    pub versions: Vec<Version>,
}

/// The commands of the command line.
#[derive(Debug)]
pub enum Subcommand {
    /// Print details for a specific crate.
    Crate(CrateOpts),
}

/// The options of the crate command.
#[derive(Debug)]
pub struct CrateOpts {
    pub name: String,
}

} // verus!
