//! The agent's configuration, once read: the review service, the git
//! credentials and cache, and the repositories to serve.

use vstd::prelude::*;
use crate::status::opt_view;

verus! {

/// The cache directory used when the configuration names none.
pub const DEFAULT_GIT_CACHE_DIRECTORY: &'static str = "cache";

/// The path `rel` taken relative to directory `base`.
pub uninterp spec fn joined_path(base: Seq<char>, rel: Seq<char>) -> Seq<char>;

/// Relies on `std::path::Path::join`: `rel` under `base` (or `rel` itself
/// when it is absolute), read back as text.
#[verifier::external_body]
fn join_path(base: &str, rel: &str) -> (r: String)
    ensures
        r@ == joined_path(base@, rel@),
{
    std::path::Path::new(base).join(rel).to_string_lossy().into_owned()
}

/// How to reach the review service.
#[derive(Debug, Clone)]
pub struct Gitlab {
    pub host: String,
    pub access_token: String,
    pub insecure: bool,
}

/// Where the SSH key and the repository cache are.
#[derive(Debug, Clone)]
pub struct Git {
    pub ssh_key: String,
    pub cache_directory: String,
}

/// A repository to serve, by `namespace/path`.
#[derive(Debug, Clone)]
pub struct Repo {
    pub name: String,
}

/// The whole configuration; repositories by label.
#[derive(Debug, Clone)]
pub struct Config {
    pub gitlab: Gitlab,
    pub git: Git,
    pub repo: Vec<(String, Repo)>,
}

impl Gitlab {
    /// The service settings, with `insecure` off unless given.
    pub fn from_raw(host: String, access_token: String, insecure: Option<bool>) -> (r: Gitlab)
        ensures
            r.host@ == host@,
            r.access_token@ == access_token@,
            r.insecure == (insecure == Some(true)),
    {
        Gitlab {
            host,
            access_token,
            insecure: match insecure {
                Some(b) => b,
                None => false,
            },
        }
    }
}

impl Git {
    /// The git settings, with the default cache directory unless one is given.
    pub fn from_raw(ssh_key: String, cache_directory: Option<String>) -> (r: Git)
        ensures
            r.ssh_key@ == ssh_key@,
            r.cache_directory@ == match opt_view(cache_directory) {
                Some(d) => d,
                None => DEFAULT_GIT_CACHE_DIRECTORY@,
            },
    {
        Git {
            ssh_key,
            cache_directory: match cache_directory {
                Some(d) => d,
                None => String::from_str(DEFAULT_GIT_CACHE_DIRECTORY),
            },
        }
    }
}

impl Repo {
    pub fn from_raw(name: String) -> (r: Repo)
        ensures
            r.name@ == name@,
    {
        Repo { name }
    }
}

impl Config {
    /// Takes the key and cache paths relative to `base_dir`, the directory
    /// of the configuration file.
    pub fn resolve_paths(&mut self, base_dir: &str)
        ensures
            final(self).git.ssh_key@ == joined_path(base_dir@, old(self).git.ssh_key@),
            final(self).git.cache_directory@ == joined_path(base_dir@, old(self).git.cache_directory@),
            final(self).gitlab.host@ == old(self).gitlab.host@,
            final(self).gitlab.access_token@ == old(self).gitlab.access_token@,
            final(self).gitlab.insecure == old(self).gitlab.insecure,
            final(self).repo@ == old(self).repo@,
    {
        self.git.ssh_key = join_path(base_dir, self.git.ssh_key.as_str());
        self.git.cache_directory = join_path(base_dir, self.git.cache_directory.as_str());
    }
}

} // verus!
