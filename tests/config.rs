use jaba::config::{Config, Git, Gitlab, Repo, DEFAULT_GIT_CACHE_DIRECTORY};

#[test]
fn config_defaults() {
    let g = Gitlab::from_raw("https://git.example".to_string(), "tok".to_string(), None);
    assert!(!g.insecure);
    assert!(Gitlab::from_raw("h".to_string(), "t".to_string(), Some(true)).insecure);
    let git = Git::from_raw("id_rsa".to_string(), None);
    assert_eq!(git.cache_directory, DEFAULT_GIT_CACHE_DIRECTORY);
    assert_eq!(git.cache_directory, "cache");
    let git2 = Git::from_raw("k".to_string(), Some("c2".to_string()));
    assert_eq!(git2.cache_directory, "c2");
    let mut c = Config { gitlab: g, git, repo: vec![("main".to_string(), Repo::from_raw("g/p".to_string()))] };
    c.resolve_paths("/etc/jaba");
    assert_eq!(c.git.ssh_key, "/etc/jaba/id_rsa");
    assert_eq!(c.git.cache_directory, "/etc/jaba/cache");
    assert_eq!(c.repo[0].1.name, "g/p");
}
