use git_trending_motd::starred::{
    distinct_names, secs_or_zero, StarredCache, StarredCacheError, StarredEntry, STARRED_TTL_SECS,
};
use std::path::PathBuf;

fn cache(ttl_secs: u64) -> StarredCache {
    StarredCache {
        cache_dir: PathBuf::from("/tmp/git-trending-motd-starred-test"),
        relative_path: vec!["starred.json".to_string()],
        ttl_secs,
    }
}

#[test]
fn test_starred_cache_roundtrip() {
    let cache = cache(3600);

    // Initially no starred repos
    assert!(cache.get_starred(None).is_none());

    let starred = vec!["owner1/repo1".to_string(), "owner2/repo2".to_string()];
    let entry = cache.save_starred(starred.clone());

    let cached = cache.get_starred(Some(StarredEntry {
        timestamp: entry.timestamp,
        starred_repos: entry.starred_repos.clone(),
    }))
    .unwrap();
    assert_eq!(cached.len(), 2);
    assert!(cached.contains(&"owner1/repo1".to_string()));
    assert!(cached.contains(&"owner2/repo2".to_string()));

    let again = |e: &StarredEntry| StarredEntry {
        timestamp: e.timestamp,
        starred_repos: e.starred_repos.clone(),
    };
    assert!(cache.is_starred(Some(again(&entry)), "owner1/repo1"));
    assert!(!cache.is_starred(Some(again(&entry)), "owner3/repo3"));
}

#[test]
fn test_starred_cache_expiry() {
    let cache = cache(0);
    let entry = cache.save_starred(vec!["owner1/repo1".to_string()]);
    // One second later the entry has expired.
    let read_at = entry.timestamp + 1;
    assert!(cache.get_starred_at(Some(entry), read_at).is_none());
}

#[test]
fn test_starred_cache_loads_after_save() {
    let cache1 = cache(3600);
    let entry = cache1.save_starred(vec![
        "rust-lang/rust".to_string(),
        "tokio-rs/tokio".to_string(),
    ]);

    // A second instance reading the same entry.
    let cache2 = cache(3600);
    let loaded = cache2.get_starred(Some(entry));
    assert!(loaded.is_some(), "Cache should persist across instances");
    let starred_set = loaded.unwrap();
    assert_eq!(starred_set.len(), 2);
    assert!(starred_set.contains(&"rust-lang/rust".to_string()));
    assert!(starred_set.contains(&"tokio-rs/tokio".to_string()));
}

#[test]
fn freshness_boundaries() {
    let cache = cache(3600);
    let entry = |ts: u64| StarredEntry { timestamp: ts, starred_repos: vec!["a/b".to_string()] };
    assert!(cache.get_starred_at(Some(entry(1000)), 4600).is_some());
    assert!(cache.get_starred_at(Some(entry(1000)), 4601).is_none());
    // A clock reading before the timestamp counts as age zero.
    assert!(cache.get_starred_at(Some(entry(5000)), 10).is_some());
    assert!(cache.get_starred_at(None, 1000).is_none());
    assert!(cache.is_starred_at(Some(entry(1000)), 1000, "a/b"));
    assert!(!cache.is_starred_at(Some(entry(1000)), 5000, "a/b"));
    assert!(!cache.is_starred_at(None, 1000, "a/b"));
}

#[test]
fn new_cache_has_one_hour_ttl() {
    if let Ok(c) = StarredCache::new() {
        assert_eq!(c.ttl_secs, STARRED_TTL_SECS);
        assert!(c.cache_file().ends_with("git-trending-motd/starred.json"));
    }
    let c = StarredCache::in_dir(PathBuf::from("/var/cache"));
    assert_eq!(c.cache_dir, PathBuf::from("/var/cache"));
    assert_eq!(c.relative_path, vec!["git-trending-motd".to_string(), "starred.json".to_string()]);
    assert_eq!(c.cache_file(), PathBuf::from("/var/cache/git-trending-motd/starred.json"));
    assert_eq!(c.ttl_secs, 3600);
    assert_eq!(
        cache(10).cache_file(),
        PathBuf::from("/tmp/git-trending-motd-starred-test/starred.json")
    );
}

#[test]
fn missing_cache_dir_is_an_error() {
    let err = StarredCache::from_cache_dir(None).err().unwrap();
    assert_eq!(err, StarredCacheError::NoCacheDir);
    assert_eq!(err.message(), "Failed to determine cache directory");
    let c = StarredCache::from_cache_dir(Some(PathBuf::from("/home/u/.cache"))).ok().unwrap();
    assert_eq!(c.cache_file(), PathBuf::from("/home/u/.cache/git-trending-motd/starred.json"));
}

#[test]
fn saved_entry_is_stamped_and_holds_each_name_once() {
    let c = cache(3600);
    let entry = c.save_starred_at(
        vec!["a/b".to_string(), "c/d".to_string(), "a/b".to_string()],
        1_700_000_000,
    );
    assert_eq!(entry.timestamp, 1_700_000_000);
    assert_eq!(entry.starred_repos, vec!["a/b".to_string(), "c/d".to_string()]);
    assert_eq!(
        c.get_starred_at(Some(entry), 1_700_003_600),
        Some(vec!["a/b".to_string(), "c/d".to_string()])
    );
    assert_eq!(distinct_names(vec![]), Vec::<String>::new());
}

#[test]
fn clock_before_epoch_reads_zero() {
    assert_eq!(secs_or_zero(None), 0);
    assert_eq!(secs_or_zero(Some(1_700_000_000)), 1_700_000_000);
}

#[test]
fn now_is_after_2020() {
    assert!(StarredCache::now() > 1_577_836_800);
}
