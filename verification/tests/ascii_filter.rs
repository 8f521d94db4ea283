use git_trending_motd::ascii::ascii_counts;
use git_trending_motd::filters::{is_mostly_ascii, mark_starred, retain_min_stars, retain_mostly_ascii};
use git_trending_motd::model::Repo;

fn test_repo(name: &str, description: Option<&str>) -> Repo {
    Repo {
        provider: "github".to_string(),
        icon: "GH".to_string(),
        name: name.to_string(),
        language: Some("Rust".to_string()),
        description: description.map(String::from),
        url: format!("https://github.com/{name}"),
        stars_today: Some(50),
        stars_total: Some(1000),
        last_activity: None,
        topics: vec![],
        is_starred: false,
    }
}

/// The share of ASCII characters, as the display code computes it from the
/// library's counts.
fn ascii_ratio(s: &str) -> f64 {
    let (ascii, total) = ascii_counts(s);
    if total == 0 {
        return 1.0;
    }
    ascii as f64 / total as f64
}

#[test]
fn test_is_mostly_ascii_pure_english() {
    let repo = test_repo(
        "rust-lang/rust",
        Some("Empowering everyone to build reliable and efficient software."),
    );
    assert!(is_mostly_ascii(&repo));
}

#[test]
fn test_is_mostly_ascii_cjk_name() {
    let repo = test_repo("用户名/项目", Some("Some description"));
    assert!(!is_mostly_ascii(&repo));
}

#[test]
fn test_is_mostly_ascii_cjk_description() {
    let repo = test_repo("owner/repo", Some("这是一个中文描述，应该会失败"));
    assert!(!is_mostly_ascii(&repo));
}

#[test]
fn test_is_mostly_ascii_mixed_content() {
    let repo = test_repo("owner/repo", Some("Hello world 你好"));
    assert!(is_mostly_ascii(&repo));
}

#[test]
fn test_is_mostly_ascii_no_description() {
    let repo = test_repo("rust-lang/rust", None);
    assert!(is_mostly_ascii(&repo));
}

#[test]
fn test_ascii_ratio_pure_ascii() {
    assert_eq!(ascii_ratio("hello world"), 1.0);
    assert_eq!(ascii_ratio("rust-lang/rust"), 1.0);
    assert_eq!(ascii_ratio("123456"), 1.0);
}

#[test]
fn test_ascii_ratio_no_ascii() {
    let ratio = ascii_ratio("你好世界");
    assert!(ratio < 0.1);
}

#[test]
fn test_ascii_ratio_mixed() {
    let ratio = ascii_ratio("hello世界");
    assert!(ratio > 0.7 && ratio < 0.8);
}

#[test]
fn test_ascii_ratio_empty_string() {
    assert_eq!(ascii_ratio(""), 1.0);
}

#[test]
fn ascii_counts_counts_characters_not_bytes() {
    assert_eq!(ascii_counts("hello世界"), (5, 7));
    assert_eq!(ascii_counts(""), (0, 0));
    assert_eq!(ascii_counts("你好"), (0, 2));
    assert_eq!(ascii_counts("é"), (0, 1));
}

#[test]
fn name_threshold_is_eighty_percent() {
    // 4 ASCII of 5 characters: exactly 80% passes.
    assert!(is_mostly_ascii(&test_repo("abcd界", None)));
    // 3 ASCII of 4 characters: 75% fails.
    assert!(!is_mostly_ascii(&test_repo("abc界", None)));
}

#[test]
fn description_threshold_is_seventy_percent() {
    // 7 ASCII of 10: exactly 70% passes.
    assert!(is_mostly_ascii(&test_repo("a/b", Some("abcdefg界界界"))));
    // 6 ASCII of 9: 66.7% fails.
    assert!(!is_mostly_ascii(&test_repo("a/b", Some("abcdef界界界"))));
}

#[test]
fn empty_name_counts_as_ascii() {
    assert!(is_mostly_ascii(&test_repo("", Some(""))));
}

#[test]
fn retain_mostly_ascii_keeps_order() {
    let mut repos = vec![
        test_repo("a/one", None),
        test_repo("用户名/项目", None),
        test_repo("b/two", Some("这是一个中文描述")),
        test_repo("c/three", Some("fine")),
    ];
    retain_mostly_ascii(&mut repos);
    let names: Vec<&str> = repos.iter().map(|r| r.name.as_str()).collect();
    assert_eq!(names, vec!["a/one", "c/three"]);
}

#[test]
fn retain_min_stars_treats_missing_count_as_zero() {
    let mut low = test_repo("a/low", None);
    low.stars_total = Some(99);
    let mut exact = test_repo("a/exact", None);
    exact.stars_total = Some(100);
    let mut none = test_repo("a/none", None);
    none.stars_total = None;
    let high = test_repo("a/high", None);
    let mut repos = vec![low, exact, none, high];
    retain_min_stars(&mut repos, 100);
    let names: Vec<&str> = repos.iter().map(|r| r.name.as_str()).collect();
    assert_eq!(names, vec!["a/exact", "a/high"]);

    let mut unknown = vec![test_repo("a/none", None)];
    unknown[0].stars_total = None;
    retain_min_stars(&mut unknown, 0);
    assert_eq!(unknown.len(), 1);
}

#[test]
fn mark_starred_marks_only_github_repos() {
    let gh_starred = test_repo("owner1/repo1", None);
    let mut gh_unstarred = test_repo("owner2/repo2", None);
    gh_unstarred.is_starred = true;
    let mut gl = test_repo("owner1/repo1", None);
    gl.provider = "gitlab".to_string();
    let mut repos = vec![gh_starred, gh_unstarred, gl];
    let starred = vec!["owner1/repo1".to_string(), "owner3/repo3".to_string()];
    mark_starred(&mut repos, &starred);
    assert_eq!(repos.len(), 3);
    assert!(repos[0].is_starred);
    assert!(!repos[1].is_starred);
    assert!(!repos[2].is_starred);
    assert_eq!(repos[2].provider, "gitlab");
}
