use git_trending_motd::commands::{prepare_star, provider_id, split_owner_repo, StarError};

#[test]
fn test_star_command_accepts_owner_slash_repo_format() {
    let parts = split_owner_repo("rust-lang/rust").unwrap();
    assert_eq!(parts.0, "rust-lang");
    assert_eq!(parts.1, "rust");
}

#[test]
fn split_rejects_missing_or_extra_slashes() {
    assert!(split_owner_repo("invalidformat").is_none());
    assert!(split_owner_repo("owner/repo/extra").is_none());
    assert!(split_owner_repo("a//b").is_none());
    assert_eq!(
        split_owner_repo("/").unwrap(),
        (String::new(), String::new())
    );
    assert_eq!(
        split_owner_repo("用户/项目").unwrap(),
        ("用户".to_string(), "项目".to_string())
    );
}

#[test]
fn star_checks_token_before_format() {
    let err = prepare_star(None, "invalidformat").err().unwrap();
    assert_eq!(err, StarError::MissingToken);
    let err = prepare_star(None, "owner/repo").err().unwrap();
    assert_eq!(err, StarError::MissingToken);
    let err = prepare_star(Some("t".to_string()), "owner/repo/extra").err().unwrap();
    assert_eq!(err, StarError::InvalidFormat);
    let req = prepare_star(Some("tok".to_string()), "owner/repo").ok().unwrap();
    assert_eq!(req.owner, "owner");
    assert_eq!(req.name, "repo");
    assert_eq!(req.token, "tok");
}

#[test]
fn star_error_messages() {
    let missing = StarError::MissingToken.message();
    assert!(missing.contains("GitHub token not configured"));
    assert!(missing.contains("GIT_TRENDING_MOTD_GITHUB_TOKEN"));
    assert_eq!(
        StarError::InvalidFormat.message(),
        "Invalid repository format. Expected: owner/repo"
    );
}

#[test]
fn provider_short_names_expand() {
    assert_eq!(provider_id("gh"), "github");
    assert_eq!(provider_id("gl"), "gitlab");
    assert_eq!(provider_id("ge"), "gitea");
    assert_eq!(provider_id("github"), "github");
    assert_eq!(provider_id("other"), "other");
    assert_eq!(provider_id("GH"), "GH");
}
