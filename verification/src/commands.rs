//! Argument handling of the `clone` and `star` subcommands and of the
//! `--provider` option.

use vstd::prelude::*;
use crate::text::{is_prefix, starts_with, text_eq};

verus! {

/// The URL that `clone` hands to git: an argument that already is an http or
/// https URL is used as it is; anything else is taken as a GitHub
/// `owner/repo` and expanded to its GitHub clone URL.
pub open spec fn spec_clone_url(repo: Seq<char>) -> Seq<char> {
    if is_prefix("http://"@, repo) || is_prefix("https://"@, repo) {
        repo
    } else {
        "https://github.com/"@ + repo + ".git"@
    }
}

/// Builds the URL to clone from the `clone` argument.
pub fn clone_url(repo: &str) -> (r: String)
    ensures
        r@ == spec_clone_url(repo@),
{
    if starts_with(repo, "http://") || starts_with(repo, "https://") {
        repo.to_owned()
    } else {
        let mut url = String::from_str("https://github.com/");
        url.append(repo);
        url.append(".git");
        url
    }
}

/// `s` holds exactly one `/`, at index `k`.
pub open spec fn single_slash_at(s: Seq<char>, k: int) -> bool {
    &&& 0 <= k < s.len()
    &&& s[k] == '/'
    &&& forall|j: int| 0 <= j < s.len() && j != k ==> s[j] != '/'
}

/// `s` holds exactly one `/`: the `owner/repo` format.
pub open spec fn is_owner_repo(s: Seq<char>) -> bool {
    exists|k: int| single_slash_at(s, k)
}

/// Splits `owner/repo` at its single `/`. Text with no `/` or with more than
/// one is refused (`None`); either side may be empty.
pub fn split_owner_repo(repo: &str) -> (r: Option<(String, String)>)
    ensures
        r is Some <==> is_owner_repo(repo@),
        r matches Some((owner, name)) ==> {
            &&& owner@ + seq!['/'] + name@ == repo@
            &&& !owner@.contains('/')
            &&& !name@.contains('/')
        },
{
    let n = repo.unicode_len();
    let mut first: usize = n;
    let mut i: usize = 0;
    while i < n
        invariant
            n == repo@.len(),
            i <= n,
            first == n ==> forall|j: int| 0 <= j < i ==> repo@[j] != '/',
            first != n ==> first < i && repo@[first as int] == '/' && forall|j: int|
                0 <= j < i && j != first ==> repo@[j] != '/',
        decreases n - i,
    {
        if repo.get_char(i) == '/' {
            if first != n {
                proof {
                    assert forall|k: int| !single_slash_at(repo@, k) by {
                        if single_slash_at(repo@, k) {
                            if k != first as int {
                                assert(repo@[first as int] == '/');
                            } else {
                                assert(repo@[i as int] == '/');
                            }
                        }
                    }
                }
                return None;
            }
            first = i;
        }
        i = i + 1;
    }
    if first == n {
        proof {
            assert forall|k: int| !single_slash_at(repo@, k) by {
                if single_slash_at(repo@, k) {
                    assert(repo@[k] == '/');
                }
            }
        }
        return None;
    }
    let owner = repo.substring_char(0, first).to_owned();
    let name = repo.substring_char(first + 1, n).to_owned();
    proof {
        assert(single_slash_at(repo@, first as int));
        assert(owner@ + seq!['/'] + name@ =~= repo@);
        assert forall|j: int| 0 <= j < owner@.len() implies owner@[j] != '/' by {
            assert(owner@[j] == repo@[j]);
        }
        assert forall|j: int| 0 <= j < name@.len() implies name@[j] != '/' by {
            assert(name@[j] == repo@[first + 1 + j]);
        }
    }
    Some((owner, name))
}

/// Why a `star` request was refused.
#[derive(Debug, PartialEq, Eq, Structural)]
pub enum StarError {
    /// No GitHub token is configured.
    MissingToken,
    /// The argument is not in the `owner/repo` format.
    InvalidFormat,
}

impl StarError {
    /// The message shown to the user.
    pub fn message(&self) -> (r: String)
        ensures
            r@ == match self {
                StarError::MissingToken => "GitHub token not configured. Set GIT_TRENDING_MOTD_GITHUB_TOKEN or add github_token to config file."@,
                StarError::InvalidFormat => "Invalid repository format. Expected: owner/repo"@,
            },
    {
        match self {
            StarError::MissingToken => String::from_str(
                "GitHub token not configured. Set GIT_TRENDING_MOTD_GITHUB_TOKEN or add github_token to config file.",
            ),
            StarError::InvalidFormat => String::from_str(
                "Invalid repository format. Expected: owner/repo",
            ),
        }
    }
}

/// A checked `star` request: the repository to star and the token to use.
pub struct StarRequest {
    pub owner: String,
    pub name: String,
    pub token: String,
}

/// Checks a `star` request: the token is checked first, then the format of
/// the repository argument.
pub fn prepare_star(token: Option<String>, repo: &str) -> (r: Result<StarRequest, StarError>)
    ensures
        token is None ==> r == Err::<StarRequest, StarError>(StarError::MissingToken),
        token is Some && !is_owner_repo(repo@) ==> r == Err::<StarRequest, StarError>(
            StarError::InvalidFormat,
        ),
        token is Some && is_owner_repo(repo@) ==> (r matches Ok(req) && {
            &&& req.token == token->Some_0
            &&& req.owner@ + seq!['/'] + req.name@ == repo@
            &&& !req.owner@.contains('/')
            &&& !req.name@.contains('/')
        }),
{
    match token {
        None => Err(StarError::MissingToken),
        Some(token) => match split_owner_repo(repo) {
            None => Err(StarError::InvalidFormat),
            Some((owner, name)) => Ok(StarRequest { owner, name, token }),
        },
    }
}

/// Provider identifier for a `--provider` entry: the short names `gh`, `gl`
/// and `ge` stand for `github`, `gitlab` and `gitea`; other entries are
/// taken as they are.
pub open spec fn spec_provider_id(p: Seq<char>) -> Seq<char> {
    if p == "gh"@ {
        "github"@
    } else if p == "gl"@ {
        "gitlab"@
    } else if p == "ge"@ {
        "gitea"@
    } else {
        p
    }
}

/// Expands a `--provider` entry to a provider identifier.
pub fn provider_id(p: &str) -> (r: String)
    ensures
        r@ == spec_provider_id(p@),
{
    if text_eq(p, "gh") {
        String::from_str("github")
    } else if text_eq(p, "gl") {
        String::from_str("gitlab")
    } else if text_eq(p, "ge") {
        String::from_str("gitea")
    } else {
        p.to_owned()
    }
}

} // verus!
