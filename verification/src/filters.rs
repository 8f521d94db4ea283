//! Filters applied to the fetched repositories before they are shown, and the
//! marking of repositories that the user has starred.

use vstd::prelude::*;
use crate::ascii::{ascii_count, ascii_counts, lemma_ascii_text_fully_counted};
use crate::model::Repo;
use crate::text::text_eq;

verus! {

/// At least `num / den` of the characters of `s` are ASCII; empty text counts
/// as fully ASCII.
pub open spec fn ascii_share_at_least(s: Seq<char>, num: int, den: int) -> bool {
    s.len() == 0 || den * ascii_count(s) >= num * s.len()
}

/// The "mostly ASCII" rule: at least 80% of the name's characters are ASCII,
/// and, when a description is present, at least 70% of its characters are.
pub open spec fn repo_is_mostly_ascii(repo: Repo) -> bool {
    &&& ascii_share_at_least(repo.name@, 4, 5)
    &&& match repo.description {
        Some(d) => ascii_share_at_least(d@, 7, 10),
        None => true,
    }
}

/// A repository whose name, and description if any, are made of ASCII
/// characters only is mostly ASCII.
pub proof fn lemma_ascii_repo_is_mostly_ascii(repo: Repo)
    requires
        forall|i: int| 0 <= i < repo.name@.len() ==> ((#[trigger] repo.name@[i]) as u32) < 128,
        repo.description matches Some(d) ==> forall|i: int|
            0 <= i < d@.len() ==> ((#[trigger] d@[i]) as u32) < 128,
    ensures
        repo_is_mostly_ascii(repo),
{
    lemma_ascii_text_fully_counted(repo.name@);
    if let Some(d) = repo.description {
        lemma_ascii_text_fully_counted(d@);
    }
}

/// Checks whether a repository is mostly ASCII (filters out CJK and other
/// non-Latin scripts).
pub fn is_mostly_ascii(repo: &Repo) -> (r: bool)
    ensures
        r == repo_is_mostly_ascii(*repo),
{
    let (ascii, total) = ascii_counts(repo.name.as_str());
    if total > 0 && (ascii as u128) * 5 < (total as u128) * 4 {
        return false;
    }
    match &repo.description {
        Some(desc) => {
            let (ascii, total) = ascii_counts(desc.as_str());
            if total > 0 && (ascii as u128) * 10 < (total as u128) * 7 {
                return false;
            }
        },
        None => {},
    }
    true
}

/// Keeps, in order, the repositories that are mostly ASCII.
pub fn retain_mostly_ascii(repos: &mut Vec<Repo>)
    ensures
        final(repos)@ == old(repos)@.filter(|r: Repo| repo_is_mostly_ascii(r)),
{
    let ghost orig = repos@;
    let total = repos.len();
    let ghost pred = |r: Repo| repo_is_mostly_ascii(r);
    let mut kept: Vec<Repo> = Vec::new();
    let mut taken: usize = 0;
    while repos.len() > 0
        invariant
            taken <= orig.len(),
            orig.len() == total,
            repos@ == orig.skip(taken as int),
            repos@.len() + taken == orig.len(),
            kept@ == orig.take(taken as int).filter(pred),
            pred == (|r: Repo| repo_is_mostly_ascii(r)),
        decreases repos.len(),
    {
        let repo = repos.remove(0);
        proof {
            assert(orig.take(taken + 1) =~= orig.take(taken as int).push(repo));
            orig.take(taken as int).lemma_filter_push(repo, pred);
        }
        if is_mostly_ascii(&repo) {
            kept.push(repo);
        }
        taken = taken + 1;
        proof {
            assert(repos@ =~= orig.skip(taken as int));
        }
    }
    proof {
        assert(orig.take(taken as int) =~= orig);
    }
    *repos = kept;
}

/// Total star count of a repository, zero where the provider reported none.
pub open spec fn total_stars(repo: Repo) -> u64 {
    match repo.stars_total {
        Some(n) => n,
        None => 0,
    }
}

/// Keeps, in order, the repositories with at least `min_stars` stars in total
/// (a repository without a star count has zero).
pub fn retain_min_stars(repos: &mut Vec<Repo>, min_stars: u32)
    ensures
        final(repos)@ == old(repos)@.filter(|r: Repo| total_stars(r) >= min_stars),
{
    let ghost orig = repos@;
    let total = repos.len();
    let ghost pred = |r: Repo| total_stars(r) >= min_stars;
    let mut kept: Vec<Repo> = Vec::new();
    let mut taken: usize = 0;
    while repos.len() > 0
        invariant
            taken <= orig.len(),
            orig.len() == total,
            repos@ == orig.skip(taken as int),
            repos@.len() + taken == orig.len(),
            kept@ == orig.take(taken as int).filter(pred),
            pred == (|r: Repo| total_stars(r) >= min_stars),
        decreases repos.len(),
    {
        let repo = repos.remove(0);
        proof {
            assert(orig.take(taken + 1) =~= orig.take(taken as int).push(repo));
            orig.take(taken as int).lemma_filter_push(repo, pred);
        }
        let stars: u64 = match repo.stars_total {
            Some(n) => n,
            None => 0,
        };
        if stars >= min_stars as u64 {
            kept.push(repo);
        }
        taken = taken + 1;
        proof {
            assert(repos@ =~= orig.skip(taken as int));
        }
    }
    proof {
        assert(orig.take(taken as int) =~= orig);
    }
    *repos = kept;
}

/// The names in a list of starred repositories, as character sequences.
pub open spec fn name_views(names: Seq<String>) -> Seq<Seq<char>> {
    names.map_values(|s: String| s@)
}

/// A repository after starred marking: GitHub repositories are marked starred
/// exactly when their name is in `starred`; others are left as they are.
pub open spec fn marked(repo: Repo, starred: Seq<Seq<char>>) -> Repo {
    if repo.provider@ == "github"@ {
        Repo { is_starred: starred.contains(repo.name@), ..repo }
    } else {
        repo
    }
}

/// Starred marking sets the starred flag of a GitHub repository to whether
/// its full name equals one of the starred names, leaves a repository of any
/// other provider as it is, and changes nothing else.
pub proof fn lemma_marked_is_exact_membership(repo: Repo, starred: Seq<Seq<char>>)
    ensures
        marked(repo, starred).provider == repo.provider,
        marked(repo, starred).icon == repo.icon,
        marked(repo, starred).name == repo.name,
        marked(repo, starred).language == repo.language,
        marked(repo, starred).description == repo.description,
        marked(repo, starred).url == repo.url,
        marked(repo, starred).stars_today == repo.stars_today,
        marked(repo, starred).stars_total == repo.stars_total,
        marked(repo, starred).last_activity == repo.last_activity,
        marked(repo, starred).topics == repo.topics,
        repo.provider@ == "github"@ ==> (marked(repo, starred).is_starred <==> exists|k: int|
            0 <= k < starred.len() && starred[k] == repo.name@),
        repo.provider@ != "github"@ ==> marked(repo, starred).is_starred == repo.is_starred,
{
    if repo.provider@ == "github"@ {
        if starred.contains(repo.name@) {
            let k = choose|k: int| 0 <= k < starred.len() && starred[k] == repo.name@;
            assert(starred[k] == repo.name@);
        }
    }
}

/// Whether `name` is one of `names`.
pub fn contains_name(names: &Vec<String>, name: &str) -> (r: bool)
    ensures
        r == name_views(names@).contains(name@),
{
    let mut i: usize = 0;
    while i < names.len()
        invariant
            i <= names@.len(),
            forall|j: int| 0 <= j < i ==> names@[j]@ != name@,
        decreases names.len() - i,
    {
        if text_eq(names[i].as_str(), name) {
            proof {
                assert(name_views(names@)[i as int] == name@);
            }
            return true;
        }
        i = i + 1;
    }
    proof {
        if name_views(names@).contains(name@) {
            let k = choose|k: int| 0 <= k < name_views(names@).len() && name_views(names@)[k] == name@;
            assert(names@[k]@ == name@);
        }
    }
    false
}

/// Sets the starred status of every GitHub repository from the list of the
/// user's starred repositories; other providers' repositories are unchanged.
pub fn mark_starred(repos: &mut Vec<Repo>, starred: &Vec<String>)
    ensures
        final(repos)@ == old(repos)@.map_values(|r: Repo| marked(r, name_views(starred@))),
        final(repos)@.len() == old(repos)@.len(),
        forall|i: int|
            0 <= i < old(repos)@.len() && old(repos)@[i].provider@ == "github"@ ==> (
            #[trigger] final(repos)@[i]).is_starred == (exists|k: int|
                0 <= k < starred@.len() && starred@[k]@ == old(repos)@[i].name@),
        forall|i: int|
            0 <= i < old(repos)@.len() && old(repos)@[i].provider@ != "github"@ ==> (
            #[trigger] final(repos)@[i]).is_starred == old(repos)@[i].is_starred,
        forall|i: int|
            0 <= i < old(repos)@.len() ==> (#[trigger] final(repos)@[i]).name == old(repos)@[i].name
                && final(repos)@[i].provider == old(repos)@[i].provider,
{
    let ghost orig = repos@;
    let total = repos.len();
    let ghost sv = name_views(starred@);
    let mut done: Vec<Repo> = Vec::new();
    let mut taken: usize = 0;
    while repos.len() > 0
        invariant
            taken <= orig.len(),
            orig.len() == total,
            repos@ == orig.skip(taken as int),
            repos@.len() + taken == orig.len(),
            sv == name_views(starred@),
            done@ == orig.take(taken as int).map_values(|r: Repo| marked(r, sv)),
        decreases repos.len(),
    {
        let mut repo = repos.remove(0);
        proof {
            assert(repo == orig[taken as int]);
        }
        if text_eq(repo.provider.as_str(), "github") {
            repo.is_starred = contains_name(starred, repo.name.as_str());
        }
        done.push(repo);
        taken = taken + 1;
        proof {
            assert(repos@ =~= orig.skip(taken as int));
            assert(done@ =~= orig.take(taken as int).map_values(|r: Repo| marked(r, sv)));
        }
    }
    proof {
        assert(orig.take(taken as int) =~= orig);
        assert forall|i: int|
            0 <= i < orig.len() && orig[i].provider@ == "github"@ implies (#[trigger] done@[i]).is_starred
                == (exists|k: int| 0 <= k < starred@.len() && starred@[k]@ == orig[i].name@) by {
            lemma_marked_is_exact_membership(orig[i], sv);
            if exists|k: int| 0 <= k < starred@.len() && starred@[k]@ == orig[i].name@ {
                let k = choose|k: int| 0 <= k < starred@.len() && starred@[k]@ == orig[i].name@;
                assert(sv[k] == orig[i].name@);
            }
            if exists|k: int| 0 <= k < sv.len() && sv[k] == orig[i].name@ {
                let k = choose|k: int| 0 <= k < sv.len() && sv[k] == orig[i].name@;
                assert(starred@[k]@ == orig[i].name@);
            }
        }
        assert forall|i: int| 0 <= i < orig.len() implies (#[trigger] done@[i]).name == orig[i].name
            && done@[i].provider == orig[i].provider && (orig[i].provider@ != "github"@
            ==> done@[i].is_starred == orig[i].is_starred) by {
            lemma_marked_is_exact_membership(orig[i], sv);
        }
    }
    *repos = done;
}

} // verus!
