//! The starred-repositories cache: where it lives, how long an entry stays
//! valid, and what a loaded entry yields. Reading and writing the cache file
//! is done by the caller, which hands the loaded entry in and writes the entry
//! handed back.

use vstd::prelude::*;
use crate::filters::{contains_name, name_views};
use std::path::PathBuf;
use std::time::{Duration, SystemTime, SystemTimeError};

verus! {

#[verifier::external_type_specification]
#[verifier::external_body]
pub struct ExPathBuf(PathBuf);

#[verifier::external_type_specification]
#[verifier::external_body]
pub struct ExSystemTime(SystemTime);

#[verifier::external_type_specification]
#[verifier::external_body]
pub struct ExSystemTimeError(SystemTimeError);

/// Validity of a starred entry, in seconds (one hour).
pub const STARRED_TTL_SECS: u64 = 3600;

/// The starred repositories of the user as of `timestamp` (seconds since the
/// Unix epoch); each name is `owner/repo`. An entry made by `save_starred`
/// holds each name once.
pub struct StarredEntry {
    pub timestamp: u64,
    pub starred_repos: Vec<String>,
}

/// Filesystem-based starred status cache. The cache file is
/// `cache_dir` followed by the components of `relative_path`.
pub struct StarredCache {
    /// Directory under which the cache file lives.
    pub cache_dir: PathBuf,
    /// Path of the cache file below `cache_dir`, one component per entry.
    pub relative_path: Vec<String>,
    /// How long an entry stays valid, in seconds.
    pub ttl_secs: u64,
}

/// Why the cache could not be set up.
#[derive(Debug, PartialEq, Eq, Structural)]
pub enum StarredCacheError {
    /// The platform's user cache directory could not be determined.
    NoCacheDir,
}

impl StarredCacheError {
    /// The message shown to the user.
    pub fn message(&self) -> (r: String)
        ensures
            r@ == match self {
                StarredCacheError::NoCacheDir => "Failed to determine cache directory"@,
            },
    {
        match self {
            StarredCacheError::NoCacheDir => String::from_str("Failed to determine cache directory"),
        }
    }
}

/// The cache file's path below the user cache directory:
/// `git-trending-motd/starred.json`.
pub open spec fn default_relative_path() -> Seq<Seq<char>> {
    seq!["git-trending-motd"@, "starred.json"@]
}

/// `c` is the default starred cache in `dir`: its file is
/// `dir/git-trending-motd/starred.json` and entries stay valid one hour.
pub open spec fn is_default_cache_in(c: StarredCache, dir: PathBuf) -> bool {
    &&& c.cache_dir == dir
    &&& name_views(c.relative_path@) == default_relative_path()
    &&& c.ttl_secs == STARRED_TTL_SECS
    &&& c.spec_cache_file() == spec_path_join(
        spec_path_join(dir, "git-trending-motd"@),
        "starred.json"@,
    )
}

/// Whole seconds since the Unix epoch from the clock's outcome: the elapsed
/// seconds, or zero when the clock reads earlier than the epoch (`None`).
pub open spec fn spec_secs_or_zero(elapsed: Option<u64>) -> u64 {
    match elapsed {
        Some(secs) => secs,
        None => 0,
    }
}

/// Seconds since the epoch from the clock's outcome; zero for a clock reading
/// before the epoch.
pub fn secs_or_zero(elapsed: Option<u64>) -> (r: u64)
    ensures
        r == spec_secs_or_zero(elapsed),
{
    match elapsed {
        Some(secs) => secs,
        None => 0,
    }
}

/// The names of `names`, each kept once; an input that holds no name twice
/// comes back unchanged.
pub fn distinct_names(names: Vec<String>) -> (r: Vec<String>)
    ensures
        name_views(r@).no_duplicates(),
        forall|x: Seq<char>| name_views(r@).contains(x) <==> name_views(names@).contains(x),
        name_views(names@).no_duplicates() ==> r@ == names@,
{
    let mut out: Vec<String> = Vec::new();
    let mut i: usize = 0;
    while i < names.len()
        invariant
            i <= names@.len(),
            name_views(out@).no_duplicates(),
            forall|x: Seq<char>| name_views(out@).contains(x) <==> name_views(names@.take(i as int)).contains(x),
            name_views(names@).no_duplicates() ==> out@ == names@.take(i as int),
        decreases names.len() - i,
    {
        let ghost before = name_views(out@);
        let ghost x = names@[i as int]@;
        let ghost pre = name_views(names@.take(i as int));
        let ghost post = name_views(names@.take(i + 1));
        proof {
            assert(names@.take(i + 1) =~= names@.take(i as int).push(names@[i as int]));
            assert(post =~= pre.push(x));
        }
        if !contains_name(&out, names[i].as_str()) {
            out.push(names[i].clone());
            proof {
                assert(name_views(out@) =~= before.push(x));
                assert forall|a: int, b: int|
                    0 <= a < b < name_views(out@).len() implies name_views(out@)[a] != name_views(out@)[b] by {
                    if b == before.len() {
                        assert(before.contains(before[a]));
                    }
                }
                assert forall|y: Seq<char>| name_views(out@).contains(y) <==> post.contains(y) by {
                    if name_views(out@).contains(y) && y != x {
                        let k = choose|k: int| 0 <= k < name_views(out@).len() && name_views(out@)[k] == y;
                        assert(before[k] == y);
                        assert(before.contains(y));
                        assert(pre.contains(y));
                        let m = choose|m: int| 0 <= m < pre.len() && pre[m] == y;
                        assert(post[m] == y);
                    }
                    if post.contains(y) && y != x {
                        let k = choose|k: int| 0 <= k < post.len() && post[k] == y;
                        assert(pre[k] == y);
                        assert(before.contains(y));
                        let m = choose|m: int| 0 <= m < before.len() && before[m] == y;
                        assert(name_views(out@)[m] == y);
                    }
                    if y == x {
                        assert(name_views(out@)[before.len() as int] == x);
                        assert(post[pre.len() as int] == x);
                    }
                }
            }
        } else {
            proof {
                assert(before.contains(x));
                assert(pre.contains(x));
                assert forall|y: Seq<char>| name_views(out@).contains(y) <==> post.contains(y) by {
                    if post.contains(y) && y != x {
                        let k = choose|k: int| 0 <= k < post.len() && post[k] == y;
                        assert(pre[k] == y);
                    }
                    if pre.contains(y) {
                        let k = choose|k: int| 0 <= k < pre.len() && pre[k] == y;
                        assert(post[k] == y);
                    }
                }
                if name_views(names@).no_duplicates() {
                    let k = choose|k: int| 0 <= k < pre.len() && pre[k] == x;
                    assert(name_views(names@)[k] == name_views(names@)[i as int]);
                }
            }
        }
        i = i + 1;
    }
    proof {
        assert(names@.take(names@.len() as int) =~= names@);
    }
    out
}

/// What a save writes is what a later read gives back: an entry holding
/// `starred` written at `saved_at` yields exactly `starred` when read at any
/// time up to `ttl_secs` seconds later (or at an earlier clock reading).
pub proof fn lemma_read_back_while_fresh(
    cache: StarredCache,
    starred: Vec<String>,
    saved_at: u64,
    read_at: u64,
)
    requires
        read_at <= saved_at + cache.ttl_secs,
    ensures
        cache.spec_get_starred_at(
            Some(StarredEntry { timestamp: saved_at, starred_repos: starred }),
            read_at,
        ) == Some(starred),
{
}

/// An entry read more than `ttl_secs` seconds after it was written has
/// expired and yields nothing.
pub proof fn lemma_expired_entry_yields_nothing(
    cache: StarredCache,
    entry: StarredEntry,
    read_at: u64,
)
    requires
        read_at > entry.timestamp + cache.ttl_secs,
    ensures
        cache.spec_get_starred_at(Some(entry), read_at) is None,
{
}

/// `dirs::cache_dir`: the user's cache directory, where the platform has one.
/// It depends on the environment and the platform; nothing is stated of it.
#[verifier::external_body]
fn user_cache_dir() -> (r: Option<PathBuf>) {
    dirs::cache_dir()
}

/// What `Path::join` gives for `base` and `part`. Within one build it depends
/// on its arguments alone; the separator it inserts is fixed by the target
/// platform.
pub uninterp spec fn spec_path_join(base: PathBuf, part: Seq<char>) -> PathBuf;

/// `Path::join`: `base` with `part` adjoined. Its result is stated as the
/// named `spec_path_join` of the arguments; what that path holds is not
/// stated.
#[verifier::external_body]
fn join_path(base: &PathBuf, part: &str) -> (r: PathBuf)
    ensures
        r == spec_path_join(*base, part@),
{
    base.join(part)
}

/// `base` joined with each of `parts` in turn.
pub open spec fn spec_join_all(base: PathBuf, parts: Seq<Seq<char>>) -> PathBuf
    decreases parts.len(),
{
    if parts.len() == 0 {
        base
    } else {
        spec_path_join(spec_join_all(base, parts.drop_last()), parts.last())
    }
}

/// `SystemTime::now`: the current system time. Nothing is stated of it.
#[verifier::external_body]
fn system_time_now() -> (r: SystemTime) {
    SystemTime::now()
}

/// `SystemTime::duration_since(UNIX_EPOCH)`: the time elapsed since the Unix
/// epoch, or an error for a time before it. Nothing is stated of it.
#[verifier::external_body]
fn since_unix_epoch(t: &SystemTime) -> (r: Result<Duration, SystemTimeError>) {
    t.duration_since(std::time::UNIX_EPOCH)
}

/// `Duration::as_secs`: the whole seconds of a duration. Nothing is stated of
/// it, `Duration` being opaque here.
#[verifier::external_body]
fn whole_secs(d: &Duration) -> (r: u64) {
    d.as_secs()
}

/// `secs` is a reading of the system clock in whole seconds since the Unix
/// epoch: the clock was read, the time since the epoch taken, and its whole
/// seconds are `secs`; or the reading lay before the epoch and `secs` is 0.
pub closed spec fn is_clock_reading(secs: u64) -> bool {
    exists|t: SystemTime, e: Result<Duration, SystemTimeError>|
        #![trigger call_ensures(system_time_now, (), t), call_ensures(since_unix_epoch, (&t,), e)]
        call_ensures(system_time_now, (), t) && call_ensures(since_unix_epoch, (&t,), e) && match e {
            Ok(d) => call_ensures(whole_secs, (&d,), secs),
            Err(_) => secs == 0,
        }
}

/// `dir` is what the platform reported as the user's cache directory.
pub closed spec fn is_reported_cache_dir(dir: Option<PathBuf>) -> bool {
    call_ensures(user_cache_dir, (), dir)
}

/// Age in seconds of an entry written at `timestamp`, read at `now`; zero
/// when the clock reads earlier than the timestamp.
pub open spec fn age_secs(timestamp: u64, now: u64) -> int {
    if now >= timestamp {
        now - timestamp
    } else {
        0
    }
}

/// An entry written at `timestamp` is still valid at `now`.
pub open spec fn is_fresh(ttl_secs: u64, timestamp: u64, now: u64) -> bool {
    age_secs(timestamp, now) <= ttl_secs
}

impl StarredCache {
    /// What a loaded entry yields at time `now`: nothing without an entry,
    /// its starred set while it is fresh, nothing once it has expired.
    pub open spec fn spec_get_starred_at(self, loaded: Option<StarredEntry>, now: u64) -> Option<
        Vec<String>,
    > {
        match loaded {
            Some(entry) => if is_fresh(self.ttl_secs, entry.timestamp, now) {
                Some(entry.starred_repos)
            } else {
                None
            },
            None => None,
        }
    }

    /// `repo_name` is in the starred set that the loaded entry yields at `now`.
    pub open spec fn spec_is_starred_at(self, loaded: Option<StarredEntry>, now: u64, repo_name: Seq<char>) -> bool {
        self.spec_get_starred_at(loaded, now) matches Some(s) && name_views(s@).contains(repo_name)
    }

    /// A cache in `cache_dir`: its file is `git-trending-motd/starred.json`
    /// under that directory, and entries are valid for one hour.
    pub fn in_dir(cache_dir: PathBuf) -> (r: StarredCache)
        ensures
            is_default_cache_in(r, cache_dir),
    {
        let mut relative_path: Vec<String> = Vec::new();
        relative_path.push(String::from_str("git-trending-motd"));
        relative_path.push(String::from_str("starred.json"));
        let r = StarredCache { cache_dir, relative_path, ttl_secs: STARRED_TTL_SECS };
        proof {
            let parts = default_relative_path();
            assert(name_views(r.relative_path@) =~= parts);
            assert(parts.drop_last() =~= seq!["git-trending-motd"@]);
            assert(parts.drop_last().drop_last() =~= Seq::<Seq<char>>::empty());
            assert(spec_join_all(r.cache_dir, parts.drop_last().drop_last()) == r.cache_dir);
            assert(parts.drop_last().last() == "git-trending-motd"@);
            assert(parts.last() == "starred.json"@);
            assert(spec_join_all(r.cache_dir, parts.drop_last()) == spec_path_join(
                r.cache_dir,
                "git-trending-motd"@,
            ));
        }
        r
    }

    /// The cache in the user's cache directory `dir`, as the platform reported
    /// it; `NoCacheDir` where it reported none.
    pub fn from_cache_dir(dir: Option<PathBuf>) -> (r: Result<StarredCache, StarredCacheError>)
        ensures
            dir is None ==> r == Err::<StarredCache, StarredCacheError>(StarredCacheError::NoCacheDir),
            dir matches Some(d) ==> (r matches Ok(c) && is_default_cache_in(c, d)),
    {
        match dir {
            Some(d) => Ok(StarredCache::in_dir(d)),
            None => Err(StarredCacheError::NoCacheDir),
        }
    }

    /// Creates the starred cache in the user's cache directory (one hour TTL);
    /// fails where the platform has no cache directory.
    pub fn new() -> (r: Result<StarredCache, StarredCacheError>)
        ensures
            r matches Ok(c) ==> is_default_cache_in(c, c.cache_dir),
            r matches Err(e) ==> e == StarredCacheError::NoCacheDir,
            exists|dir: Option<PathBuf>|
                #[trigger] is_reported_cache_dir(dir) && (dir is None ==> r == Err::<
                    StarredCache,
                    StarredCacheError,
                >(StarredCacheError::NoCacheDir)) && (dir matches Some(d) ==> (r matches Ok(c)
                    && is_default_cache_in(c, d))),
    {
        let dir = user_cache_dir();
        proof {
            assert(is_reported_cache_dir(dir));
        }
        StarredCache::from_cache_dir(dir)
    }

    /// The path of the cache file: `cache_dir` joined with each component of
    /// `relative_path` in turn; with no component, `cache_dir` joined with an
    /// empty one.
    pub open spec fn spec_cache_file(self) -> PathBuf {
        if self.relative_path@.len() == 0 {
            spec_path_join(self.cache_dir, Seq::empty())
        } else {
            spec_join_all(self.cache_dir, name_views(self.relative_path@))
        }
    }

    /// The path of the cache file: `cache_dir` joined with each component of
    /// `relative_path` in turn (with an empty `relative_path`, the directory
    /// itself, joined with an empty component).
    pub fn cache_file(&self) -> (r: PathBuf)
        ensures
            r == self.spec_cache_file(),
    {
        if self.relative_path.len() == 0 {
            let path = join_path(&self.cache_dir, "");
            proof {
                reveal_strlit("");
                assert(""@ =~= Seq::<char>::empty());
            }
            return path;
        }
        let ghost parts = name_views(self.relative_path@);
        let mut path = join_path(&self.cache_dir, self.relative_path[0].as_str());
        proof {
            assert(parts.take(1).drop_last() =~= parts.take(0));
            assert(parts.take(0) =~= Seq::<Seq<char>>::empty());
            assert(spec_join_all(self.cache_dir, parts.take(0)) == self.cache_dir);
        }
        let mut i: usize = 1;
        while i < self.relative_path.len()
            invariant
                1 <= i <= self.relative_path@.len(),
                parts == name_views(self.relative_path@),
                path == spec_join_all(self.cache_dir, parts.take(i as int)),
            decreases self.relative_path.len() - i,
        {
            proof {
                assert(parts.take(i + 1).drop_last() =~= parts.take(i as int));
            }
            path = join_path(&path, self.relative_path[i].as_str());
            i = i + 1;
        }
        proof {
            assert(parts.take(i as int) =~= parts);
        }
        path
    }

    /// Current time in seconds since the Unix epoch; zero when the clock reads
    /// earlier than the epoch.
    pub fn now() -> (r: u64)
        ensures
            is_clock_reading(r),
    {
        let t = system_time_now();
        let e = since_unix_epoch(&t);
        let elapsed = match &e {
            Ok(d) => Some(whole_secs(d)),
            Err(_) => None,
        };
        let r = secs_or_zero(elapsed);
        proof {
            assert(call_ensures(system_time_now, (), t));
            assert(call_ensures(since_unix_epoch, (&t,), e));
            match e {
                Ok(d) => {
                    assert(call_ensures(whole_secs, (&d,), r));
                },
                Err(_) => {},
            }
        }
        r
    }

    /// What the loaded cache entry yields when read at `now`.
    pub fn get_starred_at(&self, loaded: Option<StarredEntry>, now: u64) -> (r: Option<Vec<String>>)
        ensures
            r == self.spec_get_starred_at(loaded, now),
    {
        match loaded {
            Some(entry) => {
                let age = now.saturating_sub(entry.timestamp);
                if age > self.ttl_secs {
                    None
                } else {
                    Some(entry.starred_repos)
                }
            },
            None => None,
        }
    }

    /// The starred repositories that the loaded cache entry yields now: the
    /// entry's set if it is still fresh, else nothing.
    pub fn get_starred(&self, loaded: Option<StarredEntry>) -> (r: Option<Vec<String>>)
        ensures
            exists|now: u64| r == self.spec_get_starred_at(loaded, now),
            loaded is None ==> r is None,
            loaded is Some ==> exists|now: u64|
                #[trigger] is_clock_reading(now) && r == self.spec_get_starred_at(loaded, now),
    {
        match loaded {
            Some(entry) => {
                let now = Self::now();
                self.get_starred_at(Some(entry), now)
            },
            None => self.get_starred_at(None, 0),
        }
    }

    /// The entry to write for `starred_repos` at time `now`: stamped with
    /// `now`, holding each of the names once.
    pub fn save_starred_at(&self, starred_repos: Vec<String>, now: u64) -> (r: StarredEntry)
        ensures
            r.timestamp == now,
            name_views(r.starred_repos@).no_duplicates(),
            forall|x: Seq<char>|
                name_views(r.starred_repos@).contains(x) <==> name_views(starred_repos@).contains(x),
            name_views(starred_repos@).no_duplicates() ==> r.starred_repos@ == starred_repos@,
    {
        StarredEntry { timestamp: now, starred_repos: distinct_names(starred_repos) }
    }

    /// The entry to write for `starred_repos`, stamped with the current time.
    pub fn save_starred(&self, starred_repos: Vec<String>) -> (r: StarredEntry)
        ensures
            is_clock_reading(r.timestamp),
            name_views(r.starred_repos@).no_duplicates(),
            forall|x: Seq<char>|
                name_views(r.starred_repos@).contains(x) <==> name_views(starred_repos@).contains(x),
            name_views(starred_repos@).no_duplicates() ==> r.starred_repos@ == starred_repos@,
    {
        let now = Self::now();
        self.save_starred_at(starred_repos, now)
    }

    /// Whether `repo_name` is starred according to the loaded entry read at
    /// `now`.
    pub fn is_starred_at(&self, loaded: Option<StarredEntry>, now: u64, repo_name: &str) -> (r: bool)
        ensures
            r == self.spec_is_starred_at(loaded, now, repo_name@),
    {
        match self.get_starred_at(loaded, now) {
            Some(starred) => crate::filters::contains_name(&starred, repo_name),
            None => false,
        }
    }

    /// Whether `repo_name` is starred according to the loaded entry, read now.
    pub fn is_starred(&self, loaded: Option<StarredEntry>, repo_name: &str) -> (r: bool)
        ensures
            exists|now: u64| r == self.spec_is_starred_at(loaded, now, repo_name@),
            exists|now: u64|
                #[trigger] is_clock_reading(now) && r == self.spec_is_starred_at(
                    loaded,
                    now,
                    repo_name@,
                ),
    {
        let now = Self::now();
        self.is_starred_at(loaded, now, repo_name)
    }
}

} // verus!
