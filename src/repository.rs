use vstd::prelude::*;

use crate::config::ConfigRepository;

verus! {

/// The character that a coordinate separator becomes in a path.
pub open spec fn coordinate_char(c: char) -> char {
    if c == '.' || c == ':' {
        '/'
    } else {
        c
    }
}

/// The relative path of a project coordinate: each `.` and `:` becomes `/`.
pub open spec fn coordinate_path(project: Seq<char>) -> Seq<char> {
    project.map_values(|c: char| coordinate_char(c))
}

/// Maps a project coordinate (`group.id:artifact`) to its relative path.
pub fn project_to_path(project: &str) -> (r: String)
    ensures
        r@ == coordinate_path(project@),
{
    let n = project.unicode_len();
    let mut out = String::new();
    let mut i: usize = 0;
    while i < n
        invariant
            n == project@.len(),
            i <= n,
            out@ == coordinate_path(project@.subrange(0, i as int)),
        decreases n - i,
    {
        let c = project.get_char(i);
        if c == '.' || c == ':' {
            let slash = "/";
            proof {
                reveal_strlit("/");
            }
            assert(slash@.len() == 1);
            assert(slash@ =~= seq!['/']);
            out.append(slash);
        } else {
            let one = project.substring_char(i, i + 1);
            out.append(one);
            assert(one@ =~= seq![c]);
        }
        assert(project@.subrange(0, i + 1) =~= project@.subrange(0, i as int).push(c));
        assert(coordinate_path(project@.subrange(0, i + 1)) =~= coordinate_path(
            project@.subrange(0, i as int),
        ).push(coordinate_char(c)));
        i = i + 1;
    }
    assert(project@.subrange(0, n as int) =~= project@);
    out
}

/// A character that stands between two parts of a path once a coordinate is mapped.
pub open spec fn is_separator(c: char) -> bool {
    c == '.' || c == ':' || c == '/'
}

/// Two coordinates map to the same path exactly when they have the same length
/// and, position by position, hold the same character or two separators
/// (`.`, `:` or `/`). Mapping a path a second time leaves it as it is.
pub proof fn lemma_coordinate_path_classes(a: Seq<char>, b: Seq<char>)
    ensures
        coordinate_path(a) == coordinate_path(b) <==> (a.len() == b.len() && forall|i: int|
            0 <= i < a.len() ==> (a[i] == b[i] || (is_separator(a[i]) && is_separator(b[i])))),
        coordinate_path(coordinate_path(a)) == coordinate_path(a),
{
    if coordinate_path(a) == coordinate_path(b) {
        assert forall|i: int| 0 <= i < a.len() implies (a[i] == b[i] || (is_separator(a[i])
            && is_separator(b[i]))) by {
            assert(coordinate_path(a)[i] == coordinate_path(b)[i]);
        }
    }
    if a.len() == b.len() && forall|i: int|
        0 <= i < a.len() ==> (a[i] == b[i] || (is_separator(a[i]) && is_separator(b[i]))) {
        assert(coordinate_path(a) =~= coordinate_path(b));
    }
    assert(coordinate_path(coordinate_path(a)) =~= coordinate_path(a));
}

/// The text without the slashes at its end.
pub open spec fn strip_trailing_slashes(s: Seq<char>) -> Seq<char>
    decreases s.len(),
{
    if s.len() > 0 && s.last() == '/' {
        strip_trailing_slashes(s.drop_last())
    } else {
        s
    }
}

/// A relative path appended to a directory, with one `/` between them.
pub open spec fn join_path(base: Seq<char>, rel: Seq<char>) -> Seq<char> {
    if base.len() == 0 {
        rel
    } else if base.last() == '/' {
        base + rel
    } else {
        base + seq!['/'] + rel
    }
}

/// Removes every `/` at the end of `s`.
pub fn trim_trailing_slashes(s: &str) -> (r: String)
    ensures
        r@ == strip_trailing_slashes(s@),
{
    let n = s.unicode_len();
    let mut k: usize = n;
    assert(s@.subrange(0, n as int) =~= s@);
    while k > 0 && s.get_char(k - 1) == '/'
        invariant
            n == s@.len(),
            k <= n,
            strip_trailing_slashes(s@.subrange(0, k as int)) == strip_trailing_slashes(s@),
        decreases k,
    {
        assert(s@.subrange(0, k as int).drop_last() =~= s@.subrange(0, k - 1));
        k = k - 1;
    }
    s.substring_char(0, k).to_owned()
}

/// Appends the relative path `rel` to the directory `base`.
pub fn join(base: &str, rel: &str) -> (r: String)
    ensures
        r@ == join_path(base@, rel@),
{
    let n = base.unicode_len();
    if n == 0 {
        rel.to_owned()
    } else if base.get_char(n - 1) == '/' {
        let mut out = base.to_owned();
        out.append(rel);
        out
    } else {
        let slash = "/";
        proof {
            reveal_strlit("/");
        }
        assert(slash@ =~= seq!['/']);
        let mut out = base.to_owned();
        out.append(slash);
        out.append(rel);
        out
    }
}

/// How long a cached version stays fresh.
pub struct CacheRules {
    /// Amount of time in hours
    pub time_til_update: u64,
}

impl Default for CacheRules {
    fn default() -> (r: Self)
        ensures
            r.time_til_update == 24,
    {
        CacheRules { time_til_update: 24 }
    }
}

impl Clone for CacheRules {
    fn clone(&self) -> (r: Self)
        ensures
            r.time_til_update == self.time_til_update,
    {
        CacheRules { time_til_update: self.time_til_update }
    }
}

/// One upstream repository: where it is, how long its documentation stays
/// fresh and where its cache lives on disk.
pub struct Repository {
    pub name: String,
    /// The upstream base address, without a trailing slash.
    pub address: String,
    pub allows_redeploy: bool,
    /// The root of this repository's cache.
    pub path: String,
    pub cache: CacheRules,
}

impl Repository {
    /// The directory of a project's cache.
    pub open spec fn project_dir_spec(&self, project: Seq<char>) -> Seq<char> {
        join_path(self.path@, coordinate_path(project))
    }

    /// Builds a repository from its configuration; its cache lives in
    /// `<path>/<name>`.
    pub fn new(name: String, config: ConfigRepository, path: &str) -> (r: Repository)
        ensures
            r.name@ == name@,
            r.address@ == strip_trailing_slashes(config.address@),
            r.allows_redeploy == config.allows_redeploy,
            r.path@ == join_path(path@, name@),
            r.cache.time_til_update == config.cache.time_til_update,
    {
        let address = trim_trailing_slashes(config.address.as_str());
        let dir = join(path, name.as_str());
        Repository {
            path: dir,
            name,
            address,
            allows_redeploy: config.allows_redeploy,
            cache: config.cache,
        }
    }

    /// The directory that holds a project's cache.
    pub fn project_dir(&self, project: &str) -> (r: String)
        ensures
            r@ == self.project_dir_spec(project@),
    {
        let rel = project_to_path(project);
        join(self.path.as_str(), rel.as_str())
    }

    /// The file that holds a project's cached record.
    pub fn project_file(&self, project: &str) -> (r: String)
        ensures
            r@ == join_path(self.project_dir_spec(project@), "project.json"@),
    {
        let dir = self.project_dir(project);
        join(dir.as_str(), "project.json")
    }
}

} // verus!
