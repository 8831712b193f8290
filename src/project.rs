use vstd::prelude::*;

use crate::repository::{join, join_path, Repository};
use crate::text::text_eq;

verus! {

/// A point in time, as milliseconds since the Unix epoch (UTC).
#[derive(Clone, Copy, Debug, PartialEq, Eq, Structural)]
pub struct Timestamp {
    pub millis: i64,
}

/// Milliseconds in one hour.
pub const MILLIS_PER_HOUR: i64 = 3600000;

/// Whether at least `hours` hours have passed from `stamp` to `now`.
pub open spec fn is_stale(stamp: Timestamp, hours: u64, now: Timestamp) -> bool {
    now.millis - stamp.millis >= hours * MILLIS_PER_HOUR
}

/// What a cached version is, as values.
pub enum VersionView {
    NoBuild { checked: Timestamp },
    Build { path: Seq<char>, sha1: Option<Seq<char>>, built: Timestamp },
    BuildSnapshot { path: Seq<char>, timestamp: Timestamp, built: Timestamp },
}

impl VersionView {
    /// The time the staleness rule is measured from.
    pub open spec fn stamp(self) -> Timestamp {
        match self {
            VersionView::NoBuild { checked } => checked,
            VersionView::Build { built, .. } => built,
            VersionView::BuildSnapshot { built, .. } => built,
        }
    }

    /// The same variant with its staleness clock set to `now`.
    pub open spec fn with_stamp(self, now: Timestamp) -> VersionView {
        match self {
            VersionView::NoBuild { .. } => VersionView::NoBuild { checked: now },
            VersionView::Build { path, sha1, .. } => VersionView::Build { path, sha1, built: now },
            VersionView::BuildSnapshot { path, timestamp, .. } => VersionView::BuildSnapshot {
                path,
                timestamp,
                built: now,
            },
        }
    }
}

/// The cache state of one version of a project.
pub enum Version {
    /// No Version Data
    NoBuild { checked: Timestamp },
    /// Contains a release version
    Build { path: String, sha1: Option<String>, built: Timestamp },
    /// Contains a snapshot version
    BuildSnapshot { path: String, timestamp: Timestamp, built: Timestamp },
}

impl View for Version {
    type V = VersionView;

    open spec fn view(&self) -> VersionView {
        match self {
            Version::NoBuild { checked } => VersionView::NoBuild { checked: *checked },
            Version::Build { path, sha1, built } => VersionView::Build {
                path: path@,
                sha1: match sha1 {
                    Some(s) => Some(s@),
                    None => None,
                },
                built: *built,
            },
            Version::BuildSnapshot { path, timestamp, built } => VersionView::BuildSnapshot {
                path: path@,
                timestamp: *timestamp,
                built: *built,
            },
        }
    }
}

impl Clone for Version {
    fn clone(&self) -> (r: Self)
        ensures
            r@ == self@,
    {
        match self {
            Version::NoBuild { checked } => Version::NoBuild { checked: *checked },
            Version::Build { path, sha1, built } => Version::Build {
                path: path.clone(),
                sha1: match sha1 {
                    Some(s) => Some(s.clone()),
                    None => None,
                },
                built: *built,
            },
            Version::BuildSnapshot { path, timestamp, built } => Version::BuildSnapshot {
                path: path.clone(),
                timestamp: *timestamp,
                built: *built,
            },
        }
    }
}

/// Where a requested page of a version lies, and the name its type is
/// guessed from.
pub struct FileLookup {
    pub path: String,
    pub name: String,
}

/// The page asked for: `index.html` when none, or an empty one, is named.
pub open spec fn requested_name(file: Option<Seq<char>>) -> Seq<char> {
    match file {
        Some(f) => if f.len() == 0 {
            "index.html"@
        } else {
            f
        },
        None => "index.html"@,
    }
}

/// The characters of an optional text.
pub open spec fn option_view(o: Option<String>) -> Option<Seq<char>> {
    match o {
        Some(s) => Some(s@),
        None => None,
    }
}

impl Version {
    /// Sets the staleness clock to `now`, keeping the variant and the rest.
    pub fn update_checked(&mut self, now: Timestamp)
        ensures
            final(self)@ == old(self)@.with_stamp(now),
    {
        match self {
            Version::NoBuild { checked } => *checked = now,
            Version::Build { built, .. } => *built = now,
            Version::BuildSnapshot { built, .. } => *built = now,
        }
    }

    /// Whether the version is due for a check upstream: at least the
    /// repository's update interval has passed since its stamp.
    pub fn should_be_sent_for_rebuilding(&self, repository: &Repository, now: Timestamp) -> (r:
        bool)
        ensures
            r == is_stale(self@.stamp(), repository.cache.time_til_update, now),
    {
        let stamp = match self {
            Version::NoBuild { checked } => *checked,
            Version::Build { built, .. } => *built,
            Version::BuildSnapshot { built, .. } => *built,
        };
        let elapsed: i128 = now.millis as i128 - stamp.millis as i128;
        let limit: i128 = repository.cache.time_til_update as i128 * MILLIS_PER_HOUR as i128;
        elapsed >= limit
    }

    /// The file to read for a requested page: none for a version without a
    /// build, else the page's path inside the extracted tree.
    pub fn load_file(&self, file: Option<String>) -> (r: Option<FileLookup>)
        ensures
            match self@ {
                VersionView::NoBuild { .. } => r is None,
                VersionView::Build { path, .. } | VersionView::BuildSnapshot { path, .. } => {
                    &&& r is Some
                    &&& r->0.name@ == requested_name(option_view(file))
                    &&& r->0.path@ == join_path(path, requested_name(option_view(file)))
                },
            },
    {
        let dir = match self {
            Version::NoBuild { .. } => {
                return None;
            },
            Version::Build { path, .. } => path,
            Version::BuildSnapshot { path, .. } => path,
        };
        let name = match file {
            Some(f) => if f.as_str().unicode_len() == 0 {
                "index.html".to_owned()
            } else {
                f
            },
            None => "index.html".to_owned(),
        };
        let path = join(dir.as_str(), name.as_str());
        Some(FileLookup { path, name })
    }
}

/// Once a version is due for a check, it stays due for the same stamp at
/// every later time.
pub proof fn lemma_staleness_monotonic(v: VersionView, hours: u64, t: Timestamp, later: Timestamp)
    requires
        is_stale(v.stamp(), hours, t),
        t.millis <= later.millis,
    ensures
        is_stale(v.stamp(), hours, later),
{
}

/// Whether some entry is kept under `key`.
pub open spec fn has_key(entries: Seq<(String, Version)>, key: Seq<char>) -> bool {
    exists|i: int| 0 <= i < entries.len() && entries[i].0@ == key
}

/// No two entries share a key.
pub open spec fn keys_unique(entries: Seq<(String, Version)>) -> bool {
    forall|i: int, j: int|
        0 <= i < entries.len() && 0 <= j < entries.len() && entries[i].0@ == entries[j].0@ ==> i
            == j
}

/// The entries as a map from version string to version.
pub open spec fn entries_map(entries: Seq<(String, Version)>) -> Map<Seq<char>, VersionView> {
    Map::new(
        |k: Seq<char>| has_key(entries, k),
        |k: Seq<char>|
            entries[choose|i: int| 0 <= i < entries.len() && entries[i].0@ == k].1@,
    )
}

/// An entry's key maps to the entry's version.
pub proof fn lemma_entries_map_at(entries: Seq<(String, Version)>, i: int)
    requires
        keys_unique(entries),
        0 <= i < entries.len(),
    ensures
        entries_map(entries).contains_key(entries[i].0@),
        entries_map(entries)[entries[i].0@] == entries[i].1@,
{
    let k = entries[i].0@;
    assert(has_key(entries, k));
    let j = choose|j: int| 0 <= j < entries.len() && entries[j].0@ == k;
    assert(j == i);
}

/// What a project's record holds, as values.
pub struct ProjectView {
    pub name: Seq<char>,
    pub versions: Map<Seq<char>, VersionView>,
    pub latest: Option<Seq<char>>,
    pub last_updated: Option<Timestamp>,
}

/// The cached record of one project: each known version, the upstream's
/// latest version and when the record was last refreshed.
pub struct Project {
    pub name: String,
    /// One entry per version string.
    pub versions: Vec<(String, Version)>,
    pub latest: Option<String>,
    pub last_updated: Option<Timestamp>,
}

impl View for Project {
    type V = ProjectView;

    open spec fn view(&self) -> ProjectView {
        ProjectView {
            name: self.name@,
            versions: entries_map(self.versions@),
            latest: option_view(self.latest),
            last_updated: self.last_updated,
        }
    }
}

impl Project {
    /// Each version string appears once.
    pub open spec fn wf(&self) -> bool {
        keys_unique(self.versions@)
    }

    /// Whether each version string appears once.
    pub fn has_unique_versions(&self) -> (r: bool)
        ensures
            r == self.wf(),
    {
        let n = self.versions.len();
        let mut i: usize = 0;
        while i < n
            invariant
                n == self.versions@.len(),
                i <= n,
                forall|a: int, b: int|
                    0 <= a < i && 0 <= b < n && a != b ==> self.versions@[a].0@
                        != self.versions@[b].0@,
            decreases n - i,
        {
            let mut j: usize = 0;
            while j < n
                invariant
                    n == self.versions@.len(),
                    i < n,
                    j <= n,
                    forall|a: int, b: int|
                        0 <= a < i && 0 <= b < n && a != b ==> self.versions@[a].0@
                            != self.versions@[b].0@,
                    forall|b: int|
                        0 <= b < j && b != i ==> self.versions@[i as int].0@
                            != self.versions@[b].0@,
                decreases n - j,
            {
                if j != i && text_eq(self.versions[i].0.as_str(), self.versions[j].0.as_str()) {
                    return false;
                }
                j = j + 1;
            }
            i = i + 1;
        }
        true
    }

    /// A record with no versions, as made the first time a project is asked for.
    pub fn new(name: String) -> (r: Project)
        ensures
            r.wf(),
            r@.name == name@,
            r@.versions == Map::<Seq<char>, VersionView>::empty(),
            r@.latest is None,
            r@.last_updated is None,
    {
        let r = Project { name, versions: Vec::new(), latest: None, last_updated: None };
        assert(r@.versions =~= Map::<Seq<char>, VersionView>::empty());
        r
    }

    /// The position of the entry for `version`.
    pub fn find_version(&self, version: &str) -> (r: Option<usize>)
        requires
            self.wf(),
        ensures
            match r {
                Some(i) => i < self.versions@.len() && self.versions@[i as int].0@ == version@
                    && self@.versions.contains_key(version@) && self@.versions[version@]
                    == self.versions@[i as int].1@,
                None => !self@.versions.contains_key(version@),
            },
    {
        let n = self.versions.len();
        let mut i: usize = 0;
        while i < n
            invariant
                self.wf(),
                n == self.versions@.len(),
                i <= n,
                forall|j: int| 0 <= j < i ==> self.versions@[j].0@ != version@,
            decreases n - i,
        {
            if text_eq(self.versions[i].0.as_str(), version) {
                proof {
                    lemma_entries_map_at(self.versions@, i as int);
                }
                return Some(i);
            }
            i = i + 1;
        }
        None
    }

    /// The version kept under `version`.
    pub fn get_version(&self, version: &str) -> (r: Option<&Version>)
        requires
            self.wf(),
        ensures
            match r {
                Some(v) => self@.versions.contains_key(version@) && self@.versions[version@]
                    == v@,
                None => !self@.versions.contains_key(version@),
            },
    {
        match self.find_version(version) {
            Some(i) => Some(&self.versions[i].1),
            None => None,
        }
    }

    /// Returns the latest version of the project
    pub fn get_latest_version(&self) -> (r: Option<&Version>)
        requires
            self.wf(),
        ensures
            match self@.latest {
                Some(l) => match r {
                    Some(v) => self@.versions.contains_key(l) && self@.versions[l] == v@,
                    None => !self@.versions.contains_key(l),
                },
                None => r is None,
            },
    {
        match &self.latest {
            Some(latest) => self.get_version(latest.as_str()),
            None => None,
        }
    }

    /// Keeps `version` under `key`, in place of what was there.
    pub fn set_version(&mut self, key: String, version: Version)
        requires
            old(self).wf(),
        ensures
            final(self).wf(),
            final(self)@ == (ProjectView {
                versions: old(self)@.versions.insert(key@, version@),
                ..old(self)@
            }),
    {
        let ghost old_entries = self.versions@;
        let ghost k = key@;
        let ghost v = version@;
        match self.find_version(key.as_str()) {
            Some(i) => {
                self.versions.set(i, (key, version));
                proof {
                    let e = self.versions@;
                    assert(e == old_entries.update(i as int, e[i as int]));
                    assert forall|a: int, b: int|
                        0 <= a < e.len() && 0 <= b < e.len() && e[a].0@ == e[b].0@ implies a
                        == b by {
                        if a != i && b != i {
                            assert(old_entries[a] == e[a] && old_entries[b] == e[b]);
                        } else if a == i && b != i {
                            assert(old_entries[b] == e[b]);
                        } else if a != i && b == i {
                            assert(old_entries[a] == e[a]);
                        }
                    }
                    assert forall|kk: Seq<char>| #[trigger]
                        has_key(e, kk) == old_entries_map_has(old_entries, k, kk) by {
                        if has_key(e, kk) {
                            let j = choose|j: int| 0 <= j < e.len() && e[j].0@ == kk;
                            if j != i {
                                assert(old_entries[j] == e[j]);
                            }
                        }
                        if has_key(old_entries, kk) {
                            let j = choose|j: int|
                                0 <= j < old_entries.len() && old_entries[j].0@ == kk;
                            if j != i {
                                assert(old_entries[j] == e[j]);
                            } else {
                                assert(e[j].0@ == kk);
                            }
                        }
                        if kk == k {
                            assert(e[i as int].0@ == kk);
                        }
                    }
                    assert forall|kk: Seq<char>| #[trigger]
                        entries_map(e).contains_key(kk) implies entries_map(e)[kk] == entries_map(
                        old_entries,
                    ).insert(k, v)[kk] by {
                        let j = choose|j: int| 0 <= j < e.len() && e[j].0@ == kk;
                        lemma_entries_map_at(e, j);
                        if j != i {
                            assert(old_entries[j] == e[j]);
                            lemma_entries_map_at(old_entries, j);
                        }
                    }
                    assert(entries_map(e) =~= entries_map(old_entries).insert(k, v));
                }
            },
            None => {
                self.versions.push((key, version));
                proof {
                    let e = self.versions@;
                    let n = old_entries.len() as int;
                    assert(e == old_entries.push(e[n]));
                    assert forall|a: int, b: int|
                        0 <= a < e.len() && 0 <= b < e.len() && e[a].0@ == e[b].0@ implies a
                        == b by {
                        if a < n && b < n {
                            assert(old_entries[a] == e[a] && old_entries[b] == e[b]);
                        } else if a < n {
                            assert(old_entries[a] == e[a]);
                            assert(has_key(old_entries, k));
                        } else if b < n {
                            assert(old_entries[b] == e[b]);
                            assert(has_key(old_entries, k));
                        }
                    }
                    assert forall|kk: Seq<char>| #[trigger]
                        has_key(e, kk) == old_entries_map_has(old_entries, k, kk) by {
                        if has_key(e, kk) {
                            let j = choose|j: int| 0 <= j < e.len() && e[j].0@ == kk;
                            if j < n {
                                assert(old_entries[j] == e[j]);
                            }
                        }
                        if has_key(old_entries, kk) {
                            let j = choose|j: int|
                                0 <= j < old_entries.len() && old_entries[j].0@ == kk;
                            assert(old_entries[j] == e[j]);
                        }
                        if kk == k {
                            assert(e[n].0@ == kk);
                        }
                    }
                    assert forall|kk: Seq<char>| #[trigger]
                        entries_map(e).contains_key(kk) implies entries_map(e)[kk] == entries_map(
                        old_entries,
                    ).insert(k, v)[kk] by {
                        let j = choose|j: int| 0 <= j < e.len() && e[j].0@ == kk;
                        lemma_entries_map_at(e, j);
                        if j < n {
                            assert(old_entries[j] == e[j]);
                            lemma_entries_map_at(old_entries, j);
                        }
                    }
                    assert(entries_map(e) =~= entries_map(old_entries).insert(k, v));
                }
            },
        }
    }
}

/// Whether `kk` is a key once `k` has been added to the entries.
pub open spec fn old_entries_map_has(entries: Seq<(String, Version)>, k: Seq<char>, kk: Seq<
    char,
>) -> bool {
    has_key(entries, kk) || kk == k
}

/// The MIME type that `mime_guess` gives a file name, by its extension.
pub uninterp spec fn mime_of(file: Seq<char>) -> Seq<char>;

/// Relies on `mime_guess::from_path(..).first_or_octet_stream()`: the guess is
/// read from a static table by the name's extension alone (no disk access),
/// and a name without an extension gets `application/octet-stream`.
#[verifier::external_body]
fn guess_content_type(file: &str) -> (r: String)
    ensures
        r@ == mime_of(file@),
        !file@.contains('.') ==> r@ == "application/octet-stream"@,
{
    mime_guess::from_path(file).first_or_octet_stream().to_string()
}

/// The bytes of a served page and their content type.
pub struct FileResponse {
    pub file: Vec<u8>,
    pub content_type: String,
}

impl FileResponse {
    /// A response with the bytes read for the page `name`, typed by the
    /// name's extension.
    pub fn new(name: &str, file: Vec<u8>) -> (r: FileResponse)
        ensures
            r.file@ == file@,
            r.content_type@ == mime_of(name@),
            !name@.contains('.') ==> r.content_type@ == "application/octet-stream"@,
    {
        let content_type = guess_content_type(name);
        FileResponse { file, content_type }
    }
}

} // verus!
