use vstd::prelude::*;

use std::sync::Arc;

use crate::project::{
    is_stale, option_view, requested_name, FileLookup, Project, ProjectView, Timestamp,
    VersionView,
};
use crate::repository::{join_path, Repository};
use crate::text::text_eq;

verus! {

/// A request for a page: repository, project coordinate, version (or
/// `latest`) and the file inside the documentation tree.
pub struct Request {
    pub repository: String,
    pub project: String,
    pub version: String,
    pub file: Option<String>,
}

/// The position of the first repository named `name`.
pub fn find_repository(repositories: &Vec<Arc<Repository>>, name: &str) -> (r: Option<usize>)
    ensures
        match r {
            Some(i) => i < repositories@.len() && repositories@[i as int].name@ == name@
                && forall|j: int| 0 <= j < i ==> repositories@[j].name@ != name@,
            None => forall|j: int| 0 <= j < repositories@.len() ==> repositories@[j].name@ != name@,
        },
{
    let n = repositories.len();
    let mut i: usize = 0;
    while i < n
        invariant
            n == repositories@.len(),
            i <= n,
            forall|j: int| 0 <= j < i ==> repositories@[j].name@ != name@,
        decreases n - i,
    {
        if text_eq(repositories[i].name.as_str(), name) {
            return Some(i);
        }
        i = i + 1;
    }
    None
}

/// Work to put on the background queue: a refresh of the project, for one
/// version or, when none is named, for whatever is latest.
pub struct Refresh {
    pub version: Option<String>,
}

/// How a page request is answered: what to enqueue, and the file to serve,
/// if any (none means not found).
pub struct Answer {
    pub refresh: Option<Refresh>,
    pub file: Option<FileLookup>,
}

/// The answer as values: the refresh to enqueue (its optional version) and
/// the path and name of the file to serve.
pub struct AnswerView {
    pub refresh: Option<Option<Seq<char>>>,
    pub file: Option<(Seq<char>, Seq<char>)>,
}

impl View for Answer {
    type V = AnswerView;

    open spec fn view(&self) -> AnswerView {
        AnswerView {
            refresh: match self.refresh {
                Some(r) => Some(option_view(r.version)),
                None => None,
            },
            file: match self.file {
                Some(f) => Some((f.path@, f.name@)),
                None => None,
            },
        }
    }
}

/// The file of a cached version that a requested page resolves to.
pub open spec fn version_file(v: VersionView, file: Option<Seq<char>>) -> Option<
    (Seq<char>, Seq<char>),
> {
    match v {
        VersionView::NoBuild { .. } => None,
        VersionView::Build { path, .. } | VersionView::BuildSnapshot { path, .. } => Some(
            (join_path(path, requested_name(file)), requested_name(file)),
        ),
    }
}

/// The answer on a cache hit of `key`: the cached page is served, and a
/// refresh is enqueued as well when the entry is due.
pub open spec fn hit(
    key: Seq<char>,
    v: VersionView,
    file: Option<Seq<char>>,
    hours: u64,
    now: Timestamp,
) -> AnswerView {
    AnswerView {
        refresh: if is_stale(v.stamp(), hours, now) {
            Some(Some(key))
        } else {
            None
        },
        file: version_file(v, file),
    }
}

/// The answer to a page request, given the cached record (if any).
pub open spec fn answer(
    project: Option<ProjectView>,
    version: Seq<char>,
    file: Option<Seq<char>>,
    hours: u64,
    now: Timestamp,
) -> AnswerView {
    match project {
        None => AnswerView { refresh: Some(None), file: None },
        Some(p) => if version == "latest"@ {
            match p.latest {
                None => AnswerView { refresh: None, file: None },
                Some(l) => if p.versions.contains_key(l) {
                    hit(l, p.versions[l], file, hours, now)
                } else {
                    AnswerView { refresh: Some(Some(l)), file: None }
                },
            }
        } else if p.versions.contains_key(version) {
            hit(version, p.versions[version], file, hours, now)
        } else {
            AnswerView { refresh: Some(Some(version)), file: None }
        },
    }
}

/// A cache hit is never held back by its own staleness: the page served is
/// the same at every time and for every update interval; only the refresh
/// that is enqueued beside it can differ.
pub proof fn lemma_served_page_ignores_staleness(
    project: Option<ProjectView>,
    version: Seq<char>,
    file: Option<Seq<char>>,
    hours: u64,
    now: Timestamp,
    other_hours: u64,
    other_now: Timestamp,
)
    ensures
        answer(project, version, file, hours, now).file == answer(
            project,
            version,
            file,
            other_hours,
            other_now,
        ).file,
{
}

/// Answers a page request from the cache: a miss enqueues the work that fills
/// it, a hit serves the cached page and enqueues a refresh when it is due.
pub fn get_javadoc(
    project: Option<&Project>,
    request: &Request,
    repository: &Repository,
    now: Timestamp,
) -> (r: Answer)
    requires
        project matches Some(p) ==> p.wf(),
    ensures
        r@ == answer(
            match project {
                Some(p) => Some(p@),
                None => None,
            },
            request.version@,
            option_view(request.file),
            repository.cache.time_til_update,
            now,
        ),
{
    let project = match project {
        Some(p) => p,
        None => {
            return Answer { refresh: Some(Refresh { version: None }), file: None };
        },
    };
    let key = if text_eq(request.version.as_str(), "latest") {
        match &project.latest {
            Some(l) => l.clone(),
            None => {
                return Answer { refresh: None, file: None };
            },
        }
    } else {
        request.version.clone()
    };
    match project.get_version(key.as_str()) {
        None => Answer { refresh: Some(Refresh { version: Some(key) }), file: None },
        Some(version) => {
            let refresh = if version.should_be_sent_for_rebuilding(repository, now) {
                Some(Refresh { version: Some(key) })
            } else {
                None
            };
            let file = version.load_file(request.file.clone());
            Answer { refresh, file }
        },
    }
}

} // verus!
