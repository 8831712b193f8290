use vstd::prelude::*;

use crate::project::{option_view, Timestamp};
use crate::text::text_eq;

verus! {

/// What the deploy metadata of a coordinate says, as values.
pub struct DeployView {
    pub artifact_id: Seq<char>,
    pub latest: Option<Seq<char>>,
    pub versions: Seq<Seq<char>>,
}

/// The upstream deploy metadata of a coordinate: its artifact id, the version
/// it reports as latest and every release version it knows.
pub struct DeployData {
    pub artifact_id: String,
    pub latest: Option<String>,
    pub versions: Vec<String>,
}

impl View for DeployData {
    type V = DeployView;

    open spec fn view(&self) -> DeployView {
        DeployView {
            artifact_id: self.artifact_id@,
            latest: option_view(self.latest),
            versions: self.versions@.map_values(|s: String| s@),
        }
    }
}

impl DeployData {
    /// Returns the version the upstream reports as latest.
    pub fn get_latest_version(&self) -> (r: Option<&String>)
        ensures
            option_view(self.latest) == match r {
                Some(s) => Some(s@),
                None => None::<Seq<char>>,
            },
    {
        match &self.latest {
            Some(l) => Some(l),
            None => None,
        }
    }

    /// Whether the upstream lists `version` among its versions.
    pub fn lists_version(&self, version: &str) -> (r: bool)
        ensures
            r == self@.versions.contains(version@),
    {
        let n = self.versions.len();
        let mut i: usize = 0;
        while i < n
            invariant
                n == self.versions@.len(),
                i <= n,
                forall|j: int| 0 <= j < i ==> self.versions@[j]@ != version@,
            decreases n - i,
        {
            if text_eq(self.versions[i].as_str(), version) {
                assert(self@.versions[i as int] == version@);
                return true;
            }
            i = i + 1;
        }
        assert forall|j: int| 0 <= j < self@.versions.len() implies self@.versions[j]
            != version@ by {
            assert(self@.versions[j] == self.versions@[j]@);
        }
        false
    }
}

/// One entry of a snapshot's metadata, as values.
pub struct SnapshotEntryView {
    pub classifier: Option<Seq<char>>,
    pub value: Seq<char>,
    pub updated: Option<Timestamp>,
}

/// One published file of a snapshot: its classifier, the resolved version
/// it is published under and when.
pub struct SnapshotVersion {
    pub classifier: Option<String>,
    pub value: String,
    pub updated: Option<Timestamp>,
}

impl View for SnapshotVersion {
    type V = SnapshotEntryView;

    open spec fn view(&self) -> SnapshotEntryView {
        SnapshotEntryView {
            classifier: option_view(self.classifier),
            value: self.value@,
            updated: self.updated,
        }
    }
}

/// What a snapshot's metadata says, as values.
pub struct SnapshotView {
    pub timestamp: Option<Timestamp>,
    pub versions: Seq<SnapshotEntryView>,
}

/// The upstream metadata of one snapshot version.
pub struct SnapshotData {
    /// When the snapshot was published.
    pub timestamp: Option<Timestamp>,
    pub versions: Vec<SnapshotVersion>,
}

impl View for SnapshotData {
    type V = SnapshotView;

    open spec fn view(&self) -> SnapshotView {
        SnapshotView {
            timestamp: self.timestamp,
            versions: self.versions@.map_values(|e: SnapshotVersion| e@),
        }
    }
}

/// `i` is the first entry whose classifier is `javadoc`.
pub open spec fn is_first_javadoc(entries: Seq<SnapshotEntryView>, i: int) -> bool {
    &&& 0 <= i < entries.len()
    &&& entries[i].classifier == Some("javadoc"@)
    &&& forall|j: int| 0 <= j < i ==> entries[j].classifier != Some("javadoc"@)
}

impl SnapshotData {
    /// The first entry with the classifier `javadoc`.
    pub fn find_javadoc(&self) -> (r: Option<usize>)
        ensures
            match r {
                Some(i) => is_first_javadoc(self@.versions, i as int),
                None => forall|j: int| !is_first_javadoc(self@.versions, j),
            },
    {
        let n = self.versions.len();
        let mut i: usize = 0;
        while i < n
            invariant
                n == self.versions@.len(),
                i <= n,
                forall|j: int| 0 <= j < i ==> self@.versions[j].classifier != Some("javadoc"@),
            decreases n - i,
        {
            let found = match &self.versions[i].classifier {
                Some(c) => text_eq(c.as_str(), "javadoc"),
                None => false,
            };
            assert(self@.versions[i as int] == self.versions@[i as int]@);
            if found {
                return Some(i);
            }
            i = i + 1;
        }
        proof {
            assert forall|j: int| !is_first_javadoc(self@.versions, j) by {
                if 0 <= j < n {
                    assert(self@.versions[j].classifier != Some("javadoc"@));
                }
            }
        }
        None
    }
}

} // verus!
