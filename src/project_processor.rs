use vstd::prelude::*;

use std::sync::Arc;

use crate::metadata::{is_first_javadoc, DeployData, DeployView, SnapshotData, SnapshotView};
use crate::project::{
    is_stale, option_view, Project, ProjectView, Timestamp, Version, VersionView,
};
use crate::repository::{coordinate_path, join, join_path, project_to_path, Repository};
use crate::text::{ends_with, text_eq};

verus! {

/// A request to refresh one project, on the background queue.
pub struct ProjectRequest {
    pub repository: Arc<Repository>,
    /// The project id
    pub project: String,
    /// The version to build; none means the latest.
    pub version: Option<String>,
}

/// Maps a project coordinate to its relative path.
pub fn project_to_path_buf(project: &str) -> (r: String)
    ensures
        r@ == coordinate_path(project@),
{
    project_to_path(project)
}

/// The address of a coordinate's deploy metadata.
pub open spec fn deploy_metadata_url(address: Seq<char>, project: Seq<char>) -> Seq<char> {
    address + "/"@ + coordinate_path(project) + "/maven-metadata.xml"@
}

/// The address of a snapshot version's metadata.
pub open spec fn snapshot_metadata_url(
    address: Seq<char>,
    project: Seq<char>,
    version: Seq<char>,
) -> Seq<char> {
    address + "/"@ + coordinate_path(project) + "/"@ + version + "/maven-metadata.xml"@
}

/// The address of a documentation archive: in the directory of `version`,
/// the file named after `file_version`.
pub open spec fn javadoc_url(
    address: Seq<char>,
    project: Seq<char>,
    version: Seq<char>,
    artifact_id: Seq<char>,
    file_version: Seq<char>,
) -> Seq<char> {
    address + "/"@ + coordinate_path(project) + "/"@ + version + "/"@ + artifact_id + "-"@
        + file_version + "-javadoc.jar"@
}

/// Whether a version string names a snapshot.
pub open spec fn is_snapshot(version: Seq<char>) -> bool {
    "-SNAPSHOT"@.len() <= version.len() && version.subrange(
        version.len() - "-SNAPSHOT"@.len(),
        version.len() as int,
    ) == "-SNAPSHOT"@
}

/// The deploy metadata address of `project`.
fn deploy_url(address: &str, project: &str) -> (r: String)
    ensures
        r@ == deploy_metadata_url(address@, project@),
{
    let mut out = address.to_owned();
    out.append("/");
    let rel = project_to_path(project);
    out.append(rel.as_str());
    out.append("/maven-metadata.xml");
    out
}

/// The metadata address of the snapshot `version`.
fn snapshot_url(address: &str, project: &str, version: &str) -> (r: String)
    ensures
        r@ == snapshot_metadata_url(address@, project@, version@),
{
    let mut out = address.to_owned();
    out.append("/");
    let rel = project_to_path(project);
    out.append(rel.as_str());
    out.append("/");
    out.append(version);
    out.append("/maven-metadata.xml");
    out
}

/// The documentation archive address of `version`, published as `file_version`.
fn archive_url(address: &str, project: &str, version: &str, artifact_id: &str, file_version: &str) -> (r:
    String)
    ensures
        r@ == javadoc_url(address@, project@, version@, artifact_id@, file_version@),
{
    let mut out = address.to_owned();
    out.append("/");
    let rel = project_to_path(project);
    out.append(rel.as_str());
    out.append("/");
    out.append(version);
    out.append("/");
    out.append(artifact_id);
    out.append("-");
    out.append(file_version);
    out.append("-javadoc.jar");
    out
}

/// Where a build pass stands.
pub enum PassStage {
    /// Waiting for the coordinate's deploy metadata.
    AwaitDeploy,
    /// Waiting for the metadata of the snapshot `version`.
    AwaitSnapshot { version: String, artifact_id: String },
    /// Waiting for the archive of `version`; `snapshot` holds the publication
    /// time to record when it is a snapshot.
    AwaitArtifact { version: String, snapshot: Option<Timestamp> },
    /// The pass is over.
    Done,
}

/// Where a build pass stands, as values.
pub enum StageView {
    AwaitDeploy,
    AwaitSnapshot { version: Seq<char>, artifact_id: Seq<char> },
    AwaitArtifact { version: Seq<char>, snapshot: Option<Timestamp> },
    Done,
}

impl View for PassStage {
    type V = StageView;

    open spec fn view(&self) -> StageView {
        match self {
            PassStage::AwaitDeploy => StageView::AwaitDeploy,
            PassStage::AwaitSnapshot { version, artifact_id } => StageView::AwaitSnapshot {
                version: version@,
                artifact_id: artifact_id@,
            },
            PassStage::AwaitArtifact { version, snapshot } => StageView::AwaitArtifact {
                version: version@,
                snapshot: *snapshot,
            },
            PassStage::Done => StageView::Done,
        }
    }
}

/// What the outside world reports back to a build pass.
pub enum PassEvent {
    /// The deploy metadata was fetched, stored and parsed.
    DeployMetadata(DeployData),
    /// The snapshot metadata was fetched, stored and parsed.
    SnapshotMetadata(SnapshotData),
    /// The archive download answered with a non-success status.
    ArtifactMissing,
    /// The archive was downloaded and extracted.
    ArtifactExtracted,
}

/// An event of a build pass, as values.
pub enum EventView {
    DeployMetadata(DeployView),
    SnapshotMetadata(SnapshotView),
    ArtifactMissing,
    ArtifactExtracted,
}

impl View for PassEvent {
    type V = EventView;

    open spec fn view(&self) -> EventView {
        match self {
            PassEvent::DeployMetadata(d) => EventView::DeployMetadata(d@),
            PassEvent::SnapshotMetadata(s) => EventView::SnapshotMetadata(s@),
            PassEvent::ArtifactMissing => EventView::ArtifactMissing,
            PassEvent::ArtifactExtracted => EventView::ArtifactExtracted,
        }
    }
}

/// What a build pass asks the outside world to do next.
pub enum PassAction {
    /// Fetch `url`, store the text at `store` and parse it as deploy metadata.
    FetchDeployMetadata { url: String, store: String },
    /// Fetch `url`, store the text at `store` and parse it as snapshot metadata.
    FetchSnapshotMetadata { url: String, store: String },
    /// Download `url` into the archive file `jar`, then extract it into the
    /// directory `extract_to`.
    DownloadArtifact { url: String, jar: String, extract_to: String },
    /// Save the project record; the pass is over.
    Save,
    /// The pass is over and the cache is left as it was.
    Finish,
}

/// An action of a build pass, as values.
pub enum ActionView {
    FetchDeployMetadata { url: Seq<char>, store: Seq<char> },
    FetchSnapshotMetadata { url: Seq<char>, store: Seq<char> },
    DownloadArtifact { url: Seq<char>, jar: Seq<char>, extract_to: Seq<char> },
    Save,
    Finish,
}

impl View for PassAction {
    type V = ActionView;

    open spec fn view(&self) -> ActionView {
        match self {
            PassAction::FetchDeployMetadata { url, store } => ActionView::FetchDeployMetadata {
                url: url@,
                store: store@,
            },
            PassAction::FetchSnapshotMetadata { url, store } => ActionView::FetchSnapshotMetadata {
                url: url@,
                store: store@,
            },
            PassAction::DownloadArtifact { url, jar, extract_to } => ActionView::DownloadArtifact {
                url: url@,
                jar: jar@,
                extract_to: extract_to@,
            },
            PassAction::Save => ActionView::Save,
            PassAction::Finish => ActionView::Finish,
        }
    }
}

/// A build pass, as values.
pub struct PassView {
    pub address: Seq<char>,
    pub root: Seq<char>,
    pub hours: u64,
    pub name: Seq<char>,
    pub requested: Option<Seq<char>>,
    pub project: ProjectView,
    pub now: Timestamp,
    pub stage: StageView,
}

/// One processing pass over one request: the project record being updated,
/// the time the pass started and where it stands.
pub struct ProjectPass {
    pub request: ProjectRequest,
    pub project: Project,
    pub now: Timestamp,
    pub stage: PassStage,
}

impl View for ProjectPass {
    type V = PassView;

    open spec fn view(&self) -> PassView {
        PassView {
            address: self.request.repository.address@,
            root: self.request.repository.path@,
            hours: self.request.repository.cache.time_til_update,
            name: self.request.project@,
            requested: option_view(self.request.version),
            project: self.project@,
            now: self.now,
            stage: self.stage@,
        }
    }
}

/// The project's cache directory.
pub open spec fn pass_dir(pass: PassView) -> Seq<char> {
    join_path(pass.root, coordinate_path(pass.name))
}

/// Whether an existing entry is due for a rebuild.
pub open spec fn recheck(v: VersionView, hours: u64, now: Timestamp) -> bool {
    is_stale(v.stamp(), hours, now)
}

/// The record after the rebuild decision, and the version to build, if any.
pub open spec fn decide(
    p: ProjectView,
    requested: Option<Seq<char>>,
    d: DeployView,
    hours: u64,
    now: Timestamp,
) -> (ProjectView, Option<Seq<char>>) {
    match requested {
        Some(r) => if !p.versions.contains_key(r) {
            (p, Some(r))
        } else {
            match p.versions[r] {
                VersionView::NoBuild { .. } => if d.versions.contains(r) {
                    (p, Some(r))
                } else {
                    (p, None)
                },
                v => if recheck(v, hours, now) {
                    (ProjectView { versions: p.versions.insert(r, v.with_stamp(now)), ..p }, Some(r))
                } else {
                    (p, None)
                },
            }
        },
        None => if p.latest != d.latest {
            (ProjectView { latest: d.latest, ..p }, d.latest)
        } else {
            match p.latest {
                None => (p, None),
                Some(l) => if !p.versions.contains_key(l) {
                    (p, Some(l))
                } else if recheck(p.versions[l], hours, now) {
                    (
                        ProjectView {
                            versions: p.versions.insert(l, p.versions[l].with_stamp(now)),
                            ..p
                        },
                        Some(l),
                    )
                } else {
                    (p, None)
                },
            }
        },
    }
}

/// The download of the archive of `version`, published as `file_version`.
pub open spec fn download_action(
    pass: PassView,
    version: Seq<char>,
    artifact_id: Seq<char>,
    file_version: Seq<char>,
) -> ActionView {
    ActionView::DownloadArtifact {
        url: javadoc_url(pass.address, pass.name, version, artifact_id, file_version),
        jar: join_path(pass_dir(pass), file_version + ".jar"@),
        extract_to: join_path(pass_dir(pass), version),
    }
}

/// The next stage and action once `target` is to be built.
pub open spec fn target_step(pass: PassView, target: Seq<char>, artifact_id: Seq<char>) -> (
    StageView,
    ActionView,
) {
    if is_snapshot(target) {
        (
            StageView::AwaitSnapshot { version: target, artifact_id },
            ActionView::FetchSnapshotMetadata {
                url: snapshot_metadata_url(pass.address, pass.name, target),
                store: join_path(join_path(pass_dir(pass), target), "maven-metadata.xml"@),
            },
        )
    } else {
        (
            StageView::AwaitArtifact { version: target, snapshot: None },
            download_action(pass, target, artifact_id, target),
        )
    }
}

/// The cached snapshot build of `version` was published at the time the
/// upstream reports now.
pub open spec fn snapshot_unchanged(p: ProjectView, version: Seq<char>, s: SnapshotView) -> bool {
    p.versions.contains_key(version) && match p.versions[version] {
        VersionView::BuildSnapshot { timestamp, .. } => s.timestamp == Some(timestamp),
        _ => false,
    }
}

/// A pass that is over, with the record as it stands.
pub open spec fn finished(pass: PassView) -> PassView {
    PassView { stage: StageView::Done, ..pass }
}

/// The transition of a build pass on one event.
pub open spec fn step(pass: PassView, event: EventView) -> (PassView, ActionView) {
    match (pass.stage, event) {
        (StageView::AwaitDeploy, EventView::DeployMetadata(d)) => {
            let (p, target) = decide(pass.project, pass.requested, d, pass.hours, pass.now);
            match target {
                None => (PassView { project: p, stage: StageView::Done, ..pass }, ActionView::Save),
                Some(t) => (
                    PassView { project: p, stage: target_step(pass, t, d.artifact_id).0, ..pass },
                    target_step(pass, t, d.artifact_id).1,
                ),
            }
        },
        (StageView::AwaitSnapshot { version, artifact_id }, EventView::SnapshotMetadata(s)) => {
            if snapshot_unchanged(pass.project, version, s) {
                (finished(pass), ActionView::Finish)
            } else if exists|i: int| is_first_javadoc(s.versions, i) {
                let e = s.versions[choose|i: int| is_first_javadoc(s.versions, i)];
                (
                    PassView {
                        stage: StageView::AwaitArtifact {
                            version,
                            snapshot: Some(
                                match e.updated {
                                    Some(t) => t,
                                    None => pass.now,
                                },
                            ),
                        },
                        ..pass
                    },
                    download_action(pass, version, artifact_id, e.value),
                )
            } else {
                (finished(pass), ActionView::Save)
            }
        },
        (StageView::AwaitArtifact { version, snapshot }, EventView::ArtifactExtracted) => {
            let path = join_path(pass_dir(pass), version);
            let built = match snapshot {
                None => VersionView::Build { path, sha1: None, built: pass.now },
                Some(t) => VersionView::BuildSnapshot { path, timestamp: t, built: pass.now },
            };
            (
                PassView {
                    project: ProjectView {
                        versions: pass.project.versions.insert(version, built),
                        ..pass.project
                    },
                    stage: StageView::Done,
                    ..pass
                },
                ActionView::Save,
            )
        },
        (StageView::AwaitArtifact { version, .. }, EventView::ArtifactMissing) => (
            PassView {
                project: ProjectView {
                    versions: pass.project.versions.insert(
                        version,
                        VersionView::NoBuild { checked: pass.now },
                    ),
                    ..pass.project
                },
                stage: StageView::Done,
                ..pass
            },
            ActionView::Save,
        ),
        _ => (finished(pass), ActionView::Finish),
    }
}

/// Whether two optional texts are both absent or hold the same characters.
fn same_option_text(a: &Option<String>, b: &Option<String>) -> (r: bool)
    ensures
        r == (option_view(*a) == option_view(*b)),
{
    match (a, b) {
        (Some(x), Some(y)) => text_eq(x.as_str(), y.as_str()),
        (None, None) => true,
        _ => false,
    }
}

/// A copy of an optional text.
fn clone_option_text(a: &Option<String>) -> (r: Option<String>)
    ensures
        option_view(r) == option_view(*a),
{
    match a {
        Some(x) => Some(x.clone()),
        None => None,
    }
}

/// Rechecks the entry at `i` of the project: when it is due, its clock is set
/// to `now` and the version is to be rebuilt.
fn recheck_entry(project: &mut Project, i: usize, repository: &Repository, now: Timestamp) -> (r:
    bool)
    requires
        old(project).wf(),
        i < old(project).versions@.len(),
    ensures
        final(project).wf(),
        r == recheck(old(project).versions@[i as int].1@, repository.cache.time_til_update, now),
        r ==> final(project)@ == (ProjectView {
            versions: old(project)@.versions.insert(
                old(project).versions@[i as int].0@,
                old(project).versions@[i as int].1@.with_stamp(now),
            ),
            ..old(project)@
        }),
        !r ==> *final(project) == *old(project),
{
    let due = project.versions[i].1.should_be_sent_for_rebuilding(repository, now);
    if due {
        let key = project.versions[i].0.clone();
        let mut version = project.versions[i].1.clone();
        version.update_checked(now);
        project.set_version(key, version);
    }
    due
}

/// Decides whether the pass builds a version, and which: the record may get
/// a new latest pointer, or a due entry its clock set to `now`.
fn decide_target(
    project: &mut Project,
    requested: &Option<String>,
    deploy: &DeployData,
    repository: &Repository,
    now: Timestamp,
) -> (r: Option<String>)
    requires
        old(project).wf(),
    ensures
        final(project).wf(),
        (final(project)@, option_view(r)) == decide(
            old(project)@,
            option_view(*requested),
            deploy@,
            repository.cache.time_til_update,
            now,
        ),
{
    match requested {
        Some(r) => match project.find_version(r.as_str()) {
            None => Some(r.clone()),
            Some(i) => {
                let no_build = match &project.versions[i].1 {
                    Version::NoBuild { .. } => true,
                    _ => false,
                };
                if no_build {
                    if deploy.lists_version(r.as_str()) {
                        Some(r.clone())
                    } else {
                        None
                    }
                } else if recheck_entry(project, i, repository, now) {
                    Some(r.clone())
                } else {
                    None
                }
            },
        },
        None => {
            if !same_option_text(&project.latest, &deploy.latest) {
                project.latest = clone_option_text(&deploy.latest);
                return clone_option_text(&deploy.latest);
            }
            let latest = match &project.latest {
                Some(l) => l.clone(),
                None => {
                    return None;
                },
            };
            match project.find_version(latest.as_str()) {
                None => Some(latest),
                Some(i) => if recheck_entry(project, i, repository, now) {
                    Some(latest)
                } else {
                    None
                },
            }
        },
    }
}

impl ProjectPass {
    /// Starts a pass over `request` with the cached record, if there was one,
    /// stamped as refreshed at `now`. The first action fetches the deploy
    /// metadata.
    pub fn start(request: ProjectRequest, loaded: Option<Project>, now: Timestamp) -> (r: (
        ProjectPass,
        PassAction,
    ))
        requires
            loaded matches Some(p) ==> p.wf(),
        ensures
            r.0.project.wf(),
            r.0.request == request,
            r.0.now == now,
            r.0@.stage == StageView::AwaitDeploy,
            r.0@.project == (match loaded {
                Some(p) => ProjectView { last_updated: Some(now), ..p@ },
                None => ProjectView {
                    name: request.project@,
                    versions: Map::empty(),
                    latest: None,
                    last_updated: Some(now),
                },
            }),
            r.1@ == (ActionView::FetchDeployMetadata {
                url: deploy_metadata_url(r.0@.address, r.0@.name),
                store: join_path(pass_dir(r.0@), "maven-metadata.xml"@),
            }),
    {
        let mut project = match loaded {
            Some(p) => p,
            None => Project::new(request.project.clone()),
        };
        project.last_updated = Some(now);
        let dir = request.repository.project_dir(request.project.as_str());
        let url = deploy_url(request.repository.address.as_str(), request.project.as_str());
        let store = join(dir.as_str(), "maven-metadata.xml");
        (
            ProjectPass { request, project, now, stage: PassStage::AwaitDeploy },
            PassAction::FetchDeployMetadata { url, store },
        )
    }
}

/// The download of the archive of `version`, published as `file_version`,
/// into the project directory `dir`.
fn download(
    address: &str,
    project: &str,
    dir: &str,
    version: &str,
    artifact_id: &str,
    file_version: &str,
) -> (r: PassAction)
    ensures
        r@ == (ActionView::DownloadArtifact {
            url: javadoc_url(address@, project@, version@, artifact_id@, file_version@),
            jar: join_path(dir@, file_version@ + ".jar"@),
            extract_to: join_path(dir@, version@),
        }),
{
    let url = archive_url(address, project, version, artifact_id, file_version);
    let mut jar_name = file_version.to_owned();
    jar_name.append(".jar");
    let jar = join(dir, jar_name.as_str());
    let extract_to = join(dir, version);
    PassAction::DownloadArtifact { url, jar, extract_to }
}

/// Takes one event of a build pass and returns the next action: the pass
/// moves as `step` says.
pub fn process_project(pass: &mut ProjectPass, event: PassEvent) -> (r: PassAction)
    requires
        old(pass).project.wf(),
    ensures
        final(pass).project.wf(),
        final(pass).request == old(pass).request,
        final(pass).now == old(pass).now,
        (final(pass)@, r@) == step(old(pass)@, event@),
{
    let mut stage = PassStage::Done;
    std::mem::swap(&mut pass.stage, &mut stage);
    let dir = pass.request.repository.project_dir(pass.request.project.as_str());
    let now = pass.now;
    match (stage, event) {
        (PassStage::AwaitDeploy, PassEvent::DeployMetadata(deploy)) => {
            let target = decide_target(
                &mut pass.project,
                &pass.request.version,
                &deploy,
                &pass.request.repository,
                now,
            );
            match target {
                None => PassAction::Save,
                Some(t) => {
                    let address = pass.request.repository.address.as_str();
                    let project = pass.request.project.as_str();
                    if ends_with(t.as_str(), "-SNAPSHOT") {
                        let url = snapshot_url(address, project, t.as_str());
                        let version_dir = join(dir.as_str(), t.as_str());
                        let store = join(version_dir.as_str(), "maven-metadata.xml");
                        pass.stage = PassStage::AwaitSnapshot {
                            version: t,
                            artifact_id: deploy.artifact_id,
                        };
                        PassAction::FetchSnapshotMetadata { url, store }
                    } else {
                        let action = download(
                            address,
                            project,
                            dir.as_str(),
                            t.as_str(),
                            deploy.artifact_id.as_str(),
                            t.as_str(),
                        );
                        pass.stage = PassStage::AwaitArtifact { version: t, snapshot: None };
                        action
                    }
                },
            }
        },
        (
            PassStage::AwaitSnapshot { version, artifact_id },
            PassEvent::SnapshotMetadata(snapshot),
        ) => {
            let unchanged = match pass.project.get_version(version.as_str()) {
                Some(Version::BuildSnapshot { timestamp, .. }) => match snapshot.timestamp {
                    Some(t) => t == *timestamp,
                    None => false,
                },
                _ => false,
            };
            if unchanged {
                return PassAction::Finish;
            }
            match snapshot.find_javadoc() {
                None => PassAction::Save,
                Some(i) => {
                    let entry = &snapshot.versions[i];
                    let published = match entry.updated {
                        Some(t) => t,
                        None => now,
                    };
                    let action = download(
                        pass.request.repository.address.as_str(),
                        pass.request.project.as_str(),
                        dir.as_str(),
                        version.as_str(),
                        artifact_id.as_str(),
                        entry.value.as_str(),
                    );
                    pass.stage = PassStage::AwaitArtifact { version, snapshot: Some(published) };
                    action
                },
            }
        },
        (PassStage::AwaitArtifact { version, snapshot }, PassEvent::ArtifactExtracted) => {
            let path = join(dir.as_str(), version.as_str());
            let built = match snapshot {
                None => Version::Build { path, sha1: None, built: now },
                Some(t) => Version::BuildSnapshot { path, timestamp: t, built: now },
            };
            pass.project.set_version(version, built);
            PassAction::Save
        },
        (PassStage::AwaitArtifact { version, .. }, PassEvent::ArtifactMissing) => {
            pass.project.set_version(version, Version::NoBuild { checked: now });
            PassAction::Save
        },
        _ => PassAction::Finish,
    }
}

} // verus!
