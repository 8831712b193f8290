use my_javadoc::config::ConfigRepository;
use my_javadoc::project::{FileResponse, Project, Timestamp, Version, MILLIS_PER_HOUR};
use my_javadoc::repository::{CacheRules, Repository};

fn repository(hours: u64) -> Repository {
    let config = ConfigRepository {
        address: "https://repo.example.com".to_string(),
        allows_redeploy: false,
        cache: CacheRules { time_til_update: hours },
    };
    Repository::new("central".to_string(), config, "/cache")
}

fn at(millis: i64) -> Timestamp {
    Timestamp { millis }
}

#[test]
fn rebuild_is_due_exactly_at_the_interval() {
    let repo = repository(24);
    let built = at(1_000_000);
    let version = Version::Build { path: "/cache/x".to_string(), sha1: None, built };
    let day = 24 * MILLIS_PER_HOUR;
    assert!(!version.should_be_sent_for_rebuilding(&repo, at(1_000_000 + day - 1)));
    assert!(version.should_be_sent_for_rebuilding(&repo, at(1_000_000 + day)));
}

#[test]
fn rebuild_stays_due_as_time_goes_on() {
    let repo = repository(2);
    let version = Version::NoBuild { checked: at(0) };
    let first = 2 * MILLIS_PER_HOUR;
    assert!(version.should_be_sent_for_rebuilding(&repo, at(first)));
    for later in [first + 1, first + MILLIS_PER_HOUR, first * 1000] {
        assert!(version.should_be_sent_for_rebuilding(&repo, at(later)));
    }
}

#[test]
fn rebuild_is_not_due_for_a_stamp_in_the_future() {
    let repo = repository(1);
    let version = Version::BuildSnapshot {
        path: "/cache/x".to_string(),
        timestamp: at(5),
        built: at(10 * MILLIS_PER_HOUR),
    };
    assert!(!version.should_be_sent_for_rebuilding(&repo, at(0)));
}

#[test]
fn zero_interval_is_always_due() {
    let repo = repository(0);
    let version = Version::NoBuild { checked: at(7) };
    assert!(version.should_be_sent_for_rebuilding(&repo, at(7)));
}

#[test]
fn update_checked_keeps_the_variant() {
    let mut build = Version::Build { path: "/p".to_string(), sha1: Some("abc".to_string()), built: at(1) };
    build.update_checked(at(99));
    match build {
        Version::Build { path, sha1, built } => {
            assert_eq!(path, "/p");
            assert_eq!(sha1, Some("abc".to_string()));
            assert_eq!(built, at(99));
        }
        _ => panic!("variant changed"),
    }
    let mut snapshot = Version::BuildSnapshot { path: "/s".to_string(), timestamp: at(3), built: at(4) };
    snapshot.update_checked(at(50));
    match snapshot {
        Version::BuildSnapshot { path, timestamp, built } => {
            assert_eq!(path, "/s");
            assert_eq!(timestamp, at(3));
            assert_eq!(built, at(50));
        }
        _ => panic!("variant changed"),
    }
    let mut none = Version::NoBuild { checked: at(1) };
    none.update_checked(at(2));
    assert!(matches!(none, Version::NoBuild { checked } if checked == at(2)));
}

#[test]
fn load_file_defaults_to_index() {
    let version = Version::Build { path: "/cache/lib/1.0".to_string(), sha1: None, built: at(0) };
    let lookup = version.load_file(None).unwrap();
    assert_eq!(lookup.path, "/cache/lib/1.0/index.html");
    assert_eq!(lookup.name, "index.html");
    let lookup = version.load_file(Some(String::new())).unwrap();
    assert_eq!(lookup.path, "/cache/lib/1.0/index.html");
    let lookup = version.load_file(Some("com/example/Lib.html".to_string())).unwrap();
    assert_eq!(lookup.path, "/cache/lib/1.0/com/example/Lib.html");
    assert_eq!(lookup.name, "com/example/Lib.html");
}

#[test]
fn load_file_of_no_build_is_nothing() {
    let version = Version::NoBuild { checked: at(0) };
    assert!(version.load_file(Some("index.html".to_string())).is_none());
    assert!(version.load_file(None).is_none());
}

#[test]
fn file_response_is_typed_by_extension() {
    let html = FileResponse::new("index.html", b"<html></html>".to_vec());
    assert_eq!(html.content_type, "text/html");
    assert_eq!(html.file, b"<html></html>".to_vec());
    let css = FileResponse::new("style/main.css", vec![1, 2]);
    assert_eq!(css.content_type, "text/css");
    let unknown = FileResponse::new("README", vec![]);
    assert_eq!(unknown.content_type, "application/octet-stream");
}

#[test]
fn project_versions_are_kept_per_key() {
    let mut project = Project::new("com.example:lib".to_string());
    assert!(project.get_version("1.0").is_none());
    assert!(project.get_latest_version().is_none());
    project.set_version("1.0".to_string(), Version::NoBuild { checked: at(1) });
    project.set_version("2.0".to_string(), Version::NoBuild { checked: at(2) });
    project.set_version(
        "1.0".to_string(),
        Version::Build { path: "/p/1.0".to_string(), sha1: None, built: at(3) },
    );
    assert_eq!(project.versions.len(), 2);
    assert!(matches!(project.get_version("1.0"), Some(Version::Build { .. })));
    assert_eq!(project.find_version("2.0"), Some(1));
    project.latest = Some("2.0".to_string());
    assert!(matches!(project.get_latest_version(), Some(Version::NoBuild { checked }) if *checked == at(2)));
    project.latest = Some("3.0".to_string());
    assert!(project.get_latest_version().is_none());
}

#[test]
fn duplicate_version_keys_are_detected() {
    let mut project = Project::new("a:b".to_string());
    assert!(project.has_unique_versions());
    project.versions.push(("1.0".to_string(), Version::NoBuild { checked: at(0) }));
    project.versions.push(("2.0".to_string(), Version::NoBuild { checked: at(0) }));
    assert!(project.has_unique_versions());
    project.versions.push(("1.0".to_string(), Version::NoBuild { checked: at(1) }));
    assert!(!project.has_unique_versions());
}
