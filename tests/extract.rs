use std::io::{Cursor, Write};
use std::sync::Arc;

use my_javadoc::config::ConfigRepository;
use my_javadoc::multi::find_repository;
use my_javadoc::repository::{CacheRules, Repository};
use my_javadoc::zip::{plan_entry, EntryPlan};

fn archive() -> Vec<u8> {
    let mut writer = zip::ZipWriter::new(Cursor::new(Vec::new()));
    let options = zip::write::FileOptions::default();
    writer.start_file("../../evil", options).unwrap();
    writer.write_all(b"evil").unwrap();
    writer.add_directory("a/b/", options).unwrap();
    writer.start_file("a/b/c.html", options).unwrap();
    writer.write_all(b"<html></html>").unwrap();
    writer.finish().unwrap().into_inner()
}

#[test]
fn extraction_skips_escaping_entry_and_nests_normal_one() {
    let mut reader = zip::ZipArchive::new(Cursor::new(archive())).unwrap();
    let mut plans = Vec::new();
    for i in 0..reader.len() {
        let entry = reader.by_index(i).unwrap();
        let enclosed = entry.enclosed_name().map(|p| p.to_string_lossy().into_owned());
        plans.push(plan_entry("/dest", entry.name(), enclosed));
    }
    assert_eq!(plans.len(), 3);
    assert!(matches!(plans[0], EntryPlan::Skip));
    assert!(matches!(&plans[1], EntryPlan::CreateDir { path } if path == "/dest/a/b/"));
    assert!(matches!(&plans[2], EntryPlan::WriteFile { path } if path == "/dest/a/b/c.html"));
}

#[test]
fn entry_without_enclosed_name_is_skipped() {
    assert!(matches!(plan_entry("/dest", "/etc/passwd", None), EntryPlan::Skip));
    assert!(matches!(
        plan_entry("/dest/", "index.html", Some("index.html".to_string())),
        EntryPlan::WriteFile { path } if path == "/dest/index.html"
    ));
}

#[test]
fn repositories_are_found_by_name() {
    let make = |name: &str| {
        Arc::new(Repository::new(
            name.to_string(),
            ConfigRepository {
                address: "https://r".to_string(),
                allows_redeploy: false,
                cache: CacheRules::default(),
            },
            "/c",
        ))
    };
    let repositories = vec![make("central"), make("snapshots")];
    assert_eq!(find_repository(&repositories, "snapshots"), Some(1));
    assert_eq!(find_repository(&repositories, "central"), Some(0));
    assert_eq!(find_repository(&repositories, "other"), None);
}
