use my_javadoc::config::{Config, ConfigRepository};
use my_javadoc::project_processor::project_to_path_buf;
use my_javadoc::repository::{join, project_to_path, trim_trailing_slashes, CacheRules, Repository};

#[test]
fn coordinate_maps_dots_and_colons_to_slashes() {
    assert_eq!(project_to_path("com.example:lib"), "com/example/lib");
}

#[test]
fn coordinate_mapping_twice_equals_once() {
    let once = project_to_path("org.apache.commons:commons-lang3");
    assert_eq!(project_to_path(&once), once);
    assert_eq!(once, "org/apache/commons/commons-lang3");
}

#[test]
fn coordinate_mapping_keeps_other_characters() {
    assert_eq!(project_to_path("my-lib_2"), "my-lib_2");
    assert_eq!(project_to_path(""), "");
    assert_eq!(project_to_path("a..b"), "a//b");
}

#[test]
fn coordinate_path_buf_matches_path() {
    assert_eq!(project_to_path_buf("dev.kord:kord-core"), "dev/kord/kord-core");
}

#[test]
fn trailing_slashes_are_trimmed() {
    assert_eq!(trim_trailing_slashes("https://repo.example.com///"), "https://repo.example.com");
    assert_eq!(trim_trailing_slashes("https://repo.example.com"), "https://repo.example.com");
    assert_eq!(trim_trailing_slashes("///"), "");
}

#[test]
fn join_puts_one_slash_between_parts() {
    assert_eq!(join("cache", "central"), "cache/central");
    assert_eq!(join("cache/", "central"), "cache/central");
    assert_eq!(join("", "central"), "central");
}

#[test]
fn cache_rules_default_to_a_day() {
    assert_eq!(CacheRules::default().time_til_update, 24);
}

#[test]
fn repository_new_strips_address_and_places_cache() {
    let config = ConfigRepository {
        address: "https://repo.example.com/releases/".to_string(),
        allows_redeploy: true,
        cache: CacheRules { time_til_update: 6 },
    };
    let repository = Repository::new("central".to_string(), config, "/var/cache");
    assert_eq!(repository.name, "central");
    assert_eq!(repository.address, "https://repo.example.com/releases");
    assert_eq!(repository.path, "/var/cache/central");
    assert!(repository.allows_redeploy);
    assert_eq!(repository.cache.time_til_update, 6);
    assert_eq!(repository.project_dir("com.example:lib"), "/var/cache/central/com/example/lib");
    assert_eq!(
        repository.project_file("com.example:lib"),
        "/var/cache/central/com/example/lib/project.json"
    );
}

#[test]
fn single_repository_setup_needs_exactly_one() {
    let repo = |name: &str| {
        (
            name.to_string(),
            ConfigRepository {
                address: "https://r".to_string(),
                allows_redeploy: false,
                cache: CacheRules::default(),
            },
        )
    };
    let mut config = Config {
        bind_address: "127.0.0.1:9090".to_string(),
        cache: "cache".to_string(),
        single_repo: true,
        repositories: vec![repo("central")],
        log_location: None,
    };
    assert!(config.repositories_fit());
    config.repositories.push(repo("snapshots"));
    assert!(!config.repositories_fit());
    config.single_repo = false;
    assert!(config.repositories_fit());
}
