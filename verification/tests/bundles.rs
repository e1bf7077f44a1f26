use basedirs::EnvSnapshot;
use basedirs::ProjectDirectories;

fn env_with(
    home: &str,
    cache: Option<&str>,
    config: Option<&str>,
    data: Option<&str>,
    runtime: Option<&str>,
) -> EnvSnapshot {
    EnvSnapshot {
        home: home.to_string(),
        xdg_cache_home: cache.map(|s| s.to_string()),
        xdg_config_home: config.map(|s| s.to_string()),
        xdg_data_home: data.map(|s| s.to_string()),
        xdg_bin_home: None,
        xdg_runtime_dir: runtime.map(|s| s.to_string()),
    }
}

#[test]
fn end_to_end_scenario_with_one_valid_and_one_invalid_override() {
    let env = env_with("/home/eve", Some("relcache"), Some("/custom/config"), None, None);
    let dirs = ProjectDirectories::from_project_name(&env, "My App");
    assert_eq!(dirs.project_name(), "my-app");
    assert_eq!(dirs.project_config_dir(), "/custom/config/my-app");
    assert_eq!(dirs.project_cache_dir(), "/home/eve/.cache/my-app");
}

#[test]
fn bundle_dirs_end_with_the_project_name() {
    let env = env_with(
        "/home/eve",
        Some("/c/cache"),
        None,
        Some("relative"),
        Some("/run/user/1001"),
    );
    let dirs = ProjectDirectories::from_project_name(&env, "Bar App");
    let tail = format!("/{}", dirs.project_name());
    assert!(dirs.project_cache_dir().ends_with(&tail));
    assert!(dirs.project_config_dir().ends_with(&tail));
    assert!(dirs.project_data_dir().ends_with(&tail));
    assert!(dirs.project_data_local_dir().ends_with(&tail));
    assert!(dirs.project_runtime_dir().unwrap().ends_with(&tail));
}

#[test]
fn data_local_equals_data_in_the_bundle() {
    let env = env_with("/home/eve", None, None, Some("/custom/data"), None);
    let dirs = ProjectDirectories::from_unprocessed_string(&env, "app");
    assert_eq!(dirs.project_data_dir(), "/custom/data/app");
    assert_eq!(dirs.project_data_dir(), dirs.project_data_local_dir());
}

#[test]
fn runtime_dir_is_absent_when_the_override_is_missing_or_relative() {
    let env = env_with("/home/eve", None, None, None, None);
    let dirs = ProjectDirectories::from_unprocessed_string(&env, "app");
    assert_eq!(dirs.project_runtime_dir(), None);

    let env2 = env_with("/home/eve", None, None, None, Some("rel/run"));
    let dirs2 = ProjectDirectories::from_unprocessed_string(&env2, "app");
    assert_eq!(dirs2.project_runtime_dir(), None);

    let env3 = env_with("/home/eve", None, None, None, Some("/run/user/1001"));
    let dirs3 = ProjectDirectories::from_unprocessed_string(&env3, "app");
    assert_eq!(dirs3.project_runtime_dir(), Some("/run/user/1001/app"));
}

#[test]
fn qualified_names_lose_their_qualifier() {
    let env = env_with("/home/eve", None, None, None, None);
    let dirs = ProjectDirectories::from_qualified_project_name(&env, "org.foo.BarApp");
    assert_eq!(dirs.project_name(), "barapp");
    assert_eq!(dirs.project_config_dir(), "/home/eve/.config/barapp");

    let plain = ProjectDirectories::from_qualified_project_name(&env, "BarApp");
    assert_eq!(plain.project_name(), "barapp");
}

#[test]
fn unprocessed_names_are_used_exactly_as_given() {
    let env = env_with("/home/eve", None, None, None, None);
    let dirs = ProjectDirectories::from_unprocessed_string(&env, "Mixed Case");
    assert_eq!(dirs.project_name(), "Mixed Case");
    assert_eq!(dirs.project_cache_dir(), "/home/eve/.cache/Mixed Case");
}

#[test]
fn empty_name_still_builds_a_bundle() {
    let env = env_with("/home/eve", None, None, None, None);
    let dirs = ProjectDirectories::from_project_name(&env, "   ");
    assert_eq!(dirs.project_name(), "");
    assert_eq!(dirs.project_cache_dir(), "/home/eve/.cache/");
}

#[test]
fn derivation_is_idempotent_without_environment_change() {
    let env = env_with("/home/eve", Some("/c"), None, None, Some("/r"));
    let a = ProjectDirectories::from_project_name(&env, "Bar App");
    let b = ProjectDirectories::from_project_name(&env, "Bar App");
    assert_eq!(a.project_name(), b.project_name());
    assert_eq!(a.project_cache_dir(), b.project_cache_dir());
    assert_eq!(a.project_config_dir(), b.project_config_dir());
    assert_eq!(a.project_data_dir(), b.project_data_dir());
    assert_eq!(a.project_data_local_dir(), b.project_data_local_dir());
    assert_eq!(a.project_runtime_dir(), b.project_runtime_dir());
}
