use application_boot::configuration::Configuration;

fn strings(v: &[&str]) -> Vec<String> {
    v.iter().map(|s| s.to_string()).collect()
}

#[test]
fn profile_candidates_in_order() {
    let c = Configuration::get_native_config_candidates(
        &strings(&["default", "prod"]),
        &Some(strings(&["./cfg"])),
        &Some(strings(&["app.toml"])),
    );
    assert_eq!(c, strings(&["./cfg/app.toml", "./cfg/app-prod.toml"]));
}

#[test]
fn only_existing_files_are_kept() {
    let c = strings(&["./cfg/app.toml", "./cfg/app-prod.toml"]);
    assert_eq!(
        Configuration::select_config_files(&c, &vec![false, true], true),
        strings(&["./cfg/app-prod.toml"])
    );
    assert_eq!(
        Configuration::select_config_files(&c, &vec![true, true], false),
        strings(&["./cfg/app.toml", "./cfg/app-prod.toml"])
    );
}

#[test]
fn fallback_file_when_none_exists() {
    let c = strings(&["./cfg/app.toml"]);
    assert_eq!(
        Configuration::select_config_files(&c, &vec![false], true),
        strings(&["./config.toml"])
    );
    assert!(Configuration::select_config_files(&c, &vec![false], false).is_empty());
}

#[test]
fn locations_then_file_names_then_profiles() {
    let c = Configuration::get_native_config_candidates(
        &strings(&["default", "dev"]),
        &Some(strings(&["a", "b"])),
        &Some(strings(&["x.toml", "y.yaml"])),
    );
    assert_eq!(
        c,
        strings(&[
            "a/x.toml", "a/x-dev.toml", "a/y.yaml", "a/y-dev.yaml", "b/x.toml", "b/x-dev.toml",
            "b/y.yaml", "b/y-dev.yaml",
        ])
    );
}

#[test]
fn no_locations_no_candidates() {
    let c = Configuration::get_native_config_candidates(
        &strings(&["default"]),
        &None,
        &Some(strings(&["app.toml"])),
    );
    assert!(c.is_empty());
}

#[test]
fn extension_starts_at_first_dot() {
    let f = Configuration::candidate_file(
        &"cfg".to_string(),
        &"app.local.toml".to_string(),
        &"prod".to_string(),
    );
    assert_eq!(f, "cfg/app-prod.local.toml");
    let g = Configuration::candidate_file(&"cfg".to_string(), &"app".to_string(), &"prod".to_string());
    assert_eq!(g, "cfg/app-prod");
}

#[test]
fn remote_keys_per_profile() {
    let k = Configuration::get_remote_config_keys(&strings(&["default", "prod"]), &"svc".to_string());
    assert_eq!(k, strings(&["svc", "prod/svc"]));
}

#[test]
fn files_on_disk_without_any_present() {
    let files = Configuration::get_native_config_files(
        &strings(&["default", "prod"]),
        &Some(strings(&["./no_such_directory_here"])),
        &Some(strings(&["app.toml"])),
    );
    let fallback = std::path::Path::new("./config.toml").exists();
    if fallback {
        assert_eq!(files, strings(&["./config.toml"]));
    } else {
        assert!(files.is_empty());
    }
}

