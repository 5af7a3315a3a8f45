use tuifeed::config::{
    config_file_path, file_written, get_config_file, init_config_file, join_path, ConfigBootstrap,
    DirStep, FileStep,
};

const TEMPLATE: &str = "[sources]\n# Write here the sources you want to get the feed from following the example below\n# New_York_Times = \"https://rss.nytimes.com/services/xml/rss/nyt/World.xml\"\n";

#[test]
fn join_inserts_separator_when_needed() {
    assert_eq!(join_path("/home/u/.config", "tuifeed/"), "/home/u/.config/tuifeed/");
    assert_eq!(join_path("/home/u/.config/", "tuifeed/"), "/home/u/.config/tuifeed/");
    assert_eq!(join_path("", "tuifeed/"), "tuifeed/");
}

#[test]
fn fresh_resolution_creates_missing_directory() {
    let mut b = ConfigBootstrap::new();
    let step = b.dir_checked("/tmp/confroot/tuifeed/", false);
    assert_eq!(step, DirStep::CreateDir("/tmp/confroot/tuifeed/".to_string()));
    let r = b.dir_created("/tmp/confroot/tuifeed/", Ok(()));
    assert_eq!(r, Ok(Some("/tmp/confroot/tuifeed/".to_string())));
}

#[test]
fn resolution_is_cached_and_probes_nothing_again() {
    let mut b = ConfigBootstrap::new();
    let step = b.dir_checked("/tmp/confroot/tuifeed/", true);
    assert_eq!(
        step,
        DirStep::Done(Ok(Some("/tmp/confroot/tuifeed/".to_string())))
    );
    let first = b.init_config_dir();
    let second = b.init_config_dir();
    let expected = DirStep::Done(Ok(Some("/tmp/confroot/tuifeed/".to_string())));
    assert_eq!(first, expected);
    assert_eq!(second, expected);
}

#[test]
fn existing_plain_file_still_reported_as_existing() {
    // The probe does not tell a plain file apart from a directory: an entry
    // of any kind at the candidate path resolves the directory as it
    // stands, and only later file operations under it fail.
    let mut b = ConfigBootstrap::new();
    let step = b.dir_checked("/tmp/blocked/tuifeed/", true);
    assert_eq!(
        step,
        DirStep::Done(Ok(Some("/tmp/blocked/tuifeed/".to_string())))
    );
}

#[test]
fn creation_failure_surfaces_the_error() {
    let mut b = ConfigBootstrap::new();
    let r = b.dir_created("/tmp/denied/tuifeed/", Err("permission denied".to_string()));
    assert_eq!(r, Err("permission denied".to_string()));
}

#[test]
fn platform_root_lookup_names_the_subdirectory() {
    let mut b = ConfigBootstrap::new();
    match b.init_config_dir() {
        DirStep::Done(r) => assert_eq!(r, Ok(None)),
        DirStep::CheckDir(p) => assert!(p.ends_with("/tuifeed/")),
        DirStep::CreateDir(_) => panic!("no creation may be asked before a probe"),
    }
}

#[test]
fn missing_config_file_gets_the_default_template() {
    let step = get_config_file("/tmp/confroot/tuifeed/", false);
    assert_eq!(
        step,
        FileStep::WriteDefault("/tmp/confroot/tuifeed/config.toml".to_string())
    );
    assert_eq!(init_config_file(), TEMPLATE);
    let r = file_written("/tmp/confroot/tuifeed/config.toml".to_string(), Ok(()));
    assert_eq!(r, Ok("/tmp/confroot/tuifeed/config.toml".to_string()));
}

#[test]
fn existing_config_file_is_returned_unchanged() {
    let dir = "/tmp/confroot/tuifeed/";
    assert_eq!(config_file_path(dir), format!("{}config.toml", dir));
    let step = get_config_file(dir, true);
    assert_eq!(step, FileStep::Ready(format!("{}config.toml", dir)));
}

#[test]
fn failed_template_write_surfaces_the_error() {
    let r = file_written(
        "/tmp/denied/tuifeed/config.toml".to_string(),
        Err("disk full".to_string()),
    );
    assert_eq!(r, Err("disk full".to_string()));
}
