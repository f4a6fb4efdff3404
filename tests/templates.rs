use typst_templatr::config::{config_path_in, get_config_path, Config, ConfigError, CONFIG_FILE_NAME};
use typst_templatr::library::{list_templates, plan_install, plan_uninstall};
use typst_templatr::model::{check_add, check_install, check_remove, AddError, InstallError, RemoveError};
use typst_templatr::names::{has_extension, normalize_name, EXTENSION};
use typst_templatr::paths::{contains_separator, final_segment, join_path};
use typst_templatr::project::{plan_add, plan_remove};

fn strings(v: &[&str]) -> Vec<String> {
    v.iter().map(|s| s.to_string()).collect()
}

#[test]
fn normalize_appends_missing_extension() {
    assert_eq!(normalize_name("foo"), "foo.typ");
    assert_eq!(normalize_name("foo.typ"), "foo.typ");
    assert_eq!(normalize_name(""), ".typ");
    assert_eq!(normalize_name("foo.ty"), "foo.ty.typ");
    assert_eq!(normalize_name("dir/a"), "dir/a.typ");
}

#[test]
fn normalize_is_idempotent() {
    for name in ["foo", "foo.typ", "a.b", "typ", ".typ", "x/y"] {
        let once = normalize_name(name);
        assert_eq!(normalize_name(&once), once);
    }
    assert_eq!(normalize_name("foo"), normalize_name("foo.typ"));
}

#[test]
fn extension_check() {
    assert_eq!(EXTENSION, ".typ");
    assert!(has_extension("a.typ"));
    assert!(has_extension(".typ"));
    assert!(!has_extension("a.txt"));
    assert!(!has_extension("typ"));
    assert!(!has_extension(""));
}

#[test]
fn path_helpers() {
    assert_eq!(join_path("/tmp/lib", "a.typ"), "/tmp/lib/a.typ");
    assert_eq!(join_path(".", "a.typ"), "./a.typ");
    assert_eq!(final_segment("/tmp/src/report.typ"), "report.typ");
    assert_eq!(final_segment("report.typ"), "report.typ");
    assert_eq!(final_segment("dir/"), "");
    assert!(contains_separator("a/b"));
    assert!(!contains_separator("ab"));
}

#[test]
fn install_plan_with_path() {
    let p = plan_install("/tmp/src/report.typ", "/tmp/lib", "/tmp/proj");
    assert_eq!(p.source, "/tmp/src/report.typ");
    assert_eq!(p.name, "report.typ");
    assert_eq!(p.destination, "/tmp/lib/report.typ");
}

#[test]
fn install_plan_bare_name_uses_working_directory() {
    let p = plan_install("report", "/tmp/lib", ".");
    assert_eq!(p.source, "./report.typ");
    assert_eq!(p.name, "report.typ");
    assert_eq!(p.destination, "/tmp/lib/report.typ");
}

#[test]
fn install_plan_relative_path_without_extension() {
    let p = plan_install("sub/a", "lib", ".");
    assert_eq!(p.source, "sub/a.typ");
    assert_eq!(p.name, "a.typ");
    assert_eq!(p.destination, "lib/a.typ");
}

#[test]
fn uninstall_plan() {
    let p = plan_uninstall("a", "/tmp/lib");
    assert_eq!(p.name, "a.typ");
    assert_eq!(p.path, "/tmp/lib/a.typ");
}

#[test]
fn list_after_install_on_empty_library() {
    let installed = plan_install("a.typ", "/tmp/lib", ".");
    let entries = vec![installed.name.clone()];
    assert_eq!(list_templates(&entries), strings(&["a.typ"]));
}

#[test]
fn list_skips_other_entries_and_keeps_order() {
    let entries = strings(&["b.typ", "notes.txt", "sub", "a.typ", "typ"]);
    assert_eq!(list_templates(&entries), strings(&["b.typ", "a.typ"]));
    assert!(list_templates(&Vec::new()).is_empty());
}

#[test]
fn add_checks() {
    assert_eq!(check_add(false, false), Err(AddError::TemplateNotFound));
    assert_eq!(check_add(false, true), Err(AddError::TemplateNotFound));
    assert_eq!(check_add(true, true), Err(AddError::AlreadyExists));
    assert_eq!(check_add(true, false), Ok(()));
}

#[test]
fn remove_and_install_checks() {
    assert_eq!(check_remove(false), Err(RemoveError::NotFound));
    assert_eq!(check_remove(true), Ok(()));
    assert_eq!(check_install(false), Err(InstallError::SourceMissing));
    assert_eq!(check_install(true), Ok(()));
}

#[test]
fn init_install_add_remove_scenario() {
    let config = Config::new("/tmp/lib".to_string());
    let install = plan_install("/tmp/src/report.typ", &config.templates_path, "/tmp/proj");
    assert_eq!(install.destination, "/tmp/lib/report.typ");
    let entries = vec![install.name.clone()];
    assert_eq!(list_templates(&entries), strings(&["report.typ"]));

    let add = plan_add("report", &config.templates_path, "/tmp/proj");
    assert_eq!(add.name, "report.typ");
    assert_eq!(add.link, "/tmp/proj/report.typ");
    assert_eq!(add.target, "/tmp/lib/report.typ");
    assert_eq!(check_add(true, false), Ok(()));

    let remove = plan_remove("report.typ", "/tmp/proj");
    assert_eq!(remove.path, "/tmp/proj/report.typ");
    assert_ne!(remove.path, add.target);
}

#[test]
fn config_location() {
    assert_eq!(CONFIG_FILE_NAME, ".typst-templatr.yaml");
    assert_eq!(config_path_in("/home/u"), "/home/u/.typst-templatr.yaml");
    match get_config_path() {
        Ok(p) => assert!(p.ends_with("/.typst-templatr.yaml")),
        Err(e) => assert_eq!(e, ConfigError::NoHomeDirectory),
    }
}
