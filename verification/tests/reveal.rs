use reveal_bridge::errors::RevealError;
use reveal_bridge::plan::needs_dir_probe;
use reveal_bridge::plan::plan_reveal;
use reveal_bridge::plan::platform_from_os_name;
use reveal_bridge::plan::reveal_plan;
use reveal_bridge::plan::Platform;

#[test]
fn windows_selects_the_item_in_explorer() {
    let plan = reveal_plan(Platform::Windows, "C:\\a\\b.txt", false);
    assert_eq!(plan.program, "explorer");
    assert_eq!(plan.args, vec!["/select,".to_string(), "C:\\a\\b.txt".to_string()]);
    assert!(!plan.detach);
}

#[test]
fn macos_opens_a_directory_path_directly() {
    let plan = reveal_plan(Platform::MacOs, "/Users/x/docs/", false);
    assert_eq!(plan.program, "open");
    assert_eq!(plan.args, vec!["/Users/x/docs/".to_string()]);
    assert!(!plan.detach);
}

#[test]
fn macos_reveals_a_file_path_in_select_mode() {
    let plan = reveal_plan(Platform::MacOs, "/Users/x/docs/f.txt", false);
    assert_eq!(plan.program, "open");
    assert_eq!(plan.args, vec!["-R".to_string(), "/Users/x/docs/f.txt".to_string()]);
    assert!(!plan.detach);
}

#[test]
fn linux_without_comma_asks_the_bus_detached() {
    let plan = reveal_plan(Platform::Linux, "/home/x/f.txt", false);
    assert_eq!(plan.program, "dbus-send");
    assert_eq!(
        plan.args,
        vec![
            "--session".to_string(),
            "--dest=org.freedesktop.FileManager1".to_string(),
            "--type=method_call".to_string(),
            "/org/freedesktop/FileManager1".to_string(),
            "org.freedesktop.FileManager1.ShowItems".to_string(),
            "array:string:\"file:///home/x/f.txt\"".to_string(),
            "string:\"\"".to_string(),
        ]
    );
    assert!(plan.detach);
}

#[test]
fn linux_comma_directory_opens_as_is() {
    let plan = reveal_plan(Platform::Linux, "/home/x/a,b", true);
    assert_eq!(plan.program, "xdg-open");
    assert_eq!(plan.args, vec!["/home/x/a,b".to_string()]);
    assert!(!plan.detach);
}

#[test]
fn linux_comma_file_opens_its_directory() {
    let plan = reveal_plan(Platform::Linux, "/home/x/a,b/f.txt", false);
    assert_eq!(plan.program, "xdg-open");
    assert_eq!(plan.args, vec!["/home/x/a,b".to_string()]);
    assert!(!plan.detach);
}

#[test]
fn revealing_twice_builds_the_same_plan() {
    let first = reveal_plan(Platform::Linux, "/home/x/f.txt", false);
    let second = reveal_plan(Platform::Linux, "/home/x/f.txt", false);
    assert_eq!(first.program, second.program);
    assert_eq!(first.args, second.args);
    assert_eq!(first.detach, second.detach);
}

#[test]
fn platform_names_map_to_their_families() {
    assert_eq!(platform_from_os_name("windows"), Some(Platform::Windows));
    assert_eq!(platform_from_os_name("macos"), Some(Platform::MacOs));
    assert_eq!(platform_from_os_name("linux"), Some(Platform::Linux));
    assert_eq!(platform_from_os_name("freebsd"), None);
    assert_eq!(platform_from_os_name(""), None);
}

#[test]
fn only_the_linux_comma_branch_probes_the_path() {
    assert!(needs_dir_probe(Platform::Linux, "/home/x/a,b"));
    assert!(!needs_dir_probe(Platform::Linux, "/home/x/f.txt"));
    assert!(!needs_dir_probe(Platform::Windows, "a,b"));
    assert!(!needs_dir_probe(Platform::MacOs, "a,b"));
}

#[test]
fn planning_on_an_unknown_host_reports_the_failure() {
    match plan_reveal("freebsd", "/home/x/f.txt", false) {
        Err(e) => assert_eq!(e, RevealError::UnsupportedPlatform),
        Ok(_) => panic!("an unknown host must be refused"),
    }
}

#[test]
fn planning_on_a_known_host_succeeds() {
    match plan_reveal("windows", "C:\\a\\b.txt", false) {
        Ok(plan) => {
            assert_eq!(plan.program, "explorer");
            assert_eq!(plan.args, vec!["/select,".to_string(), "C:\\a\\b.txt".to_string()]);
        }
        Err(_) => panic!("a supported host must be planned"),
    }
}

#[test]
fn each_failure_has_its_message() {
    assert_eq!(RevealError::UnsupportedPlatform.message(), "unsupported platform");
    assert_eq!(RevealError::PathInspectionFailed.message(), "path not found");
    assert_eq!(RevealError::SpawnFailed.message(), "file manager unavailable");
}
