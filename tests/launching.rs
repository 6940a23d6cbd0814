use atlas::window::{shortcut_action, ShortcutAction};
use atlas::launch::{launch_kind, kind_of_lowered, LaunchKind, app_name_for, is_app_bundle};
use atlas::icon::{icon_data_url, mime_type_for, data_url};
use atlas::console::{greet, log_line, decimal};

#[test]
fn launch_kind_ignores_case() {
    assert_eq!(launch_kind(Some("Chrome App")), LaunchKind::ChromeApp);
    assert_eq!(launch_kind(Some("MAC APP")), LaunchKind::MacApp);
    assert_eq!(launch_kind(Some("win app")), LaunchKind::WinApp);
    assert_eq!(launch_kind(Some("Web")), LaunchKind::Web);
    assert_eq!(launch_kind(Some("something else")), LaunchKind::Web);
    assert_eq!(launch_kind(None), LaunchKind::Web);
}

#[test]
fn kind_of_lowered_is_exact() {
    assert_eq!(kind_of_lowered(&"chrome app".to_string()), LaunchKind::ChromeApp);
    assert_eq!(kind_of_lowered(&"Chrome App".to_string()), LaunchKind::Web);
}

#[test]
fn icon_mime_types() {
    assert_eq!(mime_type_for("/a/b/icon.png"), "image/png");
    assert_eq!(mime_type_for("favicon.ico"), "image/x-icon");
    assert_eq!(mime_type_for("App.icns"), "application/octet-stream");
    assert_eq!(mime_type_for("picture.jpeg"), "image/png");
}

#[test]
fn icon_data_urls() {
    assert_eq!(icon_data_url("x.png", &b"hi".to_vec()), "data:image/png;base64,aGk=");
    assert_eq!(icon_data_url("x.ico", &b"abc".to_vec()), "data:image/x-icon;base64,YWJj");
    assert_eq!(icon_data_url("x.icns", &vec![]), "data:application/octet-stream;base64,");
    assert_eq!(data_url("image/png", &"QQ==".to_string()), "data:image/png;base64,QQ==");
}

#[test]
fn greeting() {
    assert_eq!(greet("Ann"), "Hello, Ann! You've been greeted from Rust!");
}

#[test]
fn log_lines() {
    assert_eq!(log_line(1700000000, "info", "started"), "[1700000000] [info] started\n");
    assert_eq!(decimal(0), "0");
    assert_eq!(decimal(u64::MAX), "18446744073709551615");
}

#[test]
fn app_names_from_paths() {
    assert_eq!(app_name_for("/Applications/Safari.app"), "Safari");
    assert_eq!(app_name_for("C:/Tools/notepad.exe"), "notepad");
    assert_eq!(app_name_for(""), "Unknown");
    assert!(is_app_bundle("/Applications/Safari.app"));
    assert!(!is_app_bundle("/usr/bin/vim"));
}

#[test]
fn shortcut_actions() {
    assert_eq!(shortcut_action(false, true, true), ShortcutAction::Nothing);
    assert_eq!(shortcut_action(true, false, false), ShortcutAction::ShowAndSearch);
    assert_eq!(shortcut_action(true, true, false), ShortcutAction::Focus);
    assert_eq!(shortcut_action(true, true, true), ShortcutAction::ToggleSearch);
}
