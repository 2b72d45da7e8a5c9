use aigw_console::config::{config_path, masked_password_field, settings_for_log, ui_dir};

#[test]
fn config_path_defaults() {
    assert_eq!(config_path(&None), "conf/aigwc.toml");
    assert_eq!(config_path(&Some("x.toml".to_string())), "x.toml");
}

#[test]
fn ui_dir_prefers_command_line() {
    assert_eq!(ui_dir(&Some("a".to_string()), &Some("b".to_string())), "a");
    assert_eq!(ui_dir(&None, &Some("b".to_string())), "b");
    assert_eq!(ui_dir(&None, &None), "crates/aigw-console/ui/apps/aigwc/dist/");
}

#[test]
fn password_masked_by_byte_count() {
    assert_eq!(masked_password_field("\"secret"), "\"password\": \"******\"");
    assert_eq!(masked_password_field("\"é"), "\"password\": \"**\"");
    assert_eq!(masked_password_field("\""), "\"password\": \"\"");
}

#[test]
fn settings_log_hides_passwords() {
    let json = "{\n  \"user\": \"root\",\n  \"password\": \"abc\",\n  \"url\": \"mysql://h\"\n}";
    let shown = settings_for_log(json);
    assert!(!shown.contains("abc"));
    assert!(shown.contains("\"password\": \"***\""));
    assert!(shown.contains("\"user\": \"root\""));
    assert_eq!(shown, "{\n  \"user\": \"root\",\n  \"password\": \"***\",\n  \"url\": \"mysql://h\"\n}");
}

#[test]
fn settings_without_password_are_kept() {
    let json = "{\n  \"user\": \"root\",\n  \"url\": \"mysql://h\"\n}";
    assert_eq!(settings_for_log(json), json);
    assert_eq!(settings_for_log("{\"pass\": \"x\"}"), "{\"pass\": \"x\"}");
}
