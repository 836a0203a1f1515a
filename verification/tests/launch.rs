use backend_supervisor::launch::{decimal_text, tree_kill_command, LaunchConfig};
use backend_supervisor::platform::Platform;
use backend_supervisor::policy::Policy;
use std::path::Path;

fn owned(items: &[&str]) -> Vec<String> {
    items.iter().map(|s| s.to_string()).collect()
}

#[test]
fn posix_platform_runs_a_shell_script_under_bash() {
    assert_eq!(Platform::Posix.startup_script(), "start-server.sh");
    assert_eq!(Platform::Posix.interpreter(), "bash");
    assert!(!Platform::Posix.needs_tree_kill());
}

#[test]
fn windows_platform_runs_a_batch_file_under_cmd() {
    assert_eq!(Platform::Windows.startup_script(), "start-server.bat");
    assert_eq!(Platform::Windows.interpreter(), "cmd");
    assert!(Platform::Windows.needs_tree_kill());
}

#[test]
fn posix_config_passes_the_script_to_bash() {
    let cfg = LaunchConfig::for_script(
        Platform::Posix,
        "/opt/app/php-server".to_string(),
        "/opt/app/php-server/start-server.sh".to_string(),
    );
    assert_eq!(cfg.platform, Platform::Posix);
    assert_eq!(cfg.executable, "bash");
    assert_eq!(cfg.args, owned(&["/opt/app/php-server/start-server.sh"]));
    assert_eq!(cfg.working_dir, "/opt/app/php-server");
    assert_eq!(cfg.script_path, "/opt/app/php-server/start-server.sh");
}

#[test]
fn windows_config_passes_the_script_to_cmd_after_slash_c() {
    let cfg = LaunchConfig::for_script(
        Platform::Windows,
        "C:\\app\\php-server".to_string(),
        "C:\\app\\php-server\\start-server.bat".to_string(),
    );
    assert_eq!(cfg.platform, Platform::Windows);
    assert_eq!(cfg.executable, "cmd");
    assert_eq!(cfg.args, owned(&["/C", "C:\\app\\php-server\\start-server.bat"]));
    assert_eq!(cfg.working_dir, "C:\\app\\php-server");
    assert_eq!(cfg.script_path, "C:\\app\\php-server\\start-server.bat");
}

#[test]
fn locate_adjoins_the_server_directory_and_the_script_name() {
    let root = "/opt/app";
    let dir = Path::new(root).join("resources").join("php-server");
    let script = dir.join("start-server.sh");
    let cfg = LaunchConfig::locate(Platform::Posix, root, &owned(&["resources", "php-server"]));
    assert_eq!(cfg.working_dir, dir.to_str().unwrap());
    assert_eq!(cfg.script_path, script.to_str().unwrap());
    assert_ne!(cfg.working_dir, root);
    assert_ne!(cfg.script_path, cfg.working_dir);
    assert_eq!(cfg.executable, "bash");
    assert_eq!(cfg.args, vec![cfg.script_path.clone()]);
}

#[test]
fn locate_with_the_reference_policy_finds_the_script_under_resources() {
    let policy = Policy::reference();
    let cfg = LaunchConfig::locate(Platform::Windows, "root", &policy.server_dir);
    let script = Path::new("root").join("resources").join("php-server").join("start-server.bat");
    assert_eq!(cfg.script_path, script.to_str().unwrap());
    assert_eq!(cfg.executable, "cmd");
    assert_eq!(cfg.args, vec!["/C".to_string(), cfg.script_path.clone()]);
}

#[test]
fn locate_without_server_directory_works_in_the_resource_root() {
    let cfg = LaunchConfig::locate(Platform::Posix, "/srv/backend", &Vec::new());
    assert_eq!(cfg.working_dir, "/srv/backend");
    let script = Path::new("/srv/backend").join("start-server.sh");
    assert_eq!(cfg.script_path, script.to_str().unwrap());
}

#[test]
fn decimal_text_writes_numbers_without_leading_zeros() {
    assert_eq!(decimal_text(0), "0");
    assert_eq!(decimal_text(7), "7");
    assert_eq!(decimal_text(10), "10");
    assert_eq!(decimal_text(1234), "1234");
    assert_eq!(decimal_text(90_817), "90817");
    assert_eq!(decimal_text(u32::MAX), "4294967295");
}

#[test]
fn decimal_text_agrees_with_the_standard_formatting() {
    let samples: [u32; 8] = [1, 9, 11, 99, 100, 65_535, 1_000_000, 4_000_000_000];
    for n in samples {
        assert_eq!(decimal_text(n), n.to_string());
    }
}

#[test]
fn tree_kill_command_names_the_process_and_forces_the_tree() {
    let cmd = tree_kill_command(4321);
    assert_eq!(cmd.program, "taskkill");
    assert_eq!(cmd.args, owned(&["/PID", "4321", "/F", "/T"]));
}
