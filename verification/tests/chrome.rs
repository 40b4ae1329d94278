use loft::chrome::{
    build_chrome_args, build_chrome_command, extension_path, extension_path_under, is_flatpak,
    profile_path, profile_path_under, ChromeInfo, LaunchMethod,
};
use loft::service::whatsapp;

#[test]
fn test_build_chrome_args() {
    let service = whatsapp();
    let profile = "/home/user/.local/share/loft/profiles/whatsapp";

    let args = build_chrome_args(&service, profile);

    assert_eq!(args.len(), 8);
    assert_eq!(args[0], "--app=https://web.whatsapp.com/");
    assert!(args[1].contains("profiles/whatsapp"));
    assert_eq!(args[2], "--class=loft-whatsapp");
    assert_eq!(args[3], "--remote-debugging-pipe");
    assert_eq!(args[4], "--enable-unsafe-extension-debugging");
    assert_eq!(args[5], "--no-first-run");
    assert_eq!(args[6], "--no-default-browser-check");
    assert_eq!(args[7], "--ozone-platform=wayland");
}

#[test]
fn build_chrome_args_names_the_profile_exactly() {
    let args = build_chrome_args(&whatsapp(), "/data/loft/profiles/whatsapp");
    assert_eq!(args[1], "--user-data-dir=/data/loft/profiles/whatsapp");
}

#[test]
fn test_build_chrome_command_direct() {
    let chrome = ChromeInfo {
        path: "/usr/bin/google-chrome".to_string(),
        launch_method: LaunchMethod::Direct,
    };
    let args = vec!["--app=https://example.com".to_string()];
    let cmd = build_chrome_command(&chrome, &args, false);

    assert_eq!(cmd.program, "/usr/bin/google-chrome");
    assert_eq!(cmd.args, vec!["--app=https://example.com".to_string()]);
}

#[test]
fn build_chrome_command_appimage_runs_the_file() {
    let chrome = ChromeInfo {
        path: "/home/u/Applications/Chrome.AppImage".to_string(),
        launch_method: LaunchMethod::AppImage,
    };
    let args = vec!["--no-first-run".to_string()];
    let cmd = build_chrome_command(&chrome, &args, true);
    assert_eq!(cmd.program, "/home/u/Applications/Chrome.AppImage");
    assert_eq!(cmd.args, vec!["--no-first-run".to_string()]);
}

#[test]
fn build_chrome_command_flatpak_outside_sandbox() {
    let chrome = ChromeInfo {
        path: "com.google.Chrome".to_string(),
        launch_method: LaunchMethod::Flatpak,
    };
    let args = vec!["--no-first-run".to_string(), "--app=x".to_string()];
    let cmd = build_chrome_command(&chrome, &args, false);
    assert_eq!(cmd.program, "flatpak");
    assert_eq!(cmd.args, vec!["run", "com.google.Chrome", "--no-first-run", "--app=x"]);
}

#[test]
fn build_chrome_command_flatpak_inside_sandbox() {
    let chrome = ChromeInfo {
        path: "com.google.Chrome".to_string(),
        launch_method: LaunchMethod::Flatpak,
    };
    let args = vec!["--no-first-run".to_string()];
    let cmd = build_chrome_command(&chrome, &args, true);
    assert_eq!(cmd.program, "flatpak-spawn");
    assert_eq!(
        cmd.args,
        vec!["--host", "flatpak", "run", "com.google.Chrome", "--no-first-run"]
    );
}

#[test]
fn test_profile_path() {
    let path = profile_path("whatsapp");
    assert!(path.contains("loft/profiles/whatsapp"));
}

#[test]
fn test_extension_path() {
    let path = extension_path();
    assert!(path.contains("loft/extension"));
}

#[test]
fn profile_and_extension_paths_under_a_given_home() {
    assert_eq!(
        profile_path_under("/home/u/.local/share", "messenger"),
        "/home/u/.local/share/loft/profiles/messenger"
    );
    assert_eq!(extension_path_under("/home/u/.local/share/"), "/home/u/.local/share/loft/extension");
    assert_eq!(extension_path_under(""), "loft/extension");
}

#[test]
fn is_flatpak_looks_for_the_marker_file() {
    assert_eq!(is_flatpak(), std::path::Path::new("/.flatpak-info").exists());
}
