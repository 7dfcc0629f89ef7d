use spx_supervisor::path::{join_path, logs_folder, sidecar_candidate, split_path, Platform, ResolvedPath};

#[test]
fn split_keeps_empty_root_piece() {
    let parts = split_path("/opt/spx", Platform::Linux);
    assert_eq!(parts, vec!["".to_string(), "opt".to_string(), "spx".to_string()]);
}

#[test]
fn split_backslash_only_on_windows() {
    assert_eq!(split_path("a\\b", Platform::Linux), vec!["a\\b".to_string()]);
    assert_eq!(split_path("C:\\a/b", Platform::Windows), vec!["C:".to_string(), "a".to_string(), "b".to_string()]);
}

#[test]
fn join_writes_platform_separator() {
    let parts = vec!["C:".to_string(), "SPX".to_string()];
    assert_eq!(join_path(&parts, Platform::Windows), "C:\\SPX");
    assert_eq!(join_path(&parts, Platform::Linux), "C:/SPX");
    assert_eq!(join_path(&Vec::new(), Platform::Linux), "");
}

#[test]
fn split_then_join_gives_text_back() {
    let text = "/home/user//spx/";
    assert_eq!(join_path(&split_path(text, Platform::Linux), Platform::Linux), text);
}

#[test]
fn candidate_beside_flat_install() {
    assert_eq!(sidecar_candidate("/opt/spx", Platform::Linux), "/opt/spx/spx-server");
    assert_eq!(sidecar_candidate("C:\\Program Files\\SPX", Platform::Windows), "C:\\Program Files\\SPX\\spx-server");
}

#[test]
fn candidate_escapes_macos_bundle() {
    assert_eq!(
        sidecar_candidate("/Applications/SPX.app/Contents/MacOS", Platform::MacOs),
        "/Applications/spx-server"
    );
}

#[test]
fn bundle_layout_ignored_off_macos() {
    assert_eq!(
        sidecar_candidate("/Applications/SPX.app/Contents/MacOS", Platform::Linux),
        "/Applications/SPX.app/Contents/MacOS/spx-server"
    );
}

#[test]
fn macos_outside_bundle_is_flat() {
    assert_eq!(sidecar_candidate("/Users/me/dev/target/debug", Platform::MacOs), "/Users/me/dev/target/debug/spx-server");
    assert_eq!(sidecar_candidate("/Contents/MacOS", Platform::MacOs), "/Contents/MacOS/spx-server");
}

#[test]
fn logs_folder_beside_install() {
    assert_eq!(logs_folder("/Applications/SPX.app/Contents/MacOS", Platform::MacOs), "/Applications/LOG");
    assert_eq!(logs_folder("/opt/spx", Platform::Linux), "/opt/spx/LOG");
}

#[test]
fn resolved_path_runs_in_parent() {
    let r = ResolvedPath::new("/home/u/bin/spx-server", Platform::Linux);
    assert_eq!(r.program, "/home/u/bin/spx-server");
    assert_eq!(r.work_dir, "/home/u/bin");
    let bare = ResolvedPath::new("spx-server", Platform::Linux);
    assert_eq!(bare.work_dir, "");
}
