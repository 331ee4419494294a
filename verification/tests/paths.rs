use simulang_log_viewer::paths::{viewer_binary, viewer_exe_name};
use simulang_log_viewer::platform::TargetOs;

#[test]
fn exe_name_per_platform() {
    assert_eq!(viewer_exe_name(TargetOs::Windows), "simulang-log-viewer.exe");
    assert_eq!(viewer_exe_name(TargetOs::MacOs), "simulang-log-viewer");
    assert_eq!(viewer_exe_name(TargetOs::Other), "simulang-log-viewer");
}

#[test]
fn binary_sits_next_to_the_library() {
    let lib = String::from("/opt/pkg/simulang-log-viewer.linux-x64-gnu.node");
    assert_eq!(
        viewer_binary(Some(lib), TargetOs::Other),
        Some(String::from("/opt/pkg/simulang-log-viewer"))
    );
}

#[test]
fn binary_for_a_relative_library_path() {
    let lib = String::from("pkg/lib.node");
    assert_eq!(
        viewer_binary(Some(lib), TargetOs::MacOs),
        Some(String::from("pkg/simulang-log-viewer"))
    );
}

#[test]
fn binary_for_a_bare_file_name_is_in_the_current_directory() {
    let lib = String::from("lib.node");
    assert_eq!(
        viewer_binary(Some(lib), TargetOs::Other),
        Some(String::from("simulang-log-viewer"))
    );
}

#[test]
fn no_binary_when_the_library_is_unknown() {
    assert_eq!(viewer_binary(None, TargetOs::Other), None);
}

#[test]
fn no_binary_for_an_empty_or_root_library_path() {
    assert_eq!(viewer_binary(Some(String::new()), TargetOs::Other), None);
    assert_eq!(viewer_binary(Some(String::from("/")), TargetOs::Other), None);
}

#[test]
fn windows_name_is_joined_too() {
    let lib = String::from("/opt/pkg/lib.node");
    assert_eq!(
        viewer_binary(Some(lib), TargetOs::Windows),
        Some(String::from("/opt/pkg/simulang-log-viewer.exe"))
    );
}

#[test]
fn binary_next_to_a_library_path_ending_in_dot_dot() {
    let lib = String::from("a/..");
    assert_eq!(
        viewer_binary(Some(lib), TargetOs::Other),
        Some(String::from("a/simulang-log-viewer"))
    );
}

#[test]
fn binary_beside_a_library_under_doubled_slashes() {
    let lib = String::from("/opt//pkg/x.node");
    assert_eq!(
        viewer_binary(Some(lib), TargetOs::Other),
        Some(String::from("/opt//pkg/simulang-log-viewer"))
    );
}

#[test]
fn binary_beside_a_library_in_the_root_directory() {
    assert_eq!(
        viewer_binary(Some(String::from("/x.node")), TargetOs::Other),
        Some(String::from("/simulang-log-viewer"))
    );
}

#[test]
fn binary_beside_a_library_under_trailing_dot_and_slashes() {
    assert_eq!(
        viewer_binary(Some(String::from("a/./x.node")), TargetOs::Other),
        Some(String::from("a/simulang-log-viewer"))
    );
    assert_eq!(
        viewer_binary(Some(String::from("a//x.node")), TargetOs::Other),
        Some(String::from("a/simulang-log-viewer"))
    );
    assert_eq!(
        viewer_binary(Some(String::from("./x.node")), TargetOs::Other),
        Some(String::from("./simulang-log-viewer"))
    );
}
