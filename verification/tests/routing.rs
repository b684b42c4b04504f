use fcgi_front::handler::{
    candidate_script_filename, determine_script_filename_and_type, dispatch_action, DispatchAction,
};

#[test]
fn test_root_candidate_is_front_controller() {
    assert_eq!(candidate_script_filename("base", "/"), "base/index.php");
}

#[test]
fn test_plain_candidate_is_joined_path() {
    assert_eq!(candidate_script_filename("base", "/style.css"), "base/style.css");
}

#[test]
fn test_root_with_front_controller_present() {
    let d = determine_script_filename_and_type("base", "/", true);
    assert_eq!(d.script_filename, "base/index.php");
    assert_eq!(d.script_name, "/index.php");
    assert_eq!(d.is_static, false);
}

#[test]
fn test_root_falls_back_to_index_html() {
    // With no front controller on disk, the root names index.html whether or
    // not that file exists either.
    let d = determine_script_filename_and_type("base", "/", false);
    assert_eq!(d.script_filename, "base/index.html");
    assert_eq!(d.script_name, "/index.html");
    assert_eq!(d.is_static, false);
}

#[test]
fn test_unknown_path_routes_to_front_controller() {
    let d = determine_script_filename_and_type("base", "/anything", false);
    assert_eq!(d.script_filename, "base/index.php");
    assert_eq!(d.script_name, "/index.php");
    assert_eq!(d.is_static, false);
}

#[test]
fn test_existing_non_static_path_is_kept() {
    // A static-ineligible file that exists keeps its own path: it is handed
    // to the backend as the script to run.
    let d = determine_script_filename_and_type("base", "/notes.txt", true);
    assert_eq!(d.script_filename, "base/notes.txt");
    assert_eq!(d.script_name, "/notes.txt");
    assert_eq!(d.is_static, false);
}

#[test]
fn test_static_path_keeps_its_filename() {
    let d = determine_script_filename_and_type("base", "/style.css", true);
    assert_eq!(d.script_filename, "base/style.css");
    assert_eq!(d.script_name, "/style.css");
    assert_eq!(d.is_static, true);
}

#[test]
fn test_static_path_not_rewritten_when_missing() {
    // The front-controller rewrite applies only to static-ineligible paths.
    let d = determine_script_filename_and_type("base", "/missing.css", false);
    assert_eq!(d.script_filename, "base/missing.css");
    assert_eq!(d.script_name, "/missing.css");
    assert_eq!(d.is_static, true);
}

#[test]
fn test_dispatch_static_file_present() {
    assert_eq!(dispatch_action(true, true), DispatchAction::ServeStatic);
}

#[test]
fn test_dispatch_static_file_missing() {
    assert_eq!(dispatch_action(true, false), DispatchAction::RespondNotFound);
}

#[test]
fn test_dispatch_non_static_goes_to_gateway() {
    assert_eq!(dispatch_action(false, true), DispatchAction::ForwardToGateway);
    assert_eq!(dispatch_action(false, false), DispatchAction::ForwardToGateway);
}
