use dps_control::path::{
    development_paths, first_present, get_server_path, not_found_message, packaged_candidate,
    ExecutableLocation, PathStatus,
};

const NOT_FOUND_BELOW_OPT: &str = "找不到 server.exe。已查找: \"/opt/app/resources/bin/server.exe\" 和 [\"src-tauri/bin/server/server.exe\", \"bin/server/server.exe\", \"../bin/server/server.exe\"]";

fn resources() -> Result<String, String> {
    Ok("/opt/app/resources".to_string())
}

fn there() -> PathStatus {
    PathStatus::Present { absolute: None }
}

fn there_at(absolute: &str) -> PathStatus {
    PathStatus::Present { absolute: Some(absolute.to_string()) }
}

#[test]
fn development_candidates_by_rank() {
    assert_eq!(
        development_paths(),
        [
            "src-tauri/bin/server/server.exe".to_string(),
            "bin/server/server.exe".to_string(),
            "../bin/server/server.exe".to_string(),
        ]
    );
}

#[test]
fn packaged_candidate_lies_below_the_resource_directory() {
    assert_eq!(packaged_candidate("/opt/app/resources"), "/opt/app/resources/bin/server.exe");
    assert_eq!(packaged_candidate("/opt/app/resources/"), "/opt/app/resources/bin/server.exe");
    assert_eq!(packaged_candidate("resources"), "resources/bin/server.exe");
    assert_eq!(packaged_candidate(""), "bin/server.exe");
}

#[test]
fn only_second_development_candidate_present() {
    let seen = [PathStatus::Missing, there_at("/work/app/bin/server/server.exe"), PathStatus::Missing];
    assert_eq!(
        get_server_path(resources(), &PathStatus::Missing, &seen),
        Ok("/work/app/bin/server/server.exe".to_string())
    );
}

#[test]
fn candidate_without_absolute_path_is_reported_as_it_stands() {
    let seen = [PathStatus::Missing, there(), PathStatus::Missing];
    assert_eq!(get_server_path(resources(), &PathStatus::Missing, &seen), Ok("bin/server/server.exe".to_string()));
    let seen = [PathStatus::Missing, PathStatus::Missing, there()];
    assert_eq!(
        get_server_path(resources(), &PathStatus::Missing, &seen),
        Ok("../bin/server/server.exe".to_string())
    );
    let seen = [there(), PathStatus::Missing, PathStatus::Missing];
    assert_eq!(
        get_server_path(resources(), &PathStatus::Missing, &seen),
        Ok("src-tauri/bin/server/server.exe".to_string())
    );
}

#[test]
fn nothing_present_names_every_candidate() {
    let seen = [PathStatus::Missing, PathStatus::Missing, PathStatus::Missing];
    let failure = get_server_path(resources(), &PathStatus::Missing, &seen).unwrap_err();
    assert!(failure.contains("src-tauri/bin/server/server.exe"));
    assert!(failure.contains("\"bin/server/server.exe\""));
    assert!(failure.contains("../bin/server/server.exe"));
    assert!(failure.contains("/opt/app/resources/bin/server.exe"));
    assert_eq!(failure, NOT_FOUND_BELOW_OPT);
}

#[test]
fn failure_prints_paths_escaped() {
    let seen = [PathStatus::Missing, PathStatus::Missing, PathStatus::Missing];
    let failure = get_server_path(Ok("/opt/my \"app\"".to_string()), &PathStatus::Missing, &seen).unwrap_err();
    assert!(failure.starts_with("找不到 server.exe。已查找: \"/opt/my \\\"app\\\"/bin/server.exe\" 和 ["));
}

#[test]
fn packaged_candidate_outranks_development_candidates() {
    let seen = [there_at("/a"), there_at("/b"), there_at("/c")];
    assert_eq!(
        get_server_path(resources(), &there_at("/opt/app/resources/bin/server.exe"), &seen),
        Ok("/opt/app/resources/bin/server.exe".to_string())
    );
    assert_eq!(
        get_server_path(resources(), &there(), &seen),
        Ok("/opt/app/resources/bin/server.exe".to_string())
    );
}

#[test]
fn packaged_candidate_is_reported_by_its_absolute_path() {
    let seen = [PathStatus::Missing, PathStatus::Missing, PathStatus::Missing];
    assert_eq!(
        get_server_path(
            Ok("relative/resources".to_string()),
            &there_at("/work/relative/resources/bin/server.exe"),
            &seen
        ),
        Ok("/work/relative/resources/bin/server.exe".to_string())
    );
    assert_eq!(
        get_server_path(Ok("/opt/link".to_string()), &there_at("/opt/app/bin/server.exe"), &seen),
        Ok("/opt/app/bin/server.exe".to_string())
    );
}

#[test]
fn packaged_candidate_without_absolute_path_is_reported_as_it_stands() {
    let seen = [PathStatus::Missing, there_at("/b"), PathStatus::Missing];
    assert_eq!(
        get_server_path(Ok("relative/resources".to_string()), &there(), &seen),
        Ok("relative/resources/bin/server.exe".to_string())
    );
}

#[test]
fn not_found_message_lists_the_candidates_as_given() {
    assert_eq!(
        not_found_message("\"/res/bin/server.exe\"", "\"a\"", "\"b\"", "\"c\""),
        "找不到 server.exe。已查找: \"/res/bin/server.exe\" 和 [\"a\", \"b\", \"c\"]"
    );
    assert_eq!(not_found_message("", "", "", ""), "找不到 server.exe。已查找:  和 [, , ]");
    assert_eq!(not_found_message("p", "1", "2", "3"), "找不到 server.exe。已查找: p 和 [1, 2, 3]");
}

#[test]
fn development_candidates_are_taken_by_rank() {
    let seen = [there_at("/a"), there_at("/b"), there_at("/c")];
    assert_eq!(get_server_path(resources(), &PathStatus::Missing, &seen), Ok("/a".to_string()));
    let seen = [PathStatus::Missing, there_at("/b"), there_at("/c")];
    assert_eq!(get_server_path(resources(), &PathStatus::Missing, &seen), Ok("/b".to_string()));
    let seen = [PathStatus::Missing, PathStatus::Missing, there_at("/c")];
    assert_eq!(get_server_path(resources(), &PathStatus::Missing, &seen), Ok("/c".to_string()));
    let seen = [there(), there_at("/b"), PathStatus::Missing];
    assert_eq!(
        get_server_path(resources(), &PathStatus::Missing, &seen),
        Ok("src-tauri/bin/server/server.exe".to_string())
    );
}

#[test]
fn failed_resource_lookup_fails_the_resolution() {
    let seen = [there(), there(), there()];
    assert_eq!(
        get_server_path(Err("unknown path".to_string()), &there_at("/x"), &seen),
        Err("获取资源目录失败: unknown path".to_string())
    );
    assert_eq!(
        get_server_path(Err(String::new()), &PathStatus::Missing, &seen),
        Err("获取资源目录失败: ".to_string())
    );
}

#[test]
fn first_present_is_the_lowest_rank_that_is_there() {
    assert_eq!(first_present(&[]), None);
    assert_eq!(first_present(&[PathStatus::Missing]), None);
    assert_eq!(first_present(&[there()]), Some(0));
    assert_eq!(first_present(&[PathStatus::Missing, there(), there_at("/x")]), Some(1));
    assert_eq!(
        first_present(&[PathStatus::Missing, PathStatus::Missing, PathStatus::Missing, there()]),
        Some(3)
    );
}

#[test]
fn location_holds_the_parent_directory() {
    assert_eq!(
        ExecutableLocation::new("/opt/app/resources/bin/server.exe".to_string()),
        Some(ExecutableLocation {
            path: "/opt/app/resources/bin/server.exe".to_string(),
            dir: "/opt/app/resources/bin".to_string(),
        })
    );
    assert_eq!(
        ExecutableLocation::new("../bin/server/server.exe".to_string()),
        Some(ExecutableLocation {
            path: "../bin/server/server.exe".to_string(),
            dir: "../bin/server".to_string(),
        })
    );
    assert_eq!(
        ExecutableLocation::new("server.exe".to_string()),
        Some(ExecutableLocation { path: "server.exe".to_string(), dir: String::new() })
    );
}

#[test]
fn path_without_parent_has_no_location() {
    assert_eq!(ExecutableLocation::new("/".to_string()), None);
    assert_eq!(ExecutableLocation::new(String::new()), None);
}
