use task_hook::branch::detached_branch_name;
use task_hook::branch::interpret_branch_query;
use task_hook::create_task_number_string;
use task_hook::text::str_eq;
use task_hook::text::str_has_prefix;
use task_hook::text::trim_ws;

#[test]
fn test_detached_head_scenario() {
    // The branch query answers with the bare sentinel, so resolution falls
    // back to the short commit hash.
    assert_eq!(interpret_branch_query("HEAD\n"), None);
    let detached_info = detached_branch_name("abc1234\n");
    assert!(
        detached_info.starts_with("HEAD-"),
        "Detached HEAD should start with 'HEAD-', got: {}",
        detached_info
    );
    assert_eq!(detached_info, "HEAD-abc1234");
    // No configured prefix matches the synthetic name, so extraction is empty.
    assert_eq!(create_task_number_string(&detached_info), "");
}

#[test]
fn branch_query_trims_and_keeps_ordinary_names() {
    assert_eq!(interpret_branch_query("main\n"), Some("main".to_string()));
    assert_eq!(
        interpret_branch_query("  task/123-x \n"),
        Some("task/123-x".to_string())
    );
    assert_eq!(interpret_branch_query("develop"), Some("develop".to_string()));
    // A name that merely contains the sentinel is an ordinary branch.
    assert_eq!(
        interpret_branch_query("HEADS\n"),
        Some("HEADS".to_string())
    );
    assert_eq!(interpret_branch_query("HEAD"), None);
    assert_eq!(interpret_branch_query(" HEAD \n"), None);
}

#[test]
fn trimming_strips_only_surrounding_whitespace() {
    assert_eq!(trim_ws("  main\n"), "main");
    assert_eq!(trim_ws("\r\ntask/1 x\t"), "task/1 x");
    assert_eq!(trim_ws(""), "");
    assert_eq!(trim_ws(" \t\r\n"), "");
    assert_eq!(trim_ws("main"), "main");
}

#[test]
fn string_helpers_compare_by_content() {
    assert!(str_eq("message", "message"));
    assert!(!str_eq("message", "merge"));
    assert!(!str_eq("message", "messages"));
    assert!(str_has_prefix("task/123", "task/"));
    assert!(!str_has_prefix("tas", "task/"));
    assert!(!str_has_prefix("feature/123", "feat/"));
}
