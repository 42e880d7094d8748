use task_hook::create_task_number_string;

#[test]
fn test_create_task_number_string_comprehensive() {
    let test_cases = vec![
        // Task branches
        ("task/123-some-feature", "#123"),
        ("task/456", "#456"),
        ("task/0001-feature", "#0001"),
        // PBI branches
        ("pbi/456-user-story", "#456"),
        ("pbi/789", "#789"),
        // Bug branches
        ("bug/789-fix-issue", "#789"),
        ("bug/123-crash-fix", "#123"),
        // Feature branches
        ("feature/012-cool-feature", "#012"),
        ("feat/012-cool-feature", "#012"),
        // Non-matching branches
        ("feature/some-feature", ""),
        ("main", ""),
        ("develop", ""),
        // Invalid formats
        ("task/feature-name", ""),
        ("task/abc", ""),
        ("pbi/xyz", ""),
        ("bug/abc", ""),
        ("task/", ""),
        ("pbi/", ""),
        ("bug/", ""),
    ];

    for (branch_name, expected) in test_cases {
        let result = create_task_number_string(branch_name);
        assert_eq!(result, expected, "Failed for branch: {}", branch_name);
    }
}

#[test]
fn extraction_keeps_leading_zeros() {
    assert_eq!(create_task_number_string("task/0001-feature"), "#0001");
    assert_eq!(create_task_number_string("feature/000"), "#000");
}

#[test]
fn extraction_takes_maximal_digit_run() {
    assert_eq!(create_task_number_string("task/123456"), "#123456");
    assert_eq!(create_task_number_string("task/12a34"), "#12");
    assert_eq!(create_task_number_string("bug/7-7"), "#7");
}

#[test]
fn extraction_is_case_sensitive_and_anchored() {
    assert_eq!(create_task_number_string("Task/123"), "");
    assert_eq!(create_task_number_string("TASK/123"), "");
    assert_eq!(create_task_number_string("mytask/123"), "");
    assert_eq!(create_task_number_string("task/123"), "#123");
}

#[test]
fn extraction_needs_digit_right_after_slash() {
    assert_eq!(create_task_number_string("task/-123"), "");
    assert_eq!(create_task_number_string("task/ 123"), "");
    assert_eq!(create_task_number_string("feature/x123"), "");
}

#[test]
fn extraction_distinguishes_feature_and_feat() {
    assert_eq!(create_task_number_string("feature/42"), "#42");
    assert_eq!(create_task_number_string("feat/42"), "#42");
    assert_eq!(create_task_number_string("featur/42"), "");
    assert_eq!(create_task_number_string("features/42"), "");
}

#[test]
fn extraction_on_empty_and_slashless_names() {
    assert_eq!(create_task_number_string(""), "");
    assert_eq!(create_task_number_string("task123"), "");
    assert_eq!(create_task_number_string("HEAD-abc1234"), "");
}
