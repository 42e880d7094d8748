use task_hook::dispatch::exit_code;
use task_hook::dispatch::is_executable_mode;
use task_hook::dispatch::local_hook_path;
use task_hook::dispatch::HookFailure;
use task_hook::dispatch::InvocationPlan;
use task_hook::plan_invocation;

#[test]
fn plan_follows_the_invocation_shape() {
    assert_eq!(
        plan_invocation(true, true, None),
        InvocationPlan::RewriteAndDelegate
    );
    assert_eq!(
        plan_invocation(true, true, Some("message")),
        InvocationPlan::RewriteAndDelegate
    );
    assert_eq!(
        plan_invocation(true, true, Some("merge")),
        InvocationPlan::LeaveUntouched
    );
    assert_eq!(
        plan_invocation(true, true, Some("squash")),
        InvocationPlan::LeaveUntouched
    );
    assert_eq!(
        plan_invocation(true, false, None),
        InvocationPlan::ReportMissingFile
    );
    // Branch-resolution failure wins over the missing file argument.
    assert_eq!(
        plan_invocation(false, false, None),
        InvocationPlan::ReportBranchFailure
    );
    assert_eq!(
        plan_invocation(false, true, Some("message")),
        InvocationPlan::ReportBranchFailure
    );
}

#[test]
fn each_failure_class_has_its_exit_code() {
    assert_eq!(exit_code(&HookFailure::BranchResolution), 1);
    assert_eq!(exit_code(&HookFailure::MissingArgument), 2);
    assert_eq!(exit_code(&HookFailure::MessageRewriteIo), 2);
    assert_eq!(exit_code(&HookFailure::Delegation), 3);
}

#[test]
fn local_hook_path_is_under_the_git_directory() {
    assert_eq!(
        local_hook_path(".git\n"),
        ".git/hooks/prepare-commit-msg"
    );
    assert_eq!(
        local_hook_path("/repo/.git"),
        "/repo/.git/hooks/prepare-commit-msg"
    );
}

#[test]
fn any_execute_bit_marks_a_hook_runnable() {
    assert!(is_executable_mode(0o755));
    assert!(is_executable_mode(0o100));
    assert!(is_executable_mode(0o010));
    assert!(is_executable_mode(0o001));
    assert!(!is_executable_mode(0o644));
    assert!(!is_executable_mode(0o000));
}
