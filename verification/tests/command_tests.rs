use ntfy_log::command::{
    join_args, plan_run, secondary_topic, CommandResult, PayloadPriority, RunPlan,
};

fn result_with_code(code: i32) -> CommandResult {
    CommandResult {
        command: "true".to_string(),
        stdout: String::new(),
        stderr: String::new(),
        exit_code: code,
    }
}

#[test]
fn success_is_exit_code_zero() {
    assert!(result_with_code(0).success());
    assert!(!result_with_code(1).success());
    assert!(!result_with_code(-1).success());
}

#[test]
fn failures_are_reported_with_high_priority() {
    assert_eq!(result_with_code(0).payload_priority(), PayloadPriority::Default);
    assert_eq!(result_with_code(1).payload_priority(), PayloadPriority::High);
    assert_eq!(result_with_code(-1).payload_priority(), PayloadPriority::High);
}

#[test]
fn piped_input_becomes_a_stdin_result() {
    let r = CommandResult::from_piped("line of output\n".to_string());
    assert_eq!(r.command, "<stdin>");
    assert_eq!(r.stdout, "line of output\n");
    assert_eq!(r.stderr, "");
    assert_eq!(r.exit_code, 0);
    assert!(r.success());
}

#[test]
fn join_args_spaces_the_arguments() {
    let args = vec!["echo".to_string(), "-n".to_string(), "hi".to_string()];
    assert_eq!(join_args(&args), "echo -n hi");
    assert_eq!(join_args(&vec!["solo".to_string()]), "solo");
    assert_eq!(join_args(&Vec::new()), "");
    assert_eq!(join_args(&vec![String::new(), String::new()]), " ");
}

#[test]
fn no_arguments_fall_back_to_stdin() {
    assert!(matches!(plan_run(&Vec::new()), RunPlan::UseStdin));
}

#[test]
fn empty_command_line_is_refused() {
    assert!(matches!(plan_run(&vec![String::new()]), RunPlan::Invalid));
}

#[test]
fn a_real_command_line_is_run_joined() {
    match plan_run(&vec!["ls".to_string(), "-la".to_string()]) {
        RunPlan::Run { command } => assert_eq!(command, "ls -la"),
        other => panic!("expected a run plan, got {:?}", other),
    }
}

#[test]
fn secondary_topic_reflects_the_outcome() {
    assert_eq!(secondary_topic("builds", true), "builds--success");
    assert_eq!(secondary_topic("builds", false), "builds--failure");
}
