use atar::invoke::{build_tool_args, classify_exit, Subcommand, ToolError};

fn pairs(raw: &[(&str, &str)]) -> Vec<(String, String)> {
    raw.iter().map(|(k, v)| (k.to_string(), v.to_string())).collect()
}

fn strs(raw: &[&str]) -> Vec<String> {
    raw.iter().map(|s| s.to_string()).collect()
}

#[test]
fn version_probe_args() {
    assert_eq!(build_tool_args(Subcommand::Version, &pairs(&[])), strs(&["-version"]));
}

#[test]
fn init_takes_no_variables() {
    let vars = pairs(&[("region", "us-east-1")]);
    assert_eq!(build_tool_args(Subcommand::Init, &vars), strs(&["init"]));
}

#[test]
fn apply_is_auto_approved_with_variables() {
    let vars = pairs(&[("region", "us-east-1"), ("zone", "b")]);
    assert_eq!(
        build_tool_args(Subcommand::Apply, &vars),
        strs(&["apply", "-auto-approve", "-var", "region=us-east-1", "-var", "zone=b"])
    );
}

#[test]
fn destroy_is_auto_approved_with_variables() {
    let vars = pairs(&[("region", "us-east-1")]);
    assert_eq!(
        build_tool_args(Subcommand::Destroy, &vars),
        strs(&["destroy", "-auto-approve", "-var", "region=us-east-1"])
    );
}

#[test]
fn output_asks_for_json() {
    assert_eq!(build_tool_args(Subcommand::Output, &pairs(&[])), strs(&["output", "-json"]));
}

#[test]
fn empty_variable_set_adds_no_arguments() {
    assert_eq!(
        build_tool_args(Subcommand::Apply, &pairs(&[])),
        strs(&["apply", "-auto-approve"])
    );
}

#[test]
fn classify_zero_exit_as_success() {
    assert_eq!(classify_exit(Subcommand::Init, true, Some(0)), None);
}

#[test]
fn classify_nonzero_exit_as_execution_error() {
    assert_eq!(
        classify_exit(Subcommand::Apply, true, Some(1)),
        Some(ToolError::Execution(Subcommand::Apply, Some(1)))
    );
}

#[test]
fn classify_signal_death_as_execution_error() {
    assert_eq!(
        classify_exit(Subcommand::Destroy, true, None),
        Some(ToolError::Execution(Subcommand::Destroy, None))
    );
}

#[test]
fn classify_unlaunchable_binary_as_launch_error() {
    assert_eq!(
        classify_exit(Subcommand::Output, false, None),
        Some(ToolError::Launch(Subcommand::Output))
    );
}
