use atar::cli::{parse_args, CliCommand, CliError};

fn argv(raw: &[&str]) -> Vec<String> {
    raw.iter().map(|s| s.to_string()).collect()
}

fn pairs(raw: &[(&str, &str)]) -> Vec<(String, String)> {
    raw.iter().map(|(k, v)| (k.to_string(), v.to_string())).collect()
}

#[test]
fn no_arguments_ask_for_help() {
    assert_eq!(parse_args(&argv(&["atar"])), Ok(CliCommand::Help));
}

#[test]
fn help_flags_ask_for_help() {
    assert_eq!(parse_args(&argv(&["atar", "-h"])), Ok(CliCommand::Help));
    assert_eq!(parse_args(&argv(&["atar", "--help"])), Ok(CliCommand::Help));
}

#[test]
fn version_flag_asks_for_the_version() {
    assert_eq!(parse_args(&argv(&["atar", "--version"])), Ok(CliCommand::Version));
}

#[test]
fn operation_help_flags() {
    assert_eq!(parse_args(&argv(&["atar", "deploy", "--help"])), Ok(CliCommand::DeployHelp));
    assert_eq!(parse_args(&argv(&["atar", "undeploy", "-h"])), Ok(CliCommand::UndeployHelp));
}

#[test]
fn deploy_with_path_and_variables() {
    let r = parse_args(&argv(&[
        "atar",
        "deploy",
        "--terraform-path",
        "/cfg/main.tf",
        "--region",
        "us-east-1",
    ]));
    assert_eq!(
        r,
        Ok(CliCommand::Deploy {
            path: "/cfg/main.tf".to_string(),
            vars: pairs(&[("region", "us-east-1")]),
            debug: false,
        })
    );
}

#[test]
fn short_path_flag_works() {
    let r = parse_args(&argv(&["atar", "undeploy", "-t", "/cfg/main.tf"]));
    assert_eq!(
        r,
        Ok(CliCommand::Undeploy {
            path: "/cfg/main.tf".to_string(),
            vars: pairs(&[]),
            debug: false,
        })
    );
}

#[test]
fn debug_toggle_is_read_anywhere_and_removed() {
    let r = parse_args(&argv(&["atar", "--debug", "deploy", "-t", "/cfg/main.tf"]));
    assert_eq!(
        r,
        Ok(CliCommand::Deploy {
            path: "/cfg/main.tf".to_string(),
            vars: pairs(&[]),
            debug: true,
        })
    );
    let r = parse_args(&argv(&["atar", "deploy", "-t", "/cfg/main.tf", "--debug"]));
    assert_eq!(
        r,
        Ok(CliCommand::Deploy {
            path: "/cfg/main.tf".to_string(),
            vars: pairs(&[]),
            debug: true,
        })
    );
}

#[test]
fn repeated_variable_keeps_the_last_value_in_place() {
    let r = parse_args(&argv(&[
        "atar", "deploy", "-t", "/x", "--k", "1", "--zone", "b", "--k", "2",
    ]));
    assert_eq!(
        r,
        Ok(CliCommand::Deploy {
            path: "/x".to_string(),
            vars: pairs(&[("k", "2"), ("zone", "b")]),
            debug: false,
        })
    );
}

#[test]
fn last_path_flag_wins() {
    let r = parse_args(&argv(&["atar", "deploy", "-t", "/a", "-t", "/b"]));
    assert_eq!(
        r,
        Ok(CliCommand::Deploy { path: "/b".to_string(), vars: pairs(&[]), debug: false })
    );
}

#[test]
fn missing_path_value_is_refused() {
    let r = parse_args(&argv(&["atar", "deploy", "--terraform-path"]));
    assert_eq!(r, Err(CliError::PathFlagNeedsValue));
}

#[test]
fn missing_variable_value_is_refused() {
    let r = parse_args(&argv(&["atar", "deploy", "-t", "/x", "--region"]));
    assert_eq!(r, Err(CliError::FlagNeedsValue("--region".to_string())));
}

#[test]
fn non_flag_argument_is_refused() {
    let r = parse_args(&argv(&["atar", "deploy", "oops"]));
    assert_eq!(r, Err(CliError::UnexpectedArgument("oops".to_string())));
}

#[test]
fn missing_path_flag_is_refused() {
    let r = parse_args(&argv(&["atar", "deploy", "--region", "us-east-1"]));
    assert_eq!(r, Err(CliError::PathRequired));
}

#[test]
fn unknown_operation_is_refused() {
    let r = parse_args(&argv(&["atar", "destroy"]));
    assert_eq!(r, Err(CliError::UnknownCommand("destroy".to_string())));
}

#[test]
fn variable_name_loses_its_leading_dashes() {
    let r = parse_args(&argv(&["atar", "deploy", "-t", "/x", "----region", "v"]));
    assert_eq!(
        r,
        Ok(CliCommand::Deploy {
            path: "/x".to_string(),
            vars: pairs(&[("region", "v")]),
            debug: false,
        })
    );
}
