use atar::control::{Action, Controller, Event, Phase};
use atar::invoke::{Subcommand, ToolError};

fn pairs(raw: &[(&str, &str)]) -> Vec<(String, String)> {
    raw.iter().map(|(k, v)| (k.to_string(), v.to_string())).collect()
}

fn strs(raw: &[&str]) -> Vec<String> {
    raw.iter().map(|s| s.to_string()).collect()
}

fn expect_run(a: Action) -> (Subcommand, Vec<String>, bool, bool) {
    match a {
        Action::Run { sub, args, capture_stdout, quiet } => (sub, args, capture_stdout, quiet),
        other => panic!("expected a tool run, got {:?}", other),
    }
}

/// Drive a deploy up to the point where apply succeeded and the output
/// report is requested.
fn deployed_controller(vars: Vec<(String, String)>) -> Controller {
    let (mut c, probe) = Controller::new_deploy(vars, false);
    let (sub, args, capture, quiet) = expect_run(probe);
    assert_eq!(sub, Subcommand::Version);
    assert_eq!(args, strs(&["-version"]));
    assert!(!capture);
    assert!(quiet);

    let a = c.step(Event::Exited { code: Some(0) });
    assert_eq!(a, Action::Prepare);

    let a = c.step(Event::PrepareFinished { ok: true });
    let (sub, args, capture, quiet) = expect_run(a);
    assert_eq!(sub, Subcommand::Init);
    assert_eq!(args, strs(&["init"]));
    assert!(!capture);
    assert!(quiet);

    let a = c.step(Event::Exited { code: Some(0) });
    let (sub, _, _, _) = expect_run(a);
    assert_eq!(sub, Subcommand::Apply);

    let a = c.step(Event::Exited { code: Some(0) });
    let (sub, args, capture, _) = expect_run(a);
    assert_eq!(sub, Subcommand::Output);
    assert_eq!(args, strs(&["output", "-json"]));
    assert!(capture);
    assert_eq!(c.phase, Phase::Deployed);
    c
}

#[test]
fn deploy_runs_the_whole_sequence_then_destroys_once() {
    let (mut c, probe) = Controller::new_deploy(pairs(&[("region", "us-east-1")]), false);
    let (sub, args, _, quiet) = expect_run(probe);
    assert_eq!(sub, Subcommand::Version);
    assert_eq!(args, strs(&["-version"]));
    assert!(quiet);

    let a = c.step(Event::Exited { code: Some(0) });
    assert_eq!(a, Action::Prepare);

    let a = c.step(Event::PrepareFinished { ok: true });
    let (sub, args, _, _) = expect_run(a);
    assert_eq!(sub, Subcommand::Init);
    assert_eq!(args, strs(&["init"]));

    let a = c.step(Event::Exited { code: Some(0) });
    let (sub, args, capture, quiet) = expect_run(a);
    assert_eq!(sub, Subcommand::Apply);
    assert_eq!(args, strs(&["apply", "-auto-approve", "-var", "region=us-east-1"]));
    assert!(!capture);
    assert!(quiet);

    let a = c.step(Event::Exited { code: Some(0) });
    let (sub, args, capture, _) = expect_run(a);
    assert_eq!(sub, Subcommand::Output);
    assert_eq!(args, strs(&["output", "-json"]));
    assert!(capture);

    let report = br#"{"foo": {"value": "bar"}}"#.to_vec();
    let a = c.step(Event::ExitedWithOutput { code: Some(0), stdout: report });
    assert_eq!(a, Action::Wait);
    assert_eq!(c.outputs, Some(pairs(&[("foo", "bar")])));
    assert_eq!(c.error, None);

    // The termination signal arrives: exactly one destroy, with the vars.
    let destroy = c.trigger_teardown().expect("first trigger runs the destroy");
    let (sub, args, capture, quiet) = expect_run(destroy);
    assert_eq!(sub, Subcommand::Destroy);
    assert_eq!(args, strs(&["destroy", "-auto-approve", "-var", "region=us-east-1"]));
    assert!(!capture);
    assert!(quiet);

    let a = c.step(Event::Exited { code: Some(0) });
    assert_eq!(a, Action::Stop);
    assert_eq!(c.phase, Phase::TornDown);
    assert_eq!(c.teardown_error, None);
}

#[test]
fn teardown_fires_at_most_once() {
    let mut c = deployed_controller(pairs(&[]));
    let report = b"{}".to_vec();
    let a = c.step(Event::ExitedWithOutput { code: Some(0), stdout: report });
    assert_eq!(a, Action::Wait);

    // An explicit teardown and a signal race: only the first one acts.
    assert!(c.trigger_teardown().is_some());
    assert!(c.trigger_teardown().is_none());
    let a = c.step(Event::Exited { code: Some(0) });
    assert_eq!(a, Action::Stop);
    assert!(c.trigger_teardown().is_none());
}

#[test]
fn failed_apply_never_reaches_a_destroy() {
    let (mut c, _) = Controller::new_deploy(pairs(&[("region", "us-east-1")]), false);
    c.step(Event::Exited { code: Some(0) });
    c.step(Event::PrepareFinished { ok: true });
    c.step(Event::Exited { code: Some(0) });

    // apply fails
    let a = c.step(Event::Exited { code: Some(1) });
    assert_eq!(a, Action::Stop);
    assert_eq!(c.phase, Phase::Failed);
    assert_eq!(c.error, Some(ToolError::Execution(Subcommand::Apply, Some(1))));
    assert!(c.trigger_teardown().is_none());
}

#[test]
fn failed_init_stops_the_deploy_at_once() {
    let (mut c, _) = Controller::new_deploy(pairs(&[]), false);
    c.step(Event::Exited { code: Some(0) });
    c.step(Event::PrepareFinished { ok: true });

    // init fails: no apply, no output, no teardown scheduled
    let a = c.step(Event::Exited { code: Some(1) });
    assert_eq!(a, Action::Stop);
    assert_eq!(c.phase, Phase::Failed);
    assert_eq!(c.error, Some(ToolError::Execution(Subcommand::Init, Some(1))));
    assert_eq!(c.outputs, None);
    assert!(c.trigger_teardown().is_none());
}

#[test]
fn failed_probe_is_not_installed() {
    let (mut c, _) = Controller::new_deploy(pairs(&[]), false);
    let a = c.step(Event::LaunchFailed);
    assert_eq!(a, Action::Stop);
    assert_eq!(c.error, Some(ToolError::NotInstalled));

    let (mut c2, _) = Controller::new_deploy(pairs(&[]), false);
    let a = c2.step(Event::Exited { code: Some(1) });
    assert_eq!(a, Action::Stop);
    assert_eq!(c2.error, Some(ToolError::NotInstalled));
}

#[test]
fn failed_prepare_stops_the_deploy() {
    let (mut c, _) = Controller::new_deploy(pairs(&[]), false);
    c.step(Event::Exited { code: Some(0) });
    let a = c.step(Event::PrepareFinished { ok: false });
    assert_eq!(a, Action::Stop);
    assert_eq!(c.phase, Phase::Failed);
    assert_eq!(c.error, Some(ToolError::Workspace));
}

#[test]
fn launch_failure_of_a_subcommand_is_reported_as_such() {
    let (mut c, _) = Controller::new_deploy(pairs(&[]), false);
    c.step(Event::Exited { code: Some(0) });
    c.step(Event::PrepareFinished { ok: true });
    let a = c.step(Event::LaunchFailed);
    assert_eq!(a, Action::Stop);
    assert_eq!(c.error, Some(ToolError::Launch(Subcommand::Init)));
}

#[test]
fn undecodable_output_keeps_the_teardown_armed() {
    let mut c = deployed_controller(pairs(&[]));
    let a = c.step(Event::ExitedWithOutput { code: Some(0), stdout: b"not json".to_vec() });
    assert_eq!(a, Action::Stop);
    assert_eq!(c.error, Some(ToolError::OutputDecode));
    assert_eq!(c.phase, Phase::Deployed);

    // the deployment is live, so the teardown capability must still work
    assert!(c.trigger_teardown().is_some());
    assert!(c.trigger_teardown().is_none());
}

#[test]
fn failed_output_run_keeps_the_teardown_armed() {
    let mut c = deployed_controller(pairs(&[]));
    let a = c.step(Event::ExitedWithOutput { code: Some(1), stdout: Vec::new() });
    assert_eq!(a, Action::Stop);
    assert_eq!(c.error, Some(ToolError::Execution(Subcommand::Output, Some(1))));
    assert!(c.trigger_teardown().is_some());
}

#[test]
fn failed_guaranteed_destroy_is_reported_apart() {
    let mut c = deployed_controller(pairs(&[]));
    c.step(Event::ExitedWithOutput { code: Some(0), stdout: b"{}".to_vec() });
    assert!(c.trigger_teardown().is_some());
    let a = c.step(Event::Exited { code: Some(1) });
    assert_eq!(a, Action::Stop);
    assert_eq!(c.phase, Phase::TornDown);
    assert_eq!(c.error, None);
    assert_eq!(c.teardown_error, Some(ToolError::Execution(Subcommand::Destroy, Some(1))));
}

#[test]
fn standalone_undeploy_destroys_once() {
    let (mut c, probe) = Controller::new_undeploy(pairs(&[("region", "us-east-1")]), false);
    let (sub, _, _, _) = expect_run(probe);
    assert_eq!(sub, Subcommand::Version);

    let a = c.step(Event::Exited { code: Some(0) });
    assert_eq!(a, Action::Prepare);

    let a = c.step(Event::PrepareFinished { ok: true });
    let (sub, args, capture, quiet) = expect_run(a);
    assert_eq!(sub, Subcommand::Destroy);
    assert_eq!(args, strs(&["destroy", "-auto-approve", "-var", "region=us-east-1"]));
    assert!(!capture);
    assert!(quiet);

    let a = c.step(Event::Exited { code: Some(0) });
    assert_eq!(a, Action::Stop);
    assert_eq!(c.phase, Phase::TornDown);
    assert_eq!(c.error, None);
    assert_eq!(c.outputs, None);
}

#[test]
fn failed_standalone_destroy_is_an_error() {
    let (mut c, _) = Controller::new_undeploy(pairs(&[]), false);
    c.step(Event::Exited { code: Some(0) });
    c.step(Event::PrepareFinished { ok: true });
    let a = c.step(Event::Exited { code: None });
    assert_eq!(a, Action::Stop);
    assert_eq!(c.phase, Phase::Failed);
    assert_eq!(c.error, Some(ToolError::Execution(Subcommand::Destroy, None)));
}

#[test]
fn verbose_runs_are_not_quiet() {
    let (mut c, probe) = Controller::new_deploy(pairs(&[]), true);
    let (_, _, _, quiet) = expect_run(probe);
    assert!(quiet, "the version probe is always quiet");
    c.step(Event::Exited { code: Some(0) });
    let a = c.step(Event::PrepareFinished { ok: true });
    let (_, _, _, quiet) = expect_run(a);
    assert!(!quiet);
}
