//! The deployment lifecycle controller: a state machine that sequences
//! the version probe, workspace preparation, init, apply, output reading
//! and destroy, and owns the single-fire teardown gate.
//!
//! The surrounding process performs each requested [`Action`] (a
//! subprocess run, a filesystem copy, a blocking wait) and reports what
//! happened as an [`Event`]; the controller decides everything else. All
//! teardown triggers — an explicit call, a termination signal, an
//! abnormal unwind — go through [`Controller::trigger_teardown`], whose
//! gate fires at most once.

use vstd::prelude::*;
use crate::invoke::{
    Subcommand,
    ToolError,
    tool_args,
    arg_views,
    build_tool_args,
    exit_ok,
};
use crate::outputs::{decode_outputs, output_doc_of, decoded_doc, pair_views};

verus! {

/// The operation a controller drives.
#[derive(Clone, Copy, PartialEq, Eq, Structural, Debug)]
pub enum Op {
    Deploy,
    Undeploy,
}

/// Where the flow stands. `Deployed` is reached exactly when apply has
/// succeeded; from that moment the teardown guarantee is armed. `Failed`
/// is the terminal state of every failure before apply succeeded.
#[derive(Clone, Copy, PartialEq, Eq, Structural, Debug)]
pub enum Phase {
    Probing,
    Preparing,
    Initing,
    Applying,
    Deployed,
    Destroying,
    TornDown,
    Failed,
}

/// What the surrounding process reports back after performing an action.
#[derive(Debug)]
pub enum Event {
    /// The tool binary could not be started.
    LaunchFailed,
    /// The subcommand finished with this exit code (`None` when the
    /// process was ended by a signal).
    Exited { code: Option<i32> },
    /// The output subcommand finished, with its captured stdout.
    ExitedWithOutput { code: Option<i32>, stdout: Vec<u8> },
    /// The workspace prepare finished.
    PrepareFinished { ok: bool },
}

/// The mathematical shape of an event.
pub enum EventModel {
    LaunchFailed,
    Exited { code: Option<i32> },
    ExitedWithOutput { code: Option<i32>, stdout: Seq<u8> },
    PrepareFinished { ok: bool },
}

impl View for Event {
    type V = EventModel;

    open spec fn view(&self) -> EventModel {
        match self {
            Event::LaunchFailed => EventModel::LaunchFailed,
            Event::Exited { code } => EventModel::Exited { code: *code },
            Event::ExitedWithOutput { code, stdout } => EventModel::ExitedWithOutput {
                code: *code,
                stdout: stdout@,
            },
            Event::PrepareFinished { ok } => EventModel::PrepareFinished { ok: *ok },
        }
    }
}

/// What the surrounding process is asked to do next.
#[derive(Debug, PartialEq)]
pub enum Action {
    /// Ensure the working directory: copy the source tree if the
    /// directory does not exist, reuse it otherwise.
    Prepare,
    /// Run the tool with these arguments in the working directory.
    /// `capture_stdout` asks for stdout to be captured and handed back;
    /// `quiet` asks for the streams that are not captured to be
    /// discarded rather than inherited.
    Run { sub: Subcommand, args: Vec<String>, capture_stdout: bool, quiet: bool },
    /// Block until a teardown trigger arrives.
    Wait,
    /// The flow is over; the controller's `error` field says how it went.
    Stop,
}

/// The shape of an action, without the built argument list.
#[derive(Clone, Copy, PartialEq, Eq, Structural, Debug)]
pub enum ActionKind {
    Prepare,
    Run(Subcommand),
    Wait,
    Stop,
}

pub open spec fn kind_of(a: Action) -> ActionKind {
    match a {
        Action::Prepare => ActionKind::Prepare,
        Action::Run { sub, .. } => ActionKind::Run(sub),
        Action::Wait => ActionKind::Wait,
        Action::Stop => ActionKind::Stop,
    }
}

/// The mathematical state of a controller.
pub struct ControllerModel {
    pub op: Op,
    pub vars: Seq<(String, String)>,
    pub verbose: bool,
    pub phase: Phase,
    pub fired: bool,
    pub outputs: Option<Seq<(Seq<char>, Seq<char>)>>,
    pub error: Option<ToolError>,
    pub teardown_error: Option<ToolError>,
}

/// The lifecycle controller.
pub struct Controller {
    pub op: Op,
    /// The request's variable set, handed to apply and destroy.
    pub vars: Vec<(String, String)>,
    /// Whether the tool's streams are shown live.
    pub verbose: bool,
    pub phase: Phase,
    /// The single-fire teardown gate: set by the first trigger on a live
    /// deployment, never reset.
    pub fired: bool,
    /// The decoded output set, once the output report has been read.
    pub outputs: Option<Vec<(String, String)>>,
    /// The failure that ended the flow, if one did.
    pub error: Option<ToolError>,
    /// A failure of the guaranteed teardown's destroy run. It is reported
    /// but does not undo that teardown was attempted, exactly once.
    pub teardown_error: Option<ToolError>,
}

impl View for Controller {
    type V = ControllerModel;

    open spec fn view(&self) -> ControllerModel {
        ControllerModel {
            op: self.op,
            vars: self.vars@,
            verbose: self.verbose,
            phase: self.phase,
            fired: self.fired,
            outputs: match self.outputs {
                Some(v) => Some(pair_views(v@)),
                None => None,
            },
            error: self.error,
            teardown_error: self.teardown_error,
        }
    }
}

/// The state a controller starts in.
pub open spec fn init_model(op: Op, vars: Seq<(String, String)>, verbose: bool) -> ControllerModel {
    ControllerModel {
        op,
        vars,
        verbose,
        phase: Phase::Probing,
        fired: false,
        outputs: None,
        error: None,
        teardown_error: None,
    }
}

pub open spec fn fail_model(s: ControllerModel, e: ToolError) -> ControllerModel {
    ControllerModel { phase: Phase::Failed, error: Some(e), ..s }
}

/// The controller's transition relation: the state after an event. An
/// event that the current phase does not expect changes nothing. A
/// failure before apply succeeded is terminal (`Failed`); a failure after
/// it keeps the phase `Deployed`, so the teardown guarantee stays armed;
/// a failure of the guaranteed destroy run is recorded apart and still
/// ends in `TornDown`.
pub open spec fn next_model(s: ControllerModel, e: EventModel) -> ControllerModel {
    match (s.phase, e) {
        (Phase::Probing, EventModel::LaunchFailed) => fail_model(s, ToolError::NotInstalled),
        (Phase::Probing, EventModel::Exited { code }) => if exit_ok(code) {
            ControllerModel { phase: Phase::Preparing, ..s }
        } else {
            fail_model(s, ToolError::NotInstalled)
        },
        (Phase::Preparing, EventModel::PrepareFinished { ok }) => if !ok {
            fail_model(s, ToolError::Workspace)
        } else if s.op == Op::Deploy {
            ControllerModel { phase: Phase::Initing, ..s }
        } else {
            ControllerModel { phase: Phase::Destroying, ..s }
        },
        (Phase::Initing, EventModel::LaunchFailed) => fail_model(
            s,
            ToolError::Launch(Subcommand::Init),
        ),
        (Phase::Initing, EventModel::Exited { code }) => if exit_ok(code) {
            ControllerModel { phase: Phase::Applying, ..s }
        } else {
            fail_model(s, ToolError::Execution(Subcommand::Init, code))
        },
        (Phase::Applying, EventModel::LaunchFailed) => fail_model(
            s,
            ToolError::Launch(Subcommand::Apply),
        ),
        (Phase::Applying, EventModel::Exited { code }) => if exit_ok(code) {
            ControllerModel { phase: Phase::Deployed, ..s }
        } else {
            fail_model(s, ToolError::Execution(Subcommand::Apply, code))
        },
        (Phase::Deployed, EventModel::LaunchFailed) => ControllerModel {
            error: Some(ToolError::Launch(Subcommand::Output)),
            ..s
        },
        (Phase::Deployed, EventModel::ExitedWithOutput { code, stdout }) => if exit_ok(code) {
            match output_doc_of(stdout) {
                Some(d) => ControllerModel { outputs: Some(decoded_doc(d)), ..s },
                None => ControllerModel { error: Some(ToolError::OutputDecode), ..s },
            }
        } else {
            ControllerModel { error: Some(ToolError::Execution(Subcommand::Output, code)), ..s }
        },
        (Phase::Destroying, EventModel::LaunchFailed) => if s.op == Op::Undeploy {
            fail_model(s, ToolError::Launch(Subcommand::Destroy))
        } else {
            ControllerModel {
                phase: Phase::TornDown,
                teardown_error: Some(ToolError::Launch(Subcommand::Destroy)),
                ..s
            }
        },
        (Phase::Destroying, EventModel::Exited { code }) => if exit_ok(code) {
            ControllerModel { phase: Phase::TornDown, ..s }
        } else if s.op == Op::Undeploy {
            fail_model(s, ToolError::Execution(Subcommand::Destroy, code))
        } else {
            ControllerModel {
                phase: Phase::TornDown,
                teardown_error: Some(ToolError::Execution(Subcommand::Destroy, code)),
                ..s
            }
        },
        _ => s,
    }
}

/// The action a state calls for: each running phase repeats its pending
/// work; `Deployed` asks for the output report once, then waits for a
/// teardown trigger, or stops when a failure after deploy was recorded.
pub open spec fn pending_action(s: ControllerModel) -> ActionKind {
    match s.phase {
        Phase::Probing => ActionKind::Run(Subcommand::Version),
        Phase::Preparing => ActionKind::Prepare,
        Phase::Initing => ActionKind::Run(Subcommand::Init),
        Phase::Applying => ActionKind::Run(Subcommand::Apply),
        Phase::Deployed => if s.error is Some {
            ActionKind::Stop
        } else if s.outputs is Some {
            ActionKind::Wait
        } else {
            ActionKind::Run(Subcommand::Output)
        },
        Phase::Destroying => ActionKind::Run(Subcommand::Destroy),
        Phase::TornDown => ActionKind::Stop,
        Phase::Failed => ActionKind::Stop,
    }
}

/// A returned action fits a state: it has the pending shape, and a run
/// carries exactly the subcommand's argument list, captures stdout only
/// for the output report, and is quiet unless the request was verbose
/// (the version probe is always quiet).
pub open spec fn action_matches(s: ControllerModel, a: Action) -> bool {
    &&& kind_of(a) == pending_action(s)
    &&& (a matches Action::Run { sub, args, capture_stdout, quiet } ==> {
        &&& arg_views(args@) == tool_args(sub, s.vars)
        &&& capture_stdout == (sub == Subcommand::Output)
        &&& quiet == (sub == Subcommand::Version || !s.verbose)
    })
}

/// What a teardown trigger does: the first one on a live deployment
/// starts the destroy and marks the teardown as fired; anywhere else it
/// is a no-op.
pub open spec fn spec_trigger(s: ControllerModel) -> (ControllerModel, bool) {
    if s.phase == Phase::Deployed && !s.fired {
        (ControllerModel { phase: Phase::Destroying, fired: true, ..s }, true)
    } else {
        (s, false)
    }
}

fn exit_code_ok(code: Option<i32>) -> (r: bool)
    ensures
        r == exit_ok(code),
{
    match code {
        Some(c) => c == 0,
        None => false,
    }
}

impl Controller {
    /// The action the current state calls for.
    fn current_action(&self) -> (r: Action)
        ensures
            action_matches(self@, r),
    {
        match self.phase {
            Phase::Probing => self.run_action(Subcommand::Version),
            Phase::Preparing => Action::Prepare,
            Phase::Initing => self.run_action(Subcommand::Init),
            Phase::Applying => self.run_action(Subcommand::Apply),
            Phase::Deployed => if self.error.is_some() {
                Action::Stop
            } else if self.outputs.is_some() {
                Action::Wait
            } else {
                self.run_action(Subcommand::Output)
            },
            Phase::Destroying => self.run_action(Subcommand::Destroy),
            Phase::TornDown => Action::Stop,
            Phase::Failed => Action::Stop,
        }
    }

    fn run_action(&self, sub: Subcommand) -> (r: Action)
        ensures
            kind_of(r) == ActionKind::Run(sub),
            (r matches Action::Run { sub: s2, args, capture_stdout, quiet } ==> {
                &&& s2 == sub
                &&& arg_views(args@) == tool_args(sub, self@.vars)
                &&& capture_stdout == (sub == Subcommand::Output)
                &&& quiet == (sub == Subcommand::Version || !self@.verbose)
            }),
    {
        let args = build_tool_args(sub, &self.vars);
        let capture_stdout = match sub {
            Subcommand::Output => true,
            _ => false,
        };
        let quiet = match sub {
            Subcommand::Version => true,
            _ => !self.verbose,
        };
        Action::Run { sub, args, capture_stdout, quiet }
    }

    /// Start a deploy flow: probe the tool, prepare the workspace, init,
    /// apply, read the outputs, then hold the deployment until a
    /// teardown trigger arrives.
    pub fn new_deploy(vars: Vec<(String, String)>, verbose: bool) -> (r: (Controller, Action))
        ensures
            r.0@ == init_model(Op::Deploy, vars@, verbose),
            action_matches(r.0@, r.1),
    {
        let c = Controller {
            op: Op::Deploy,
            vars,
            verbose,
            phase: Phase::Probing,
            fired: false,
            outputs: None,
            error: None,
            teardown_error: None,
        };
        let a = c.current_action();
        (c, a)
    }

    /// Start a standalone undeploy flow: probe the tool, prepare the
    /// workspace, then destroy.
    pub fn new_undeploy(vars: Vec<(String, String)>, verbose: bool) -> (r: (Controller, Action))
        ensures
            r.0@ == init_model(Op::Undeploy, vars@, verbose),
            action_matches(r.0@, r.1),
    {
        let c = Controller {
            op: Op::Undeploy,
            vars,
            verbose,
            phase: Phase::Probing,
            fired: false,
            outputs: None,
            error: None,
            teardown_error: None,
        };
        let a = c.current_action();
        (c, a)
    }

    /// Feed back what the last action did; the controller moves to the
    /// next state and returns the next action.
    pub fn step(&mut self, ev: Event) -> (r: Action)
        ensures
            final(self)@ == next_model(old(self)@, ev@),
            action_matches(final(self)@, r),
    {
        match (self.phase, &ev) {
            (Phase::Probing, Event::LaunchFailed) => {
                self.phase = Phase::Failed;
                self.error = Some(ToolError::NotInstalled);
            },
            (Phase::Probing, Event::Exited { code }) => {
                if exit_code_ok(*code) {
                    self.phase = Phase::Preparing;
                } else {
                    self.phase = Phase::Failed;
                    self.error = Some(ToolError::NotInstalled);
                }
            },
            (Phase::Preparing, Event::PrepareFinished { ok }) => {
                if !*ok {
                    self.phase = Phase::Failed;
                    self.error = Some(ToolError::Workspace);
                } else {
                    match self.op {
                        Op::Deploy => {
                            self.phase = Phase::Initing;
                        },
                        Op::Undeploy => {
                            self.phase = Phase::Destroying;
                        },
                    }
                }
            },
            (Phase::Initing, Event::LaunchFailed) => {
                self.phase = Phase::Failed;
                self.error = Some(ToolError::Launch(Subcommand::Init));
            },
            (Phase::Initing, Event::Exited { code }) => {
                if exit_code_ok(*code) {
                    self.phase = Phase::Applying;
                } else {
                    self.phase = Phase::Failed;
                    self.error = Some(ToolError::Execution(Subcommand::Init, *code));
                }
            },
            (Phase::Applying, Event::LaunchFailed) => {
                self.phase = Phase::Failed;
                self.error = Some(ToolError::Launch(Subcommand::Apply));
            },
            (Phase::Applying, Event::Exited { code }) => {
                if exit_code_ok(*code) {
                    self.phase = Phase::Deployed;
                } else {
                    self.phase = Phase::Failed;
                    self.error = Some(ToolError::Execution(Subcommand::Apply, *code));
                }
            },
            (Phase::Deployed, Event::LaunchFailed) => {
                self.error = Some(ToolError::Launch(Subcommand::Output));
            },
            (Phase::Deployed, Event::ExitedWithOutput { code, stdout }) => {
                if exit_code_ok(*code) {
                    match decode_outputs(stdout.as_slice()) {
                        Ok(out) => {
                            self.outputs = Some(out);
                        },
                        Err(e) => {
                            self.error = Some(e);
                        },
                    }
                } else {
                    self.error = Some(ToolError::Execution(Subcommand::Output, *code));
                }
            },
            (Phase::Destroying, Event::LaunchFailed) => {
                match self.op {
                    Op::Undeploy => {
                        self.phase = Phase::Failed;
                        self.error = Some(ToolError::Launch(Subcommand::Destroy));
                    },
                    Op::Deploy => {
                        self.phase = Phase::TornDown;
                        self.teardown_error = Some(ToolError::Launch(Subcommand::Destroy));
                    },
                }
            },
            (Phase::Destroying, Event::Exited { code }) => {
                if exit_code_ok(*code) {
                    self.phase = Phase::TornDown;
                } else {
                    match self.op {
                        Op::Undeploy => {
                            self.phase = Phase::Failed;
                            self.error = Some(ToolError::Execution(Subcommand::Destroy, *code));
                        },
                        Op::Deploy => {
                            self.phase = Phase::TornDown;
                            self.teardown_error = Some(
                                ToolError::Execution(Subcommand::Destroy, *code),
                            );
                        },
                    }
                }
            },
            _ => {},
        }
        self.current_action()
    }

    /// A teardown trigger: the explicit call, the termination signal and
    /// the abnormal-unwind hook all arrive here. The first trigger on a
    /// live deployment marks the teardown as fired and returns the
    /// destroy run to perform; every other trigger returns nothing and
    /// changes nothing.
    pub fn trigger_teardown(&mut self) -> (r: Option<Action>)
        ensures
            final(self)@ == spec_trigger(old(self)@).0,
            (r is Some) == spec_trigger(old(self)@).1,
            (r matches Some(a) ==> action_matches(final(self)@, a)),
    {
        let live = match self.phase {
            Phase::Deployed => true,
            _ => false,
        };
        if live && !self.fired {
            self.fired = true;
            self.phase = Phase::Destroying;
            Some(self.run_action(Subcommand::Destroy))
        } else {
            None
        }
    }
}

/// The state after a whole sequence of events.
pub open spec fn run_events(s: ControllerModel, es: Seq<EventModel>) -> ControllerModel
    decreases es.len(),
{
    if es.len() == 0 {
        s
    } else {
        run_events(next_model(s, es[0]), es.drop_first())
    }
}

/// The teardown gate, once fired, stays fired through every later event.
pub proof fn lemma_gate_stays_fired(s: ControllerModel, es: Seq<EventModel>)
    requires
        s.fired,
    ensures
        run_events(s, es).fired,
    decreases es.len(),
{
    if es.len() > 0 {
        lemma_gate_stays_fired(next_model(s, es[0]), es.drop_first());
    }
}

/// Law (teardown is idempotent): after a trigger that fired the destroy,
/// no later trigger fires it again, whatever events the flow sees in
/// between — a race between an explicit teardown, a termination signal
/// and an abnormal unwind runs the destroy exactly once.
pub proof fn lemma_teardown_single_fire(s: ControllerModel, es: Seq<EventModel>)
    requires
        spec_trigger(s).1,
    ensures
        !spec_trigger(run_events(spec_trigger(s).0, es)).1,
{
    lemma_gate_stays_fired(spec_trigger(s).0, es);
}

/// The destroy action fires from the teardown gate only on a live
/// deployment: a flow that never reached `Deployed` never fires it.
pub proof fn lemma_trigger_needs_deployment(s: ControllerModel)
    ensures
        spec_trigger(s).1 ==> s.phase == Phase::Deployed,
{
}

/// Law (ordering of the deploy sequence): the apply phase is entered
/// only when init exited with success, and the deployed state — the one
/// state teardown can fire from — only when apply exited with success.
pub proof fn lemma_deploy_sequence_order(s: ControllerModel, e: EventModel)
    ensures
        (next_model(s, e).phase == Phase::Applying && s.phase != Phase::Applying) ==> (s.phase
            == Phase::Initing && (e matches EventModel::Exited { code } && exit_ok(code))),
        (next_model(s, e).phase == Phase::Deployed && s.phase != Phase::Deployed) ==> (s.phase
            == Phase::Applying && (e matches EventModel::Exited { code } && exit_ok(code))),
{
}

/// A failed flow is over: no event moves it, and nothing it asks for is
/// ever a destroy run.
pub proof fn lemma_failed_is_terminal(s: ControllerModel, es: Seq<EventModel>)
    requires
        s.phase == Phase::Failed,
    ensures
        run_events(s, es) == s,
        pending_action(s) == ActionKind::Stop,
    decreases es.len(),
{
    if es.len() > 0 {
        lemma_failed_is_terminal(next_model(s, es[0]), es.drop_first());
    }
}

/// Law (ordering): a deploy whose apply step fails never reaches a
/// destroy run from the guaranteed-teardown path: the flow ends in
/// `Failed`, every later event leaves it there, no teardown trigger
/// fires, and the pending action is to stop.
pub proof fn lemma_failed_apply_never_destroys(
    s: ControllerModel,
    e: EventModel,
    later: Seq<EventModel>,
)
    requires
        s.phase == Phase::Applying,
        e is LaunchFailed || (e matches EventModel::Exited { code } && !exit_ok(code)),
    ensures
        run_events(next_model(s, e), later).phase == Phase::Failed,
        !spec_trigger(run_events(next_model(s, e), later)).1,
        pending_action(run_events(next_model(s, e), later)) == ActionKind::Stop,
{
    lemma_failed_is_terminal(next_model(s, e), later);
}

} // verus!
