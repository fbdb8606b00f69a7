//! External tool invocation data: the subcommands, the argument lists
//! handed to the tool, the classification of invocation failures, and the
//! error taxonomy of the whole library.

use vstd::prelude::*;
use vstd::string::StringExecFns;

verus! {

/// A subcommand of the external configuration tool.
#[derive(Clone, Copy, PartialEq, Eq, Structural, Debug)]
pub enum Subcommand {
    Version,
    Init,
    Apply,
    Destroy,
    Output,
}

/// Every failure the library reports.
#[derive(Clone, PartialEq, Eq, Debug)]
pub enum ToolError {
    /// The version probe could not run the tool binary, or the probe
    /// reported a nonzero exit status.
    NotInstalled,
    /// The workspace could not be prepared: the source could not be read,
    /// the path could not be canonicalized, or a copy step failed.
    Workspace,
    /// The tool binary could not be started for this subcommand.
    Launch(Subcommand),
    /// The subcommand ran and reported failure; the exit code is kept
    /// (`None` when the process was ended by a signal).
    Execution(Subcommand, Option<i32>),
    /// The output report of a successful deploy was not well-formed JSON.
    OutputDecode,
}

/// The name under which a subcommand is passed to the tool.
pub open spec fn subcommand_name(s: Subcommand) -> Seq<char> {
    match s {
        Subcommand::Version => "-version"@,
        Subcommand::Init => "init"@,
        Subcommand::Apply => "apply"@,
        Subcommand::Destroy => "destroy"@,
        Subcommand::Output => "output"@,
    }
}

impl Subcommand {
    /// The argument under which this subcommand is passed to the tool.
    pub fn name(&self) -> (r: &'static str)
        ensures
            r@ == subcommand_name(*self),
    {
        match self {
            Subcommand::Version => "-version",
            Subcommand::Init => "init",
            Subcommand::Apply => "apply",
            Subcommand::Destroy => "destroy",
            Subcommand::Output => "output",
        }
    }
}

/// The views of an argument list.
pub open spec fn arg_views(args: Seq<String>) -> Seq<Seq<char>> {
    args.map_values(|a: String| a@)
}

/// The variable arguments handed to the tool: for every pair, a variable
/// flag marker and one `key=value` argument, in the order given.
pub open spec fn var_args(vars: Seq<(String, String)>) -> Seq<Seq<char>>
    decreases vars.len(),
{
    if vars.len() == 0 {
        Seq::empty()
    } else {
        seq!["-var"@, vars[0].0@ + "="@ + vars[0].1@] + var_args(vars.drop_first())
    }
}

proof fn lemma_var_args_concat(a: Seq<(String, String)>, b: Seq<(String, String)>)
    ensures
        var_args(a + b) == var_args(a) + var_args(b),
    decreases a.len(),
{
    if a.len() == 0 {
        assert(a + b =~= b);
        assert(var_args(a) + var_args(b) =~= var_args(b));
    } else {
        lemma_var_args_concat(a.drop_first(), b);
        assert((a + b).drop_first() =~= a.drop_first() + b);
        assert(var_args(a + b) =~= var_args(a) + var_args(b));
    }
}

/// The whole argument list for one subcommand: the subcommand name, then
/// auto-approval for the mutating operations, the JSON flag for output
/// retrieval, and the variable set for apply and destroy. Init, output
/// and the version probe take no variables.
pub open spec fn tool_args(sub: Subcommand, vars: Seq<(String, String)>) -> Seq<Seq<char>> {
    match sub {
        Subcommand::Version => seq!["-version"@],
        Subcommand::Init => seq!["init"@],
        Subcommand::Apply => seq!["apply"@, "-auto-approve"@] + var_args(vars),
        Subcommand::Destroy => seq!["destroy"@, "-auto-approve"@] + var_args(vars),
        Subcommand::Output => seq!["output"@, "-json"@],
    }
}

fn push_var_args(args: &mut Vec<String>, vars: &Vec<(String, String)>)
    ensures
        arg_views(final(args)@) == arg_views(old(args)@) + var_args(vars@),
{
    let mut i: usize = 0;
    while i < vars.len()
        invariant
            i <= vars@.len(),
            arg_views(args@) == arg_views(old(args)@) + var_args(vars@.take(i as int)),
        decreases vars@.len() - i,
    {
        let ghost before = args@;
        let marker = String::from_str("-var");
        let kv = vars[i].0.clone().concat("=").concat(vars[i].1.as_str());
        proof {
            let pair = vars@[i as int];
            assert(kv@ == pair.0@ + "="@ + pair.1@);
        }
        args.push(marker);
        args.push(kv);
        proof {
            let pair = vars@[i as int];
            assert(args@ =~= before.push(marker).push(kv));
            assert(arg_views(args@) =~= arg_views(before) + seq!["-var"@, kv@]);
            lemma_var_args_concat(vars@.take(i as int), seq![pair]);
            assert(vars@.take(i + 1) =~= vars@.take(i as int) + seq![pair]);
            assert(seq![pair].drop_first() =~= Seq::<(String, String)>::empty());
            assert(var_args(Seq::<(String, String)>::empty()) =~= Seq::<Seq<char>>::empty());
            assert(var_args(seq![pair]) =~= seq!["-var"@, pair.0@ + "="@ + pair.1@]);
            assert(arg_views(args@) =~= arg_views(old(args)@) + var_args(vars@.take(i + 1)));
        }
        i += 1;
    }
    proof {
        assert(vars@.take(vars@.len() as int) =~= vars@);
    }
}

/// Build the argument list for one subcommand with the given variables.
pub fn build_tool_args(sub: Subcommand, vars: &Vec<(String, String)>) -> (r: Vec<String>)
    ensures
        arg_views(r@) == tool_args(sub, vars@),
{
    let mut args: Vec<String> = Vec::new();
    args.push(String::from_str(sub.name()));
    match sub {
        Subcommand::Version => (),
        Subcommand::Init => (),
        Subcommand::Apply => {
            args.push(String::from_str("-auto-approve"));
            push_var_args(&mut args, vars);
        },
        Subcommand::Destroy => {
            args.push(String::from_str("-auto-approve"));
            push_var_args(&mut args, vars);
        },
        Subcommand::Output => {
            args.push(String::from_str("-json"));
        },
    }
    proof {
        assert(arg_views(args@) =~= tool_args(sub, vars@));
    }
    args
}

/// Whether an exit status is a success: the process exited on its own
/// with code zero.
pub open spec fn exit_ok(code: Option<i32>) -> bool {
    code == Some(0i32)
}

/// Classify the way a finished (or unlaunchable) subcommand went: `None`
/// for a success, the matching error otherwise.
pub open spec fn spec_classify_exit(sub: Subcommand, launched: bool, code: Option<i32>) -> Option<
    ToolError,
> {
    if !launched {
        Some(ToolError::Launch(sub))
    } else if exit_ok(code) {
        None
    } else {
        Some(ToolError::Execution(sub, code))
    }
}

/// Classify the result of one subcommand invocation: a launch failure, a
/// nonzero or missing exit status, or success.
pub fn classify_exit(sub: Subcommand, launched: bool, code: Option<i32>) -> (r: Option<ToolError>)
    ensures
        r == spec_classify_exit(sub, launched, code),
{
    if !launched {
        Some(ToolError::Launch(sub))
    } else {
        match code {
            Some(c) if c == 0 => None,
            _ => Some(ToolError::Execution(sub, code)),
        }
    }
}

} // verus!
