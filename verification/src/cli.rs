//! Command surface parsing: the operation name, the configuration path
//! flag, the variable flags and the debug toggle, read from the process's
//! argument list. The argument list is taken whole, program name first.

use vstd::prelude::*;
use vstd::string::StringExecFns;
use vstd::string::StrSliceExecFns;
use crate::invoke::arg_views;
use crate::outputs::pair_views;

verus! {

/// A parsed command line.
#[derive(Debug, PartialEq)]
pub enum CliCommand {
    /// Print the overall usage text (no operation given, or a help flag).
    Help,
    /// Print the program's name and version.
    Version,
    /// Print the deploy operation's usage text.
    DeployHelp,
    /// Print the undeploy operation's usage text.
    UndeployHelp,
    /// Deploy the configuration at `path` with the given variables.
    Deploy { path: String, vars: Vec<(String, String)>, debug: bool },
    /// Destroy the configuration at `path` with the given variables.
    Undeploy { path: String, vars: Vec<(String, String)>, debug: bool },
}

/// The mathematical shape of a parsed command line.
pub enum CliModel {
    Help,
    Version,
    DeployHelp,
    UndeployHelp,
    Deploy { path: Seq<char>, vars: Seq<(Seq<char>, Seq<char>)>, debug: bool },
    Undeploy { path: Seq<char>, vars: Seq<(Seq<char>, Seq<char>)>, debug: bool },
}

impl View for CliCommand {
    type V = CliModel;

    open spec fn view(&self) -> CliModel {
        match self {
            CliCommand::Help => CliModel::Help,
            CliCommand::Version => CliModel::Version,
            CliCommand::DeployHelp => CliModel::DeployHelp,
            CliCommand::UndeployHelp => CliModel::UndeployHelp,
            CliCommand::Deploy { path, vars, debug } => CliModel::Deploy {
                path: path@,
                vars: pair_views(vars@),
                debug: *debug,
            },
            CliCommand::Undeploy { path, vars, debug } => CliModel::Undeploy {
                path: path@,
                vars: pair_views(vars@),
                debug: *debug,
            },
        }
    }
}

/// A rejected command line.
#[derive(Debug, PartialEq)]
pub enum CliError {
    /// The configuration path flag came last, with no path after it.
    PathFlagNeedsValue,
    /// This variable flag came last, with no value after it.
    FlagNeedsValue(String),
    /// An argument that is no flag.
    UnexpectedArgument(String),
    /// Deploy and undeploy need the configuration path flag.
    PathRequired,
    /// The first argument names no operation.
    UnknownCommand(String),
}

/// The mathematical shape of a rejected command line.
pub enum CliErrorModel {
    PathFlagNeedsValue,
    FlagNeedsValue(Seq<char>),
    UnexpectedArgument(Seq<char>),
    PathRequired,
    UnknownCommand(Seq<char>),
}

impl View for CliError {
    type V = CliErrorModel;

    open spec fn view(&self) -> CliErrorModel {
        match self {
            CliError::PathFlagNeedsValue => CliErrorModel::PathFlagNeedsValue,
            CliError::FlagNeedsValue(a) => CliErrorModel::FlagNeedsValue(a@),
            CliError::UnexpectedArgument(a) => CliErrorModel::UnexpectedArgument(a@),
            CliError::PathRequired => CliErrorModel::PathRequired,
            CliError::UnknownCommand(a) => CliErrorModel::UnknownCommand(a@),
        }
    }
}

/// The argument list with every debug toggle removed.
pub open spec fn strip_debug(args: Seq<Seq<char>>) -> Seq<Seq<char>>
    decreases args.len(),
{
    if args.len() == 0 {
        Seq::empty()
    } else if args[0] == "--debug"@ {
        strip_debug(args.drop_first())
    } else {
        seq![args[0]] + strip_debug(args.drop_first())
    }
}

/// Whether the argument list holds the debug toggle.
pub open spec fn has_debug(args: Seq<Seq<char>>) -> bool
    decreases args.len(),
{
    if args.len() == 0 {
        false
    } else {
        args[0] == "--debug"@ || has_debug(args.drop_first())
    }
}

proof fn lemma_strip_debug_concat(a: Seq<Seq<char>>, b: Seq<Seq<char>>)
    ensures
        strip_debug(a + b) == strip_debug(a) + strip_debug(b),
        has_debug(a + b) == (has_debug(a) || has_debug(b)),
    decreases a.len(),
{
    if a.len() == 0 {
        assert(a + b =~= b);
        assert(strip_debug(a) + strip_debug(b) =~= strip_debug(b));
    } else {
        lemma_strip_debug_concat(a.drop_first(), b);
        assert((a + b).drop_first() =~= a.drop_first() + b);
        assert(strip_debug(a + b) =~= strip_debug(a) + strip_debug(b));
    }
}

/// Whether an argument is a variable flag: it starts with two dashes.
pub open spec fn is_var_flag_of(a: Seq<char>) -> bool {
    a.len() >= 2 && a[0] == '-' && a[1] == '-'
}

/// An argument with every leading pair of dashes removed: the variable
/// name under a variable flag.
pub open spec fn trim_dashes(a: Seq<char>) -> Seq<char>
    decreases a.len(),
{
    if is_var_flag_of(a) {
        trim_dashes(a.skip(2))
    } else {
        a
    }
}

/// A variable set with one binding added: an existing key keeps its place
/// and takes the new value, a new key goes to the end.
pub open spec fn upsert(
    vars: Seq<(Seq<char>, Seq<char>)>,
    k: Seq<char>,
    v: Seq<char>,
) -> Seq<(Seq<char>, Seq<char>)>
    decreases vars.len(),
{
    if vars.len() == 0 {
        seq![(k, v)]
    } else if vars[0].0 == k {
        seq![(k, v)] + vars.drop_first()
    } else {
        seq![vars[0]] + upsert(vars.drop_first(), k, v)
    }
}

pub open spec fn opt_str_view(o: Option<String>) -> Option<Seq<char>> {
    match o {
        Some(s) => Some(s@),
        None => None,
    }
}

/// The scan over the flags of a deploy or undeploy operation, from
/// argument `i` on: each path flag takes the next argument as the
/// configuration path (the last one wins), each variable flag takes the
/// next argument as its value, and anything else is refused.
pub open spec fn spec_scan(
    args: Seq<Seq<char>>,
    i: int,
    path: Option<Seq<char>>,
    vars: Seq<(Seq<char>, Seq<char>)>,
) -> Result<(Option<Seq<char>>, Seq<(Seq<char>, Seq<char>)>), CliErrorModel>
    decreases args.len() - i,
{
    if i < 0 || i >= args.len() {
        Ok((path, vars))
    } else if args[i] == "--terraform-path"@ || args[i] == "-t"@ {
        if i + 1 >= args.len() {
            Err(CliErrorModel::PathFlagNeedsValue)
        } else {
            spec_scan(args, i + 2, Some(args[i + 1]), vars)
        }
    } else if is_var_flag_of(args[i]) {
        if i + 1 >= args.len() {
            Err(CliErrorModel::FlagNeedsValue(args[i]))
        } else {
            spec_scan(args, i + 2, path, upsert(vars, trim_dashes(args[i]), args[i + 1]))
        }
    } else {
        Err(CliErrorModel::UnexpectedArgument(args[i]))
    }
}

/// What a whole argument list (program name first) means: the debug
/// toggle is read and removed wherever it stands; then the first
/// remaining argument picks the operation, help and version requests are
/// answered as such, and deploy and undeploy scan their flags and must
/// name a configuration path.
pub open spec fn spec_parse(argv: Seq<Seq<char>>) -> Result<CliModel, CliErrorModel> {
    let args = strip_debug(argv);
    let debug = has_debug(argv);
    if args.len() <= 1 || args[1] == "-h"@ || args[1] == "--help"@ {
        Ok(CliModel::Help)
    } else if args[1] == "--version"@ {
        Ok(CliModel::Version)
    } else if args[1] == "deploy"@ {
        if args.len() >= 3 && (args[2] == "-h"@ || args[2] == "--help"@) {
            Ok(CliModel::DeployHelp)
        } else {
            match spec_scan(args, 2, None, Seq::empty()) {
                Ok((Some(path), vars)) => Ok(CliModel::Deploy { path, vars, debug }),
                Ok((None, vars)) => Err(CliErrorModel::PathRequired),
                Err(e) => Err(e),
            }
        }
    } else if args[1] == "undeploy"@ {
        if args.len() >= 3 && (args[2] == "-h"@ || args[2] == "--help"@) {
            Ok(CliModel::UndeployHelp)
        } else {
            match spec_scan(args, 2, None, Seq::empty()) {
                Ok((Some(path), vars)) => Ok(CliModel::Undeploy { path, vars, debug }),
                Ok((None, vars)) => Err(CliErrorModel::PathRequired),
                Err(e) => Err(e),
            }
        }
    } else {
        Err(CliErrorModel::UnknownCommand(args[1]))
    }
}

fn is_var_flag(a: &String) -> (r: bool)
    ensures
        r == is_var_flag_of(a@),
{
    let s = a.as_str();
    if s.unicode_len() >= 2 {
        s.get_char(0) == '-' && s.get_char(1) == '-'
    } else {
        false
    }
}

fn trim_var_flag(s: &str) -> (r: String)
    ensures
        r@ == trim_dashes(s@),
    decreases s@.len(),
{
    let len = s.unicode_len();
    if len >= 2 && s.get_char(0) == '-' && s.get_char(1) == '-' {
        let rest = s.substring_char(2, len);
        proof {
            assert(rest@ =~= s@.skip(2));
        }
        trim_var_flag(rest)
    } else {
        s.to_owned()
    }
}

proof fn lemma_upsert_found(m: Seq<(Seq<char>, Seq<char>)>, k: Seq<char>, v: Seq<char>, j: int)
    requires
        0 <= j < m.len(),
        m[j].0 == k,
        forall|l: int| 0 <= l < j ==> (#[trigger] m[l]).0 != k,
    ensures
        upsert(m, k, v) == m.update(j, (k, v)),
    decreases j,
{
    if j == 0 {
        assert(upsert(m, k, v) =~= m.update(0, (k, v)));
    } else {
        assert(m[0].0 != k);
        assert(m.drop_first()[j - 1] == m[j]);
        assert(forall|l: int| 0 <= l < j - 1 ==> (#[trigger] m.drop_first()[l]).0 != k);
        lemma_upsert_found(m.drop_first(), k, v, j - 1);
        assert(m.update(j, (k, v)) =~= seq![m[0]] + m.drop_first().update(j - 1, (k, v)));
        assert(upsert(m, k, v) =~= m.update(j, (k, v)));
    }
}

proof fn lemma_upsert_missing(m: Seq<(Seq<char>, Seq<char>)>, k: Seq<char>, v: Seq<char>)
    requires
        forall|l: int| 0 <= l < m.len() ==> (#[trigger] m[l]).0 != k,
    ensures
        upsert(m, k, v) == m.push((k, v)),
    decreases m.len(),
{
    if m.len() == 0 {
        assert(upsert(m, k, v) =~= m.push((k, v)));
    } else {
        assert(forall|l: int|
            0 <= l < m.drop_first().len() ==> (#[trigger] m.drop_first()[l]).0 != k);
        lemma_upsert_missing(m.drop_first(), k, v);
        assert(m.push((k, v)) =~= seq![m[0]] + m.drop_first().push((k, v)));
        assert(upsert(m, k, v) =~= m.push((k, v)));
    }
}

fn upsert_var(vars: &mut Vec<(String, String)>, k: String, v: String)
    ensures
        pair_views(final(vars)@) == upsert(pair_views(old(vars)@), k@, v@),
{
    let mut j: usize = 0;
    while j < vars.len()
        invariant
            j <= vars@.len(),
            vars@ == old(vars)@,
            forall|l: int| 0 <= l < j ==> (#[trigger] pair_views(vars@)[l]).0 != k@,
        decreases vars@.len() - j,
    {
        proof {
            assert(pair_views(vars@)[j as int] == (vars@[j as int].0@, vars@[j as int].1@));
        }
        if vars[j].0 == k {
            vars[j] = (k, v);
            proof {
                lemma_upsert_found(pair_views(old(vars)@), k@, v@, j as int);
                assert(pair_views(vars@) =~= pair_views(old(vars)@).update(
                    j as int,
                    (k@, v@),
                ));
            }
            return;
        }
        j += 1;
    }
    vars.push((k, v));
    proof {
        lemma_upsert_missing(pair_views(old(vars)@), k@, v@);
        assert(pair_views(vars@) =~= pair_views(old(vars)@).push((k@, v@)));
    }
}

fn scan_flags(args: &Vec<String>, start: usize) -> (r: Result<
    (Option<String>, Vec<(String, String)>),
    CliError,
>)
    ensures
        (r matches Ok(pv) ==> spec_scan(arg_views(args@), start as int, None, Seq::empty())
            == Ok::<_, CliErrorModel>((opt_str_view(pv.0), pair_views(pv.1@)))),
        (r matches Err(e) ==> spec_scan(arg_views(args@), start as int, None, Seq::empty())
            == Err::<(Option<Seq<char>>, Seq<(Seq<char>, Seq<char>)>), _>(e@)),
{
    let path_long = String::from_str("--terraform-path");
    let path_short = String::from_str("-t");
    let mut path: Option<String> = None;
    let mut vars: Vec<(String, String)> = Vec::new();
    let mut i: usize = start;
    proof {
        assert(pair_views(vars@) =~= Seq::<(Seq<char>, Seq<char>)>::empty());
    }
    while i < args.len()
        invariant
            path_long@ == "--terraform-path"@,
            path_short@ == "-t"@,
            spec_scan(arg_views(args@), start as int, None, Seq::empty()) == spec_scan(
                arg_views(args@),
                i as int,
                opt_str_view(path),
                pair_views(vars@),
            ),
        decreases args@.len() - i,
    {
        proof {
            assert(arg_views(args@)[i as int] == args@[i as int]@);
        }
        if args[i] == path_long || args[i] == path_short {
            if i + 1 >= args.len() {
                return Err(CliError::PathFlagNeedsValue);
            }
            proof {
                assert(arg_views(args@)[i + 1] == args@[i + 1]@);
            }
            path = Some(args[i + 1].clone());
            i += 2;
        } else if is_var_flag(&args[i]) {
            if i + 1 >= args.len() {
                return Err(CliError::FlagNeedsValue(args[i].clone()));
            }
            proof {
                assert(arg_views(args@)[i + 1] == args@[i + 1]@);
            }
            let key = trim_var_flag(args[i].as_str());
            upsert_var(&mut vars, key, args[i + 1].clone());
            i += 2;
        } else {
            return Err(CliError::UnexpectedArgument(args[i].clone()));
        }
    }
    Ok((path, vars))
}

/// Parse a whole argument list, program name first: read and remove the
/// debug toggle, pick the operation, answer help and version requests,
/// and scan the flags of a deploy or undeploy, which must name a
/// configuration path.
pub fn parse_args(argv: &Vec<String>) -> (r: Result<CliCommand, CliError>)
    ensures
        (r matches Ok(c) ==> (spec_parse(arg_views(argv@)) matches Ok(m) && m == c@)),
        (r matches Err(e) ==> (spec_parse(arg_views(argv@)) matches Err(m) && m == e@)),
{
    let debug_lit = String::from_str("--debug");
    let mut args: Vec<String> = Vec::new();
    let mut debug = false;
    let mut i: usize = 0;
    while i < argv.len()
        invariant
            i <= argv@.len(),
            debug_lit@ == "--debug"@,
            arg_views(args@) == strip_debug(arg_views(argv@).take(i as int)),
            debug == has_debug(arg_views(argv@).take(i as int)),
        decreases argv@.len() - i,
    {
        let ghost before = args@;
        let ghost av = arg_views(argv@);
        proof {
            assert(av[i as int] == argv@[i as int]@);
        }
        if argv[i] == debug_lit {
            debug = true;
        } else {
            args.push(argv[i].clone());
        }
        proof {
            lemma_strip_debug_concat(av.take(i as int), seq![av[i as int]]);
            assert(av.take(i + 1) =~= av.take(i as int) + seq![av[i as int]]);
            assert(seq![av[i as int]].drop_first() =~= Seq::<Seq<char>>::empty());
            assert(strip_debug(Seq::<Seq<char>>::empty()) =~= Seq::<Seq<char>>::empty());
            assert(!has_debug(Seq::<Seq<char>>::empty()));
            if av[i as int] == "--debug"@ {
                assert(strip_debug(seq![av[i as int]]) =~= Seq::<Seq<char>>::empty());
                assert(has_debug(seq![av[i as int]]));
            } else {
                assert(strip_debug(seq![av[i as int]]) =~= seq![av[i as int]]);
                assert(!has_debug(seq![av[i as int]]));
                assert(arg_views(args@) =~= arg_views(before) + seq![av[i as int]]);
            }
            assert(arg_views(args@) =~= strip_debug(av.take(i + 1)));
        }
        i += 1;
    }
    proof {
        assert(arg_views(argv@).take(argv@.len() as int) =~= arg_views(argv@));
    }
    let h_short = String::from_str("-h");
    let h_long = String::from_str("--help");
    if args.len() <= 1 || args[1] == h_short || args[1] == h_long {
        proof {
            if args@.len() > 1 {
                assert(arg_views(args@)[1] == args@[1]@);
            }
        }
        return Ok(CliCommand::Help);
    }
    proof {
        assert(arg_views(args@)[1] == args@[1]@);
        if args@.len() >= 3 {
            assert(arg_views(args@)[2] == args@[2]@);
        }
    }
    if args[1] == String::from_str("--version") {
        return Ok(CliCommand::Version);
    }
    if args[1] == String::from_str("deploy") {
        if args.len() >= 3 && (args[2] == h_short || args[2] == h_long) {
            return Ok(CliCommand::DeployHelp);
        }
        match scan_flags(&args, 2) {
            Ok((Some(path), vars)) => {
                return Ok(CliCommand::Deploy { path, vars, debug });
            },
            Ok((None, _)) => {
                return Err(CliError::PathRequired);
            },
            Err(e) => {
                return Err(e);
            },
        }
    }
    if args[1] == String::from_str("undeploy") {
        if args.len() >= 3 && (args[2] == h_short || args[2] == h_long) {
            return Ok(CliCommand::UndeployHelp);
        }
        match scan_flags(&args, 2) {
            Ok((Some(path), vars)) => {
                return Ok(CliCommand::Undeploy { path, vars, debug });
            },
            Ok((None, _)) => {
                return Err(CliError::PathRequired);
            },
            Err(e) => {
                return Err(e);
            },
        }
    }
    Err(CliError::UnknownCommand(args[1].clone()))
}

} // verus!
