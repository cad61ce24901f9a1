//! The command line: `disp-writer [--config PATH]`, with `-h`/`--help`.

use vstd::prelude::*;
use crate::text::str_eq;

verus! {

broadcast use vstd::string::group_string_axioms;

/// What the command line asks for.
#[derive(Debug)]
pub enum CliCommand {
    /// Run the writer, with the configuration file given by `--config`, if any.
    Run(Option<String>),
    /// Print the usage and exit successfully.
    Help,
}

/// Why the command line is refused.
#[derive(Debug)]
pub enum ArgsError {
    /// `--config` is the last argument, with no path after it.
    MissingConfigPath,
    /// An argument that is not understood; it holds that argument.
    UnknownArgument(String),
}

/// The meaning of a command line, as plain text values.
pub enum ArgsOutcome {
    Run(Option<Seq<char>>),
    Help,
    MissingConfigPath,
    UnknownArgument(Seq<char>),
}

/// The meaning of the arguments `args` (the program name excluded), read left
/// to right, when an earlier `--config` has named `config` so far: a later
/// `--config` replaces an earlier one; help stops the reading at once.
pub open spec fn args_outcome(args: Seq<Seq<char>>, config: Option<Seq<char>>) -> ArgsOutcome
    decreases args.len(),
{
    if args.len() == 0 {
        ArgsOutcome::Run(config)
    } else if args[0] == "--config"@ {
        if args.len() < 2 {
            ArgsOutcome::MissingConfigPath
        } else {
            args_outcome(args.subrange(2, args.len() as int), Some(args[1]))
        }
    } else if args[0] == "-h"@ || args[0] == "--help"@ {
        ArgsOutcome::Help
    } else {
        ArgsOutcome::UnknownArgument(args[0])
    }
}

/// The text values of a list of arguments.
pub open spec fn arg_texts(args: Seq<String>) -> Seq<Seq<char>> {
    args.map_values(|a: String| a@)
}

/// The meaning that a result of `parse_args` carries.
pub open spec fn outcome_of(r: Result<CliCommand, ArgsError>) -> ArgsOutcome {
    match r {
        Ok(CliCommand::Run(None)) => ArgsOutcome::Run(None),
        Ok(CliCommand::Run(Some(p))) => ArgsOutcome::Run(Some(p@)),
        Ok(CliCommand::Help) => ArgsOutcome::Help,
        Err(ArgsError::MissingConfigPath) => ArgsOutcome::MissingConfigPath,
        Err(ArgsError::UnknownArgument(a)) => ArgsOutcome::UnknownArgument(a@),
    }
}

/// Reads the command-line arguments (the program name excluded).
pub fn parse_args(args: &[String]) -> (r: Result<CliCommand, ArgsError>)
    ensures
        outcome_of(r) == args_outcome(arg_texts(args@), None),
{
    let ghost all = arg_texts(args@);
    let mut config_path: Option<String> = None;
    let mut i: usize = 0;
    assert(all.subrange(0, all.len() as int) =~= all);
    while i < args.len()
        invariant
            0 <= i <= args@.len(),
            all == arg_texts(args@),
            args_outcome(all, None) == args_outcome(
                all.subrange(i as int, all.len() as int),
                match config_path {
                    Some(p) => Some(p@),
                    None => None,
                },
            ),
        decreases args@.len() - i,
    {
        let ghost rest = all.subrange(i as int, all.len() as int);
        let arg = args[i].as_str();
        assert(rest[0] == arg@);
        if str_eq(arg, "--config") {
            if i + 1 >= args.len() {
                return Err(ArgsError::MissingConfigPath);
            }
            config_path = Some(args[i + 1].clone());
            assert(rest[1] == args@[i + 1]@);
            assert(rest.subrange(2, rest.len() as int) =~= all.subrange(
                i + 2,
                all.len() as int,
            ));
            i = i + 2;
        } else if str_eq(arg, "-h") || str_eq(arg, "--help") {
            return Ok(CliCommand::Help);
        } else {
            return Err(ArgsError::UnknownArgument(arg.to_string()));
        }
    }
    assert(all.subrange(i as int, all.len() as int) =~= Seq::<Seq<char>>::empty());
    Ok(CliCommand::Run(config_path))
}

/// The arguments are read as their texts, one for one and in order.
pub proof fn lemma_arg_texts(args: Seq<String>)
    ensures
        arg_texts(args).len() == args.len(),
        forall|i: int| 0 <= i < args.len() ==> #[trigger] arg_texts(args)[i] == args[i]@,
{
}

/// A result of `parse_args` carries its meaning faithfully: each kind of
/// result stands for the outcome of the same kind, with the same text.
pub proof fn lemma_outcome_of_result(r: Result<CliCommand, ArgsError>)
    ensures
        outcome_of(r) == ArgsOutcome::Help <==> r matches Ok(CliCommand::Help),
        outcome_of(r) == ArgsOutcome::Run(None) <==> r matches Ok(CliCommand::Run(None)),
        outcome_of(r) == ArgsOutcome::MissingConfigPath <==> r matches Err(
            ArgsError::MissingConfigPath,
        ),
        r matches Ok(CliCommand::Run(Some(p))) ==> outcome_of(r) == ArgsOutcome::Run(Some(p@)),
        r matches Err(ArgsError::UnknownArgument(a)) ==> outcome_of(r)
            == ArgsOutcome::UnknownArgument(a@),
        outcome_of(r) is Run ==> r matches Ok(CliCommand::Run(_)),
        outcome_of(r) is UnknownArgument ==> r matches Err(ArgsError::UnknownArgument(_)),
{
}

proof fn lemma_flag_names_differ()
    ensures
        "--config"@ != "-h"@,
        "--config"@ != "--help"@,
        "-h"@ != "--help"@,
{
    reveal_strlit("--config");
    reveal_strlit("-h");
    reveal_strlit("--help");
    assert("--config"@.len() != "-h"@.len());
    assert("--config"@[2] != "--help"@[2]);
    assert("-h"@.len() != "--help"@.len());
}

/// Help is recognised wherever it is read: whatever `--config` named before
/// and whatever follows, `-h` or `--help` asks for the usage.
pub proof fn lemma_help_anywhere(rest: Seq<Seq<char>>, config: Option<Seq<char>>)
    ensures
        args_outcome(seq!["--help"@] + rest, config) == ArgsOutcome::Help,
        args_outcome(seq!["-h"@] + rest, config) == ArgsOutcome::Help,
{
    lemma_flag_names_differ();
    assert((seq!["--help"@] + rest)[0] == "--help"@);
    assert((seq!["-h"@] + rest)[0] == "-h"@);
}

/// `--config PATH` names the configuration file for what follows, replacing
/// any earlier one; the arguments after it are read on.
pub proof fn lemma_config_then_rest(path: Seq<char>, rest: Seq<Seq<char>>, config: Option<Seq<char>>)
    ensures
        args_outcome(seq!["--config"@, path] + rest, config) == args_outcome(rest, Some(path)),
{
    let all = seq!["--config"@, path] + rest;
    assert(all[0] == "--config"@);
    assert(all[1] == path);
    assert(all.subrange(2, all.len() as int) =~= rest);
}

/// The end of the arguments runs the writer with the last `--config` path, if any.
pub proof fn lemma_end_runs(config: Option<Seq<char>>)
    ensures
        args_outcome(Seq::empty(), config) == ArgsOutcome::Run(config),
{
}

/// A trailing `--config` with no path after it is refused.
pub proof fn lemma_config_without_path(config: Option<Seq<char>>)
    ensures
        args_outcome(seq!["--config"@], config) == ArgsOutcome::MissingConfigPath,
{
    assert(seq!["--config"@][0] == "--config"@);
}

/// Any other argument is refused and named, whatever follows it.
pub proof fn lemma_other_argument_refused(
    arg: Seq<char>,
    rest: Seq<Seq<char>>,
    config: Option<Seq<char>>,
)
    requires
        arg != "--config"@,
        arg != "-h"@,
        arg != "--help"@,
    ensures
        args_outcome(seq![arg] + rest, config) == ArgsOutcome::UnknownArgument(arg),
{
    assert((seq![arg] + rest)[0] == arg);
}

impl ArgsError {
    /// The message reported for this error.
    pub fn message(&self) -> (m: String)
        ensures
            match self {
                ArgsError::MissingConfigPath => m@ == "--config にパスが必要です"@,
                ArgsError::UnknownArgument(a) => m@ == "不明な引数: "@ + a@
                    + "（--config PATH のみ対応）"@,
            },
    {
        match self {
            ArgsError::MissingConfigPath => String::from_str("--config にパスが必要です"),
            ArgsError::UnknownArgument(a) => String::from_str("不明な引数: ").concat(
                a.as_str(),
            ).concat("（--config PATH のみ対応）"),
        }
    }
}

} // verus!
