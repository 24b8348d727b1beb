//! Parsing of the arguments that follow `ark lsp`.

use vstd::prelude::*;

verus! {

/// Parsed options for the `ark lsp` subcommand.
pub struct Options {
    /// File to log to. When `None`, logs go to stderr (never stdout, which
    /// carries the LSP frames).
    pub log_file: Option<String>,
    /// Arguments passed through to R after a `--` separator.
    pub r_args: Vec<String>,
}

/// Outcome of parsing the `ark lsp` arguments.
pub enum ParsedArgs {
    /// `--help` was requested; the caller should print usage and exit 0.
    Help,
    /// The arguments parsed into a set of options to run with.
    Options(Options),
}

/// Why the `ark lsp` arguments were rejected.
pub enum ArgsError {
    /// `--log` was the last argument, so no file followed it.
    MissingLogFile,
    /// An argument that is neither `--help`, `--log` nor `--`.
    UnknownArgument(String),
}

/// What parsing a list of arguments yields, over plain sequences.
pub enum ArgsOutcome {
    Help,
    Run { log_file: Option<Seq<char>>, r_args: Seq<Seq<char>> },
    MissingLogFile,
    Unknown(Seq<char>),
}

/// Parse `args`, given the log file chosen by the arguments already consumed.
///
/// `--help` stops parsing, `--log FILE` sets the log file (the last one wins),
/// `--` passes everything after it through to R verbatim, and any other
/// argument is rejected.
pub open spec fn parse_from(args: Seq<Seq<char>>, log_file: Option<Seq<char>>) -> ArgsOutcome
    decreases args.len(),
{
    if args.len() == 0 {
        ArgsOutcome::Run { log_file, r_args: Seq::empty() }
    } else if args[0] == "--help"@ {
        ArgsOutcome::Help
    } else if args[0] == "--log"@ {
        if args.len() < 2 {
            ArgsOutcome::MissingLogFile
        } else {
            parse_from(args.skip(2), Some(args[1]))
        }
    } else if args[0] == "--"@ {
        ArgsOutcome::Run { log_file, r_args: args.skip(1) }
    } else {
        ArgsOutcome::Unknown(args[0])
    }
}

/// The outcome of parsing the whole argument list after `ark lsp`.
pub open spec fn parse_args_spec(args: Seq<Seq<char>>) -> ArgsOutcome {
    parse_from(args, None)
}

/// The message that each rejection carries.
pub open spec fn error_message_spec(err: ArgsError) -> Seq<char> {
    match err {
        ArgsError::MissingLogFile => "A log file must be specified when using the `--log` argument."@,
        ArgsError::UnknownArgument(arg) => "Argument '"@ + arg@ + "' unknown."@,
    }
}

/// The outcome that a result of [`parse_args`] stands for.
pub open spec fn outcome_of(result: Result<ParsedArgs, ArgsError>) -> ArgsOutcome {
    match result {
        Ok(ParsedArgs::Help) => ArgsOutcome::Help,
        Ok(ParsedArgs::Options(options)) => ArgsOutcome::Run {
            log_file: options.log_file.deep_view(),
            r_args: options.r_args.deep_view(),
        },
        Err(ArgsError::MissingLogFile) => ArgsOutcome::MissingLogFile,
        Err(ArgsError::UnknownArgument(arg)) => ArgsOutcome::Unknown(arg@),
    }
}

impl ArgsError {
    /// The human-readable description of the error.
    pub fn message(&self) -> (msg: String)
        ensures
            msg@ == error_message_spec(*self),
    {
        match self {
            ArgsError::MissingLogFile => String::from_str(
                "A log file must be specified when using the `--log` argument.",
            ),
            ArgsError::UnknownArgument(arg) => {
                let mut msg = String::from_str("Argument '");
                msg.append(arg.as_str());
                msg.append("' unknown.");
                msg
            },
        }
    }
}

proof fn lemma_skip_skip<A>(s: Seq<A>, i: int, j: int)
    requires
        0 <= i,
        0 <= j,
        i + j <= s.len(),
    ensures
        s.skip(i).skip(j) == s.skip(i + j),
{
    assert(s.skip(i).skip(j) =~= s.skip(i + j));
}

/// Parse the arguments that follow `ark lsp`.
///
/// Recognizes `--log FILE`, `--help`, and a `--` separator after which the
/// remaining arguments are passed through to R. Any other argument is an
/// error.
pub fn parse_args(args: Vec<String>) -> (result: Result<ParsedArgs, ArgsError>)
    ensures
        outcome_of(result) == parse_args_spec(args.deep_view()),
{
    let ghost all = args.deep_view();
    let help_flag = String::from_str("--help");
    let log_flag = String::from_str("--log");
    let separator = String::from_str("--");
    let mut log_file: Option<String> = None;
    let mut i: usize = 0;
    assert(all.skip(0) =~= all);
    while i < args.len()
        invariant
            i <= args.len(),
            all == args.deep_view(),
            help_flag@ == "--help"@,
            log_flag@ == "--log"@,
            separator@ == "--"@,
            parse_from(all, None) == parse_from(all.skip(i as int), log_file.deep_view()),
        decreases args.len() - i,
    {
        let ghost rest = all.skip(i as int);
        assert(rest[0] == args[i as int]@);
        let arg = &args[i];
        if *arg == help_flag {
            return Ok(ParsedArgs::Help);
        } else if *arg == log_flag {
            if i + 1 >= args.len() {
                return Err(ArgsError::MissingLogFile);
            }
            assert(rest[1] == args[i + 1]@);
            proof {
                lemma_skip_skip(all, i as int, 2);
            }
            log_file = Some(args[i + 1].clone());
            i = i + 2;
        } else if *arg == separator {
            let mut r_args: Vec<String> = Vec::new();
            let mut j: usize = i + 1;
            while j < args.len()
                invariant
                    i < j <= args.len(),
                    all == args.deep_view(),
                    r_args.deep_view() == all.subrange(i + 1, j as int),
                decreases args.len() - j,
            {
                let ghost before = r_args.deep_view();
                let item = args[j].clone();
                assert(item@ == all[j as int]);
                r_args.push(item);
                assert(r_args.deep_view() =~= before.push(item@));
                assert(r_args.deep_view() =~= all.subrange(i + 1, j + 1));
                j = j + 1;
            }
            assert(rest.skip(1) =~= all.subrange(i + 1, all.len() as int));
            return Ok(ParsedArgs::Options(Options { log_file, r_args }));
        } else {
            return Err(ArgsError::UnknownArgument(arg.clone()));
        }
    }
    assert(all.skip(i as int).len() == 0);
    let r_args: Vec<String> = Vec::new();
    assert(r_args.deep_view() =~= Seq::<Seq<char>>::empty());
    Ok(ParsedArgs::Options(Options { log_file, r_args }))
}

/// The three recognized arguments are distinct from one another.
proof fn lemma_flags_distinct()
    ensures
        "--help"@ != "--log"@,
        "--help"@ != "--"@,
        "--log"@ != "--"@,
{
    reveal_strlit("--help");
    reveal_strlit("--log");
    reveal_strlit("--");
    assert("--help"@.len() != "--log"@.len());
    assert("--help"@.len() != "--"@.len());
    assert("--log"@.len() != "--"@.len());
}

/// Whether `args` is a run of `--log FILE` pairs and nothing else.
pub open spec fn is_log_options(args: Seq<Seq<char>>) -> bool
    decreases args.len(),
{
    if args.len() == 0 {
        true
    } else {
        args.len() >= 2 && args[0] == "--log"@ && is_log_options(args.skip(2))
    }
}

/// The log file that a run of `--log FILE` pairs selects, starting from
/// `log_file`: the file of the last pair, if there is one.
pub open spec fn last_log_file(args: Seq<Seq<char>>, log_file: Option<Seq<char>>) -> Option<Seq<char>> {
    if args.len() == 0 {
        log_file
    } else {
        Some(args.last())
    }
}

/// A run of `--log FILE` pairs only records the last file and then hands the
/// remaining arguments on to be parsed as usual.
pub proof fn lemma_log_options_prefix(pre: Seq<Seq<char>>, tail: Seq<Seq<char>>, log_file: Option<Seq<char>>)
    requires
        is_log_options(pre),
    ensures
        parse_from(pre + tail, log_file) == parse_from(tail, last_log_file(pre, log_file)),
    decreases pre.len(),
{
    lemma_flags_distinct();
    if pre.len() > 0 {
        let whole = pre + tail;
        assert(whole[0] == pre[0]);
        assert(whole[1] == pre[1]);
        assert(whole.skip(2) =~= pre.skip(2) + tail);
        lemma_log_options_prefix(pre.skip(2), tail, Some(pre[1]));
        if pre.skip(2).len() > 0 {
            assert(pre.skip(2).last() == pre.last());
        }
    } else {
        assert(pre + tail =~= tail);
    }
}

/// Law: `--help` wins over every argument that follows it. Once a list of
/// arguments parses as a request for help, appending more arguments, valid or
/// not, still yields help.
pub proof fn lemma_help_wins_over_later_args(args: Seq<Seq<char>>, more: Seq<Seq<char>>)
    requires
        parse_args_spec(args) == ArgsOutcome::Help,
    ensures
        parse_args_spec(args + more) == ArgsOutcome::Help,
{
    lemma_help_is_kept(args, more, None);
}

proof fn lemma_help_is_kept(args: Seq<Seq<char>>, more: Seq<Seq<char>>, log_file: Option<Seq<char>>)
    requires
        parse_from(args, log_file) == ArgsOutcome::Help,
    ensures
        parse_from(args + more, log_file) == ArgsOutcome::Help,
    decreases args.len(),
{
    lemma_flags_distinct();
    let whole = args + more;
    assert(whole[0] == args[0]);
    if args[0] == "--log"@ {
        assert(whole[1] == args[1]);
        assert(whole.skip(2) =~= args.skip(2) + more);
        lemma_help_is_kept(args.skip(2), more, Some(args[1]));
    }
}

/// Law: everything after the first `--` separator reaches R verbatim, however
/// it looks, and the log file is the one given by the last `--log` before it.
pub proof fn lemma_passthrough_after_separator(pre: Seq<Seq<char>>, rest: Seq<Seq<char>>)
    requires
        is_log_options(pre),
    ensures
        parse_args_spec(pre + seq!["--"@] + rest) == (ArgsOutcome::Run {
            log_file: last_log_file(pre, None),
            r_args: rest,
        }),
{
    lemma_flags_distinct();
    let tail = seq!["--"@] + rest;
    assert(pre + seq!["--"@] + rest =~= pre + tail);
    lemma_log_options_prefix(pre, tail, None);
    assert(tail[0] == "--"@);
    assert(tail.skip(1) =~= rest);
}

/// Law: `--log FILE` pairs alone select the last file and pass nothing to R.
pub proof fn lemma_log_options_alone(pre: Seq<Seq<char>>)
    requires
        is_log_options(pre),
    ensures
        parse_args_spec(pre) == (ArgsOutcome::Run {
            log_file: last_log_file(pre, None),
            r_args: Seq::<Seq<char>>::empty(),
        }),
{
    lemma_log_options_prefix(pre, Seq::empty(), None);
    assert(pre + Seq::<Seq<char>>::empty() =~= pre);
}

/// Law: an argument that is not `--help`, `--log` or `--`, met where an option
/// is expected, is rejected and reported, whatever follows it.
pub proof fn lemma_unknown_argument_rejected(pre: Seq<Seq<char>>, arg: Seq<char>, rest: Seq<Seq<char>>)
    requires
        is_log_options(pre),
        arg != "--help"@,
        arg != "--log"@,
        arg != "--"@,
    ensures
        parse_args_spec(pre + seq![arg] + rest) == ArgsOutcome::Unknown(arg),
{
    let tail = seq![arg] + rest;
    assert(pre + seq![arg] + rest =~= pre + tail);
    lemma_log_options_prefix(pre, tail, None);
    assert(tail[0] == arg);
}

/// Law: a trailing `--log` with no file after it is always rejected.
pub proof fn lemma_trailing_log_flag_rejected(pre: Seq<Seq<char>>)
    requires
        is_log_options(pre),
    ensures
        parse_args_spec(pre + seq!["--log"@]) == ArgsOutcome::MissingLogFile,
{
    lemma_flags_distinct();
    lemma_log_options_prefix(pre, seq!["--log"@], None);
}

/// Law: `--help` wherever an option is expected means help, whatever came
/// before it (any run of `--log FILE` pairs) and whatever follows it.
pub proof fn lemma_help_at_any_option_position(pre: Seq<Seq<char>>, rest: Seq<Seq<char>>)
    requires
        is_log_options(pre),
    ensures
        parse_args_spec(pre + seq!["--help"@] + rest) == ArgsOutcome::Help,
{
    lemma_flags_distinct();
    let tail = seq!["--help"@] + rest;
    assert(pre + seq!["--help"@] + rest =~= pre + tail);
    lemma_log_options_prefix(pre, tail, None);
    assert(tail[0] == "--help"@);
}

} // verus!
