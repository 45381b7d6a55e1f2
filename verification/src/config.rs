//! Command-line and environment configuration of a harness run.

use vstd::prelude::*;
use crate::profile::{Profile, profile_name, profile_named, iterations_for};
use crate::text::text_is;

verus! {

/// Whether `c` is an ASCII decimal digit.
pub open spec fn is_digit(c: char) -> bool {
    48 <= (c as u32) <= 57
}

/// The number that a string of decimal digits denotes.
pub open spec fn decimal_value(digits: Seq<char>) -> nat
    decreases digits.len(),
{
    if digits.len() == 0 {
        0
    } else {
        decimal_value(digits.drop_last()) * 10 + ((digits.last() as u32) - 48) as nat
    }
}

/// A string with one leading `+` removed, if it has one.
pub open spec fn unsigned_digits(text: Seq<char>) -> Seq<char> {
    if text.len() > 0 && text[0] == '+' {
        text.drop_first()
    } else {
        text
    }
}

/// The `u64` that a string denotes: an optional `+` followed by at least
/// one decimal digit and nothing else, of a value that fits in 64 bits.
pub open spec fn parsed_u64(text: Seq<char>) -> Option<u64> {
    let digits = unsigned_digits(text);
    if digits.len() > 0 && (forall|i: int| 0 <= i < digits.len() ==> is_digit(#[trigger] digits[i]))
        && decimal_value(digits) <= u64::MAX {
        Some(decimal_value(digits) as u64)
    } else {
        None
    }
}

/// Appending digits to a string of digits never lowers its value.
pub proof fn lemma_decimal_prefix_le(digits: Seq<char>, k: int)
    requires
        0 <= k <= digits.len(),
        forall|i: int| 0 <= i < digits.len() ==> is_digit(#[trigger] digits[i]),
    ensures
        decimal_value(digits.take(k)) <= decimal_value(digits),
    decreases digits.len(),
{
    if k == digits.len() {
        assert(digits.take(k) =~= digits);
    } else {
        let prefix = digits.drop_last();
        assert forall|i: int| 0 <= i < prefix.len() implies is_digit(#[trigger] prefix[i]) by {
            assert(prefix[i] == digits[i]);
        }
        lemma_decimal_prefix_le(prefix, k);
        assert(prefix.take(k) =~= digits.take(k));
    }
}

/// Reads the `u64` that `text` denotes, as `str::parse::<u64>` does.
pub fn parse_u64(text: &str) -> (value: Option<u64>)
    ensures
        value == parsed_u64(text@),
{
    let n = text.unicode_len();
    let mut start: usize = 0;
    if n > 0 && (text.get_char(0) as u32) == 43 {
        start = 1;
    }
    let ghost digits = unsigned_digits(text@);
    proof {
        assert(digits =~= text@.subrange(start as int, n as int));
    }
    if start == n {
        return None;
    }
    let mut i: usize = start;
    let mut acc: u64 = 0;
    while i < n
        invariant
            start <= i <= n,
            n == text@.len(),
            digits == text@.subrange(start as int, n as int),
            digits == unsigned_digits(text@),
            acc as nat == decimal_value(digits.take(i - start)),
            forall|j: int| 0 <= j < i - start ==> is_digit(#[trigger] digits[j]),
        decreases n - i,
    {
        let code = text.get_char(i) as u32;
        let ghost k = i - start;
        proof {
            assert(digits[k] == text@[i as int]);
            assert(digits.take(k + 1).drop_last() =~= digits.take(k));
        }
        if code < 48 || code > 57 {
            return None;
        }
        let d = (code - 48) as u64;
        let next = match acc.checked_mul(10) {
            Some(t) => t.checked_add(d),
            None => None,
        };
        match next {
            Some(v) => {
                acc = v;
            },
            None => {
                proof {
                    assert(decimal_value(digits.take(k + 1)) > u64::MAX);
                    if forall|j: int| 0 <= j < digits.len() ==> is_digit(#[trigger] digits[j]) {
                        lemma_decimal_prefix_le(digits, k + 1);
                    }
                }
                return None;
            },
        }
        i = i + 1;
    }
    proof {
        assert(digits.take(n - start) =~= digits);
    }
    Some(acc)
}

/// An option that needs a value after it.
#[derive(Clone, Copy, Debug, PartialEq, Eq, Structural)]
pub enum Flag {
    /// `--profile`
    Profile,
    /// `--iterations`
    Iterations,
    /// `--out`
    Out,
}

/// Why a configuration was refused.
#[derive(Debug)]
pub enum ConfigError {
    /// An option was the last argument, with no value after it.
    MissingValue(Flag),
    /// The value after `--iterations` is not a `u64`.
    InvalidIterations(String),
    /// An argument that is no known option.
    UnknownArgument(String),
    /// The selected profile name names no profile.
    UnknownProfile(String),
}

/// The settings of one harness run.
#[derive(Debug)]
pub struct Config {
    pub profile: Profile,
    pub iterations: u64,
    pub output_path: String,
}

/// What the command line asks for.
#[derive(Debug)]
pub enum CliCommand {
    /// Run the harness with these settings.
    Run(Config),
    /// Print the usage text and stop.
    Help,
}

/// The settings gathered while reading the arguments.
pub struct ArgState {
    pub profile: Seq<char>,
    pub iterations: Option<u64>,
    pub out: Option<Seq<char>>,
}

/// Where reading the arguments stops.
pub enum ScanEnd {
    /// Every argument was read.
    Finished(ArgState),
    /// `--help` or `-h` was met.
    Help,
    /// An option had no value after it.
    MissingValue(Flag),
    /// The value after `--iterations` is not a `u64`.
    InvalidIterations(Seq<char>),
    /// An argument that is no known option.
    UnknownArgument(Seq<char>),
}

/// Reads `args` from left to right, starting from `state`.
pub open spec fn scan_arguments(state: ArgState, args: Seq<Seq<char>>) -> ScanEnd
    decreases args.len(),
{
    if args.len() == 0 {
        ScanEnd::Finished(state)
    } else {
        let arg = args[0];
        let rest = args.drop_first();
        if arg == "--profile"@ {
            if rest.len() == 0 {
                ScanEnd::MissingValue(Flag::Profile)
            } else {
                scan_arguments(ArgState { profile: rest[0], ..state }, rest.drop_first())
            }
        } else if arg == "--iterations"@ {
            if rest.len() == 0 {
                ScanEnd::MissingValue(Flag::Iterations)
            } else {
                match parsed_u64(rest[0]) {
                    Some(n) => scan_arguments(
                        ArgState { iterations: Some(n), ..state },
                        rest.drop_first(),
                    ),
                    None => ScanEnd::InvalidIterations(rest[0]),
                }
            }
        } else if arg == "--out"@ {
            if rest.len() == 0 {
                ScanEnd::MissingValue(Flag::Out)
            } else {
                scan_arguments(ArgState { out: Some(rest[0]), ..state }, rest.drop_first())
            }
        } else if arg == "--help"@ || arg == "-h"@ {
            ScanEnd::Help
        } else {
            ScanEnd::UnknownArgument(arg)
        }
    }
}

/// The trace file that a profile writes when no path is given.
pub open spec fn default_output_path(profile: Profile) -> Seq<char> {
    "artifacts/banking-jitter/"@ + profile_name(profile) + "/trace.json"@
}

/// What the command line asks for, over plain values.
pub enum Outcome {
    Run { profile: Profile, iterations: u64, output_path: Seq<char> },
    Help,
    MissingValue(Flag),
    InvalidIterations(Seq<char>),
    UnknownArgument(Seq<char>),
    UnknownProfile(Seq<char>),
}

/// The view of an optional string.
pub open spec fn opt_text(value: Option<String>) -> Option<Seq<char>> {
    match value {
        Some(s) => Some(s@),
        None => None,
    }
}

/// The views of a sequence of strings.
pub open spec fn texts(values: Seq<String>) -> Seq<Seq<char>> {
    values.map_values(|s: String| s@)
}

/// The settings before any argument is read: the profile that the
/// environment names, else `baseline`, and the output path that the
/// environment names, if any.
pub open spec fn initial_state(env_profile: Option<Seq<char>>, env_out: Option<Seq<char>>) -> ArgState {
    ArgState {
        profile: match env_profile {
            Some(p) => p,
            None => "baseline"@,
        },
        iterations: None,
        out: env_out,
    }
}

/// What a finished reading of the arguments asks for: the iteration count
/// defaults to the profile's own, and the output path to the profile's
/// trace file.
pub open spec fn outcome_after(end: ScanEnd) -> Outcome {
    match end {
        ScanEnd::Finished(state) => match profile_named(state.profile) {
            Some(profile) => Outcome::Run {
                profile,
                iterations: match state.iterations {
                    Some(n) => n,
                    None => iterations_for(profile),
                },
                output_path: match state.out {
                    Some(out) => out,
                    None => default_output_path(profile),
                },
            },
            None => Outcome::UnknownProfile(state.profile),
        },
        ScanEnd::Help => Outcome::Help,
        ScanEnd::MissingValue(flag) => Outcome::MissingValue(flag),
        ScanEnd::InvalidIterations(value) => Outcome::InvalidIterations(value),
        ScanEnd::UnknownArgument(arg) => Outcome::UnknownArgument(arg),
    }
}

/// What the command line `args` asks for, given the profile and the output
/// path that the environment names.
pub open spec fn cli_outcome(
    env_profile: Option<Seq<char>>,
    env_out: Option<Seq<char>>,
    args: Seq<Seq<char>>,
) -> Outcome {
    outcome_after(scan_arguments(initial_state(env_profile, env_out), args))
}

/// The plain-value view of a configuration result.
pub open spec fn outcome_of(result: Result<CliCommand, ConfigError>) -> Outcome {
    match result {
        Ok(CliCommand::Run(config)) => Outcome::Run {
            profile: config.profile,
            iterations: config.iterations,
            output_path: config.output_path@,
        },
        Ok(CliCommand::Help) => Outcome::Help,
        Err(ConfigError::MissingValue(flag)) => Outcome::MissingValue(flag),
        Err(ConfigError::InvalidIterations(value)) => Outcome::InvalidIterations(value@),
        Err(ConfigError::UnknownArgument(arg)) => Outcome::UnknownArgument(arg@),
        Err(ConfigError::UnknownProfile(name)) => Outcome::UnknownProfile(name@),
    }
}

/// The trace file that `profile` writes when no path is given.
pub fn default_output_path_for(profile: Profile) -> (path: String)
    ensures
        path@ == default_output_path(profile),
{
    let mut path = "artifacts/banking-jitter/".to_owned();
    path.append(profile.as_str());
    path.append("/trace.json");
    path
}

impl Config {
    /// Reads the settings of a run from the profile and output path that the
    /// environment names and from the command-line arguments (without the
    /// program name).
    pub fn from_env_and_args(
        env_profile: Option<String>,
        env_out: Option<String>,
        args: Vec<String>,
    ) -> (result: Result<CliCommand, ConfigError>)
        ensures
            outcome_of(result) == cli_outcome(opt_text(env_profile), opt_text(env_out), texts(args@)),
    {
        let ghost all = texts(args@);
        let ghost expected = cli_outcome(opt_text(env_profile), opt_text(env_out), all);
        let mut profile: String = match env_profile {
            Some(p) => p,
            None => "baseline".to_owned(),
        };
        let mut iterations: Option<u64> = None;
        let mut output_path: Option<String> = env_out;
        let n = args.len();
        let mut i: usize = 0;
        proof {
            assert(all.skip(0) =~= all);
        }
        while i < n
            invariant
                n == args.len(),
                all == texts(args@),
                expected == cli_outcome(opt_text(env_profile), opt_text(env_out), all),
                i <= n,
                expected == outcome_after(
                    scan_arguments(
                        ArgState { profile: profile@, iterations, out: opt_text(output_path) },
                        all.skip(i as int),
                    ),
                ),
            decreases n - i,
        {
            let ghost state = ArgState {
                profile: profile@,
                iterations,
                out: opt_text(output_path),
            };
            let ghost rest = all.skip(i as int);
            proof {
                assert(rest[0] == args@[i as int]@);
                assert(rest.drop_first() =~= all.skip(i + 1));
                if i + 1 < n {
                    assert(rest.drop_first()[0] == args@[i + 1]@);
                    assert(rest.drop_first().drop_first() =~= all.skip(i + 2));
                }
            }
            let arg = args[i].as_str();
            if text_is(arg, "--profile") {
                if i + 1 >= n {
                    return Err(ConfigError::MissingValue(Flag::Profile));
                }
                profile = args[i + 1].clone();
                i = i + 2;
            } else if text_is(arg, "--iterations") {
                if i + 1 >= n {
                    return Err(ConfigError::MissingValue(Flag::Iterations));
                }
                match parse_u64(args[i + 1].as_str()) {
                    Some(value) => {
                        iterations = Some(value);
                    },
                    None => {
                        return Err(ConfigError::InvalidIterations(args[i + 1].clone()));
                    },
                }
                i = i + 2;
            } else if text_is(arg, "--out") {
                if i + 1 >= n {
                    return Err(ConfigError::MissingValue(Flag::Out));
                }
                output_path = Some(args[i + 1].clone());
                i = i + 2;
            } else if text_is(arg, "--help") || text_is(arg, "-h") {
                return Ok(CliCommand::Help);
            } else {
                return Err(ConfigError::UnknownArgument(args[i].clone()));
            }
        }
        proof {
            assert(all.skip(i as int) =~= Seq::<Seq<char>>::empty());
        }
        let profile = match Profile::parse(profile.as_str()) {
            Ok(p) => p,
            Err(unknown) => {
                return Err(ConfigError::UnknownProfile(unknown.name));
            },
        };
        let iterations = match iterations {
            Some(value) => value,
            None => profile.default_iterations(),
        };
        let output_path = match output_path {
            Some(path) => path,
            None => default_output_path_for(profile),
        };
        Ok(CliCommand::Run(Config { profile, iterations, output_path }))
    }

    /// The path of the trace file.
    pub fn output_path(&self) -> (path: String)
        ensures
            path@ == self.output_path@,
    {
        self.output_path.clone()
    }
}

/// Dropping the first argument keeps an argument out that was out.
proof fn lemma_tail_lacks(args: Seq<Seq<char>>, absent: Seq<char>)
    requires
        args.len() > 0,
        !args.contains(absent),
    ensures
        !args.drop_first().contains(absent),
{
    if args.drop_first().contains(absent) {
        let k = choose|k: int| 0 <= k < args.drop_first().len() && args.drop_first()[k] == absent;
        assert(args[k + 1] == absent);
    }
}

/// The option names differ from one another.
proof fn lemma_option_names_differ()
    ensures
        "--profile"@ != "--iterations"@,
        "--profile"@ != "--out"@,
        "--iterations"@ != "--out"@,
        "--help"@ != "--iterations"@,
        "--help"@ != "--profile"@,
        "--help"@ != "--out"@,
        "-h"@ != "--iterations"@,
        "-h"@ != "--profile"@,
        "-h"@ != "--out"@,
{
    reveal_strlit("--profile");
    reveal_strlit("--iterations");
    reveal_strlit("--out");
    reveal_strlit("--help");
    reveal_strlit("-h");
    assert("--profile"@[2] != "--out"@[2]);
    assert("--help"@[2] != "--out"@[2]);
    assert("-h"@.len() != "--iterations"@.len());
    assert("-h"@.len() != "--profile"@.len());
    assert("-h"@.len() != "--out"@.len());
}

/// Reading arguments among which an option never appears leaves the setting
/// of that option as it was.
pub proof fn lemma_scan_keeps_unnamed_settings(state: ArgState, args: Seq<Seq<char>>)
    ensures
        match scan_arguments(state, args) {
            ScanEnd::Finished(end) => {
                &&& !args.contains("--iterations"@) ==> end.iterations == state.iterations
                &&& !args.contains("--profile"@) ==> end.profile == state.profile
                &&& !args.contains("--out"@) ==> end.out == state.out
            },
            _ => true,
        },
    decreases args.len(),
{
    if args.len() > 0 {
        lemma_option_names_differ();
        let arg = args[0];
        let rest = args.drop_first();
        assert(args.contains(arg));
        if rest.len() > 0 {
            let tail = rest.drop_first();
            assert(rest.contains(rest[0]));
            assert(args.contains(rest[0])) by {
                assert(args[1] == rest[0]);
            }
            if !args.contains("--iterations"@) {
                lemma_tail_lacks(args, "--iterations"@);
                lemma_tail_lacks(rest, "--iterations"@);
            }
            if !args.contains("--profile"@) {
                lemma_tail_lacks(args, "--profile"@);
                lemma_tail_lacks(rest, "--profile"@);
            }
            if !args.contains("--out"@) {
                lemma_tail_lacks(args, "--out"@);
                lemma_tail_lacks(rest, "--out"@);
            }
            if arg == "--profile"@ {
                lemma_scan_keeps_unnamed_settings(ArgState { profile: rest[0], ..state }, tail);
            } else if arg == "--iterations"@ {
                match parsed_u64(rest[0]) {
                    Some(n) => lemma_scan_keeps_unnamed_settings(
                        ArgState { iterations: Some(n), ..state },
                        tail,
                    ),
                    None => {},
                }
            } else if arg == "--out"@ {
                lemma_scan_keeps_unnamed_settings(ArgState { out: Some(rest[0]), ..state }, tail);
            }
        }
    }
}

/// A valid count given with `--iterations` is the count of the run, whatever
/// options follow it (a later `--profile` included), as long as no later
/// `--iterations` replaces it.
pub proof fn lemma_iterations_kept(
    env_profile: Option<Seq<char>>,
    env_out: Option<Seq<char>>,
    value: Seq<char>,
    rest: Seq<Seq<char>>,
)
    requires
        parsed_u64(value) is Some,
        !rest.contains("--iterations"@),
    ensures
        match cli_outcome(env_profile, env_out, seq!["--iterations"@, value] + rest) {
            Outcome::Run { iterations, .. } => iterations == parsed_u64(value).unwrap(),
            _ => true,
        },
{
    lemma_option_names_differ();
    let args = seq!["--iterations"@, value] + rest;
    let start = initial_state(env_profile, env_out);
    assert(args[0] == "--iterations"@);
    assert(args.drop_first()[0] == value);
    assert(args.drop_first().drop_first() =~= rest);
    let next = ArgState { iterations: parsed_u64(value), ..start };
    lemma_scan_keeps_unnamed_settings(next, rest);
}

/// A profile named with `--profile` is the profile of the run, whatever
/// options follow it, as long as no later `--profile` replaces it.
pub proof fn lemma_profile_kept(
    env_profile: Option<Seq<char>>,
    env_out: Option<Seq<char>>,
    name: Seq<char>,
    rest: Seq<Seq<char>>,
)
    requires
        !rest.contains("--profile"@),
    ensures
        match cli_outcome(env_profile, env_out, seq!["--profile"@, name] + rest) {
            Outcome::Run { profile, .. } => profile_named(name) == Some(profile),
            Outcome::UnknownProfile(unknown) => unknown == name && profile_named(name) is None,
            _ => true,
        },
{
    let args = seq!["--profile"@, name] + rest;
    let start = initial_state(env_profile, env_out);
    assert(args[0] == "--profile"@);
    assert(args.drop_first()[0] == name);
    assert(args.drop_first().drop_first() =~= rest);
    lemma_scan_keeps_unnamed_settings(ArgState { profile: name, ..start }, rest);
}

/// A path given with `--out` is the run's trace path, whatever options
/// follow it, as long as no later `--out` replaces it.
pub proof fn lemma_output_path_kept(
    env_profile: Option<Seq<char>>,
    env_out: Option<Seq<char>>,
    path: Seq<char>,
    rest: Seq<Seq<char>>,
)
    requires
        !rest.contains("--out"@),
    ensures
        match cli_outcome(env_profile, env_out, seq!["--out"@, path] + rest) {
            Outcome::Run { output_path, .. } => output_path == path,
            _ => true,
        },
{
    lemma_option_names_differ();
    let args = seq!["--out"@, path] + rest;
    let start = initial_state(env_profile, env_out);
    assert(args[0] == "--out"@);
    assert(args.drop_first()[0] == path);
    assert(args.drop_first().drop_first() =~= rest);
    lemma_scan_keeps_unnamed_settings(ArgState { out: Some(path), ..start }, rest);
}

} // verus!
