//! The command line of the daemon.

use crate::number::{parse_unsigned, unsigned_up_to};
use crate::text::{after_prefix, same_text, strip_prefix};
use vstd::prelude::*;

verus! {

pub const DEFAULT_CONFIG_PATH: &'static str = "/etc/rockpi-penta.conf";

pub const DEFAULT_ENV_FILE: &'static str = "/etc/rockpi-penta.env";

pub const DEFAULT_CPU_TEMP_PATH: &'static str = "/sys/class/thermal/thermal_zone0/temp";

/// The duration of a manual fan test, in seconds, unless the command line gives one.
pub const DEFAULT_TEST_FAN_SECONDS: u64 = 10;

/// What the command line asks for.
#[derive(Debug, Clone, PartialEq, Eq)]
pub struct Args {
    pub config_path: String,
    pub env_file: String,
    pub cpu_temp_path: String,
    pub dry_run: bool,
    pub once: bool,
    pub help: bool,
    pub version: bool,
    pub test_fan_duty: Option<u8>,
    pub test_fan_seconds: u64,
}

/// An argument as the system hands it over.
#[derive(Debug, Clone, PartialEq, Eq)]
pub enum CliArg {
    Utf8(String),
    /// An argument that is no text.
    NotUtf8,
}

/// The contents of [`Args`].
#[verifier::ext_equal]
pub struct ArgsView {
    pub config_path: Seq<char>,
    pub env_file: Seq<char>,
    pub cpu_temp_path: Seq<char>,
    pub dry_run: bool,
    pub once: bool,
    pub help: bool,
    pub version: bool,
    pub test_fan_duty: Option<u8>,
    pub test_fan_seconds: u64,
}

impl View for Args {
    type V = ArgsView;

    open spec fn view(&self) -> ArgsView {
        ArgsView {
            config_path: self.config_path@,
            env_file: self.env_file@,
            cpu_temp_path: self.cpu_temp_path@,
            dry_run: self.dry_run,
            once: self.once,
            help: self.help,
            version: self.version,
            test_fan_duty: self.test_fan_duty,
            test_fan_seconds: self.test_fan_seconds,
        }
    }
}

/// The text of an argument, where it is one.
pub open spec fn arg_text(arg: CliArg) -> Option<Seq<char>> {
    match arg {
        CliArg::Utf8(s) => Some(s@),
        CliArg::NotUtf8 => None,
    }
}

/// The texts of a list of arguments.
pub open spec fn arg_texts(args: Seq<CliArg>) -> Seq<Option<Seq<char>>> {
    Seq::new(args.len(), |i: int| arg_text(args[i]))
}

/// What an empty command line asks for.
pub open spec fn default_args() -> ArgsView {
    ArgsView {
        config_path: DEFAULT_CONFIG_PATH@,
        env_file: DEFAULT_ENV_FILE@,
        cpu_temp_path: DEFAULT_CPU_TEMP_PATH@,
        dry_run: false,
        once: false,
        help: false,
        version: false,
        test_fan_duty: None,
        test_fan_seconds: DEFAULT_TEST_FAN_SECONDS,
    }
}

/// A flag that takes a value.
#[derive(Debug, Clone, Copy, PartialEq, Eq, Structural)]
pub enum ValueFlag {
    Config,
    EnvFile,
    CpuTempPath,
    TestFanDuty,
    TestFanSeconds,
}

/// A flag as it is written on the command line.
pub open spec fn flag_name(flag: ValueFlag) -> Seq<char> {
    match flag {
        ValueFlag::Config => "--config"@,
        ValueFlag::EnvFile => "--env-file"@,
        ValueFlag::CpuTempPath => "--cpu-temp-path"@,
        ValueFlag::TestFanDuty => "--test-fan-duty"@,
        ValueFlag::TestFanSeconds => "--test-fan-seconds"@,
    }
}

/// A flag and the equals sign that its value may follow.
pub open spec fn flag_prefix(flag: ValueFlag) -> Seq<char> {
    match flag {
        ValueFlag::Config => "--config="@,
        ValueFlag::EnvFile => "--env-file="@,
        ValueFlag::CpuTempPath => "--cpu-temp-path="@,
        ValueFlag::TestFanDuty => "--test-fan-duty="@,
        ValueFlag::TestFanSeconds => "--test-fan-seconds="@,
    }
}

/// What an argument says.
pub enum ArgMeaning {
    Help,
    Version,
    DryRun,
    Once,
    /// The flag has the value that follows the equals sign.
    Inline { flag: ValueFlag, value: Seq<char> },
    /// The flag has the next argument as its value.
    Separate { flag: ValueFlag },
    Unknown,
}

/// What an argument says of one flag, where it names that flag.
pub open spec fn value_meaning(arg: Seq<char>, flag: ValueFlag) -> Option<ArgMeaning> {
    match after_prefix(arg, flag_prefix(flag)) {
        Some(value) => Some(ArgMeaning::Inline { flag, value }),
        None => if arg == flag_name(flag) {
            Some(ArgMeaning::Separate { flag })
        } else {
            None
        },
    }
}

/// What an argument says.
pub open spec fn arg_meaning(arg: Seq<char>) -> ArgMeaning {
    if arg == "--help"@ || arg == "-h"@ {
        ArgMeaning::Help
    } else if arg == "--version"@ || arg == "-V"@ {
        ArgMeaning::Version
    } else if arg == "--dry-run"@ {
        ArgMeaning::DryRun
    } else if arg == "--once"@ {
        ArgMeaning::Once
    } else if let Some(meaning) = value_meaning(arg, ValueFlag::Config) {
        meaning
    } else if let Some(meaning) = value_meaning(arg, ValueFlag::EnvFile) {
        meaning
    } else if let Some(meaning) = value_meaning(arg, ValueFlag::CpuTempPath) {
        meaning
    } else if let Some(meaning) = value_meaning(arg, ValueFlag::TestFanDuty) {
        meaning
    } else if let Some(meaning) = value_meaning(arg, ValueFlag::TestFanSeconds) {
        meaning
    } else {
        ArgMeaning::Unknown
    }
}

/// The percentage that a text stands for, or the error of the flag that has it as its value.
pub open spec fn percent_of(value: Seq<char>, flag: Seq<char>) -> Result<u8, Seq<char>> {
    match unsigned_up_to(value, 100) {
        Some(n) => Ok(n as u8),
        None => Err(flag + " must be an integer from 0 to 100"@),
    }
}

/// The seconds that a text stands for, or the error of the flag that has it as its value.
pub open spec fn seconds_of(value: Seq<char>, flag: Seq<char>) -> Result<u64, Seq<char>> {
    match unsigned_up_to(value, u64::MAX as nat) {
        None => Err(flag + " must be a positive integer"@),
        Some(n) => if n == 0 {
            Err(flag + " must be greater than zero"@)
        } else {
            Ok(n as u64)
        },
    }
}

/// `args` with a value for a flag.
pub open spec fn with_value(args: ArgsView, flag: ValueFlag, value: Seq<char>) -> Result<
    ArgsView,
    Seq<char>,
> {
    match flag {
        ValueFlag::Config => Ok(ArgsView { config_path: value, ..args }),
        ValueFlag::EnvFile => Ok(ArgsView { env_file: value, ..args }),
        ValueFlag::CpuTempPath => Ok(ArgsView { cpu_temp_path: value, ..args }),
        ValueFlag::TestFanDuty => match percent_of(value, flag_name(flag)) {
            Ok(percent) => Ok(ArgsView { test_fan_duty: Some(percent), ..args }),
            Err(e) => Err(e),
        },
        ValueFlag::TestFanSeconds => match seconds_of(value, flag_name(flag)) {
            Ok(seconds) => Ok(ArgsView { test_fan_seconds: seconds, ..args }),
            Err(e) => Err(e),
        },
    }
}

/// The value that follows a flag as an argument of its own: the first of `rest`.
pub open spec fn next_value(rest: Seq<Option<Seq<char>>>, flag: Seq<char>) -> Result<
    Seq<char>,
    Seq<char>,
> {
    if rest.len() == 0 {
        Err(flag + " requires a value"@)
    } else {
        match rest[0] {
            None => Err(flag + " value must be valid UTF-8"@),
            Some(value) => if value.len() == 0 {
                Err(flag + " value must not be empty"@)
            } else {
                Ok(value)
            },
        }
    }
}

/// `args` after the arguments `rest` were read from left to right, or the first error.
pub open spec fn args_after(args: ArgsView, rest: Seq<Option<Seq<char>>>) -> Result<
    ArgsView,
    Seq<char>,
>
    decreases rest.len(),
{
    if rest.len() == 0 {
        Ok(args)
    } else {
        match rest[0] {
            None => Err("arguments must be valid UTF-8"@),
            Some(arg) => match arg_meaning(arg) {
                ArgMeaning::Help => args_after(ArgsView { help: true, ..args }, rest.skip(1)),
                ArgMeaning::Version => args_after(
                    ArgsView { version: true, ..args },
                    rest.skip(1),
                ),
                ArgMeaning::DryRun => args_after(ArgsView { dry_run: true, ..args }, rest.skip(1)),
                ArgMeaning::Once => args_after(ArgsView { once: true, ..args }, rest.skip(1)),
                ArgMeaning::Inline { flag, value } => match with_value(args, flag, value) {
                    Err(e) => Err(e),
                    Ok(next) => args_after(next, rest.skip(1)),
                },
                ArgMeaning::Separate { flag } => match next_value(rest.skip(1), flag_name(flag)) {
                    Err(e) => Err(e),
                    Ok(value) => match with_value(args, flag, value) {
                        Err(e) => Err(e),
                        Ok(next) => args_after(next, rest.skip(2)),
                    },
                },
                ArgMeaning::Unknown => Err("unknown argument: "@ + arg),
            },
        }
    }
}

/// What a command line asks for. Its first argument is the name of the program.
pub open spec fn args_of(command_line: Seq<Option<Seq<char>>>) -> Result<ArgsView, Seq<char>> {
    if command_line.len() == 0 {
        Ok(default_args())
    } else {
        args_after(default_args(), command_line.skip(1))
    }
}

impl Default for Args {
    /// What an empty command line asks for.
    fn default() -> (args: Self)
        ensures
            args@ == default_args(),
    {
        Args {
            config_path: DEFAULT_CONFIG_PATH.to_owned(),
            env_file: DEFAULT_ENV_FILE.to_owned(),
            cpu_temp_path: DEFAULT_CPU_TEMP_PATH.to_owned(),
            dry_run: false,
            once: false,
            help: false,
            version: false,
            test_fan_duty: None,
            test_fan_seconds: DEFAULT_TEST_FAN_SECONDS,
        }
    }
}

fn flag_text(flag: ValueFlag) -> (s: &'static str)
    ensures
        s@ == flag_name(flag),
{
    match flag {
        ValueFlag::Config => "--config",
        ValueFlag::EnvFile => "--env-file",
        ValueFlag::CpuTempPath => "--cpu-temp-path",
        ValueFlag::TestFanDuty => "--test-fan-duty",
        ValueFlag::TestFanSeconds => "--test-fan-seconds",
    }
}

fn flag_prefix_text(flag: ValueFlag) -> (s: &'static str)
    ensures
        s@ == flag_prefix(flag),
{
    match flag {
        ValueFlag::Config => "--config=",
        ValueFlag::EnvFile => "--env-file=",
        ValueFlag::CpuTempPath => "--cpu-temp-path=",
        ValueFlag::TestFanDuty => "--test-fan-duty=",
        ValueFlag::TestFanSeconds => "--test-fan-seconds=",
    }
}

fn flag_error(flag: &str, problem: &str) -> (s: String)
    ensures
        s@ == flag@ + problem@,
{
    let mut s = flag.to_owned();
    s.append(problem);
    s
}

/// Reads the value of a flag that takes a percentage.
pub fn parse_percent(value: &str, flag: &str) -> (r: Result<u8, String>)
    ensures
        match r {
            Ok(percent) => percent_of(value@, flag@) == Ok::<u8, Seq<char>>(percent),
            Err(e) => percent_of(value@, flag@) == Err::<u8, Seq<char>>(e@),
        },
{
    match parse_unsigned(value, 100) {
        Some(n) => Ok(n as u8),
        None => Err(flag_error(flag, " must be an integer from 0 to 100")),
    }
}

/// Reads the value of a flag that takes a number of seconds.
pub fn parse_seconds(value: &str, flag: &str) -> (r: Result<u64, String>)
    ensures
        match r {
            Ok(seconds) => seconds_of(value@, flag@) == Ok::<u64, Seq<char>>(seconds),
            Err(e) => seconds_of(value@, flag@) == Err::<u64, Seq<char>>(e@),
        },
{
    match parse_unsigned(value, u64::MAX) {
        None => Err(flag_error(flag, " must be a positive integer")),
        Some(n) => if n == 0 {
            Err(flag_error(flag, " must be greater than zero"))
        } else {
            Ok(n)
        },
    }
}

/// Returns the value that a flag has as an argument of its own, at position `i`.
fn next_string<'a>(args: &'a [CliArg], i: usize, flag: &str) -> (r: Result<&'a str, String>)
    requires
        i <= args@.len(),
    ensures
        match r {
            Ok(value) => next_value(arg_texts(args@).skip(i as int), flag@) == Ok::<
                Seq<char>,
                Seq<char>,
            >(value@) && i < args@.len(),
            Err(e) => next_value(arg_texts(args@).skip(i as int), flag@) == Err::<
                Seq<char>,
                Seq<char>,
            >(e@),
        },
{
    if i == args.len() {
        return Err(flag_error(flag, " requires a value"));
    }
    assert(arg_texts(args@).skip(i as int)[0] == arg_text(args@[i as int]));
    match &args[i] {
        CliArg::NotUtf8 => Err(flag_error(flag, " value must be valid UTF-8")),
        CliArg::Utf8(value) => if value.as_str().is_empty() {
            Err(flag_error(flag, " value must not be empty"))
        } else {
            Ok(value.as_str())
        },
    }
}

impl Args {
    /// Gives a flag its value.
    fn set_value(self, flag: ValueFlag, value: &str) -> (r: Result<Self, String>)
        ensures
            match r {
                Ok(args) => with_value(self@, flag, value@) == Ok::<ArgsView, Seq<char>>(args@),
                Err(e) => with_value(self@, flag, value@) == Err::<ArgsView, Seq<char>>(e@),
            },
    {
        let mut args = self;
        match flag {
            ValueFlag::Config => {
                args.config_path = value.to_owned();
            },
            ValueFlag::EnvFile => {
                args.env_file = value.to_owned();
            },
            ValueFlag::CpuTempPath => {
                args.cpu_temp_path = value.to_owned();
            },
            ValueFlag::TestFanDuty => match parse_percent(value, flag_text(flag)) {
                Ok(percent) => {
                    args.test_fan_duty = Some(percent);
                },
                Err(e) => {
                    return Err(e);
                },
            },
            ValueFlag::TestFanSeconds => match parse_seconds(value, flag_text(flag)) {
                Ok(seconds) => {
                    args.test_fan_seconds = seconds;
                },
                Err(e) => {
                    return Err(e);
                },
            },
        }
        Ok(args)
    }
}

/// An argument that was understood.
enum ParsedArg<'a> {
    Help,
    Version,
    DryRun,
    Once,
    Inline { flag: ValueFlag, value: &'a str },
    Separate { flag: ValueFlag },
    Unknown,
}

impl<'a> ParsedArg<'a> {
    spec fn meaning(self) -> ArgMeaning {
        match self {
            ParsedArg::Help => ArgMeaning::Help,
            ParsedArg::Version => ArgMeaning::Version,
            ParsedArg::DryRun => ArgMeaning::DryRun,
            ParsedArg::Once => ArgMeaning::Once,
            ParsedArg::Inline { flag, value } => ArgMeaning::Inline { flag, value: value@ },
            ParsedArg::Separate { flag } => ArgMeaning::Separate { flag },
            ParsedArg::Unknown => ArgMeaning::Unknown,
        }
    }
}

fn parse_value_flag<'a>(arg: &'a str, flag: ValueFlag) -> (r: Option<ParsedArg<'a>>)
    ensures
        match r {
            Some(parsed) => value_meaning(arg@, flag) == Some(parsed.meaning()),
            None => value_meaning(arg@, flag) is None,
        },
{
    match strip_prefix(arg, flag_prefix_text(flag)) {
        Some(value) => Some(ParsedArg::Inline { flag, value }),
        None => if same_text(arg, flag_text(flag)) {
            Some(ParsedArg::Separate { flag })
        } else {
            None
        },
    }
}

fn parse_arg<'a>(arg: &'a str) -> (parsed: ParsedArg<'a>)
    ensures
        parsed.meaning() == arg_meaning(arg@),
{
    if same_text(arg, "--help") || same_text(arg, "-h") {
        ParsedArg::Help
    } else if same_text(arg, "--version") || same_text(arg, "-V") {
        ParsedArg::Version
    } else if same_text(arg, "--dry-run") {
        ParsedArg::DryRun
    } else if same_text(arg, "--once") {
        ParsedArg::Once
    } else if let Some(parsed) = parse_value_flag(arg, ValueFlag::Config) {
        parsed
    } else if let Some(parsed) = parse_value_flag(arg, ValueFlag::EnvFile) {
        parsed
    } else if let Some(parsed) = parse_value_flag(arg, ValueFlag::CpuTempPath) {
        parsed
    } else if let Some(parsed) = parse_value_flag(arg, ValueFlag::TestFanDuty) {
        parsed
    } else if let Some(parsed) = parse_value_flag(arg, ValueFlag::TestFanSeconds) {
        parsed
    } else {
        ParsedArg::Unknown
    }
}

impl Args {
    /// Reads a command line. Its first argument, the name of the program, is passed over.
    pub fn parse_from(args: &[CliArg]) -> (r: Result<Self, String>)
        ensures
            match r {
                Ok(parsed) => args_of(arg_texts(args@)) == Ok::<ArgsView, Seq<char>>(parsed@),
                Err(e) => args_of(arg_texts(args@)) == Err::<ArgsView, Seq<char>>(e@),
            },
    {
        let mut parsed = Self::default();
        let ghost all = arg_texts(args@);
        let mut i: usize = 1;
        while i < args.len()
            invariant
                all == arg_texts(args@),
                i >= 1,
                i < args@.len() ==> args_of(all) == args_after(parsed@, all.skip(i as int)),
                i >= args@.len() ==> args_of(all) == Ok::<ArgsView, Seq<char>>(parsed@),
            decreases args@.len() - i,
        {
            let ghost rest = all.skip(i as int);
            proof {
                assert(rest[0] == arg_text(args@[i as int]));
                assert(rest.skip(1) =~= all.skip(i + 1));
                if i + 2 <= args@.len() {
                    assert(rest.skip(2) =~= all.skip(i + 2));
                }
            }
            let arg: &str = match &args[i] {
                CliArg::NotUtf8 => {
                    return Err("arguments must be valid UTF-8".to_owned());
                },
                CliArg::Utf8(text) => text.as_str(),
            };
            let mut used: usize = 1;
            match parse_arg(arg) {
                ParsedArg::Help => {
                    parsed.help = true;
                },
                ParsedArg::Version => {
                    parsed.version = true;
                },
                ParsedArg::DryRun => {
                    parsed.dry_run = true;
                },
                ParsedArg::Once => {
                    parsed.once = true;
                },
                ParsedArg::Inline { flag, value } => match parsed.set_value(flag, value) {
                    Ok(next) => {
                        parsed = next;
                    },
                    Err(e) => {
                        return Err(e);
                    },
                },
                ParsedArg::Separate { flag } => match next_string(args, i + 1, flag_text(flag)) {
                    Ok(value) => match parsed.set_value(flag, value) {
                        Ok(next) => {
                            parsed = next;
                            used = 2;
                        },
                        Err(e) => {
                            return Err(e);
                        },
                    },
                    Err(e) => {
                        return Err(e);
                    },
                },
                ParsedArg::Unknown => {
                    return Err(flag_error("unknown argument: ", arg));
                },
            }
            proof {
                if i + used == args@.len() {
                    assert(rest.skip(used as int).len() == 0);
                }
            }
            i = i + used;
        }
        Ok(parsed)
    }
}

/// The help text for a program of the given name.
pub open spec fn usage_text(program: Seq<char>) -> Seq<char> {
    "Usage: "@ + program
        + " [OPTIONS]\n\nOptions:\n      --config <PATH>         Config file path [default: "@
        + DEFAULT_CONFIG_PATH@
        + "]\n      --env-file <PATH>       Board pin env file path [default: "@ + DEFAULT_ENV_FILE@
        + "]\n      --cpu-temp-path <PATH>  CPU temp path [default: "@ + DEFAULT_CPU_TEMP_PATH@
        + "]\n"@ + "      --dry-run               Print fan decisions without hardware output\n"@
        + "      --once                  Take one sample and exit\n"@
        + "      --test-fan-duty <0-100> Set fan duty for a bounded manual test\n"@
        + "      --test-fan-seconds <N>  Manual fan test duration [default: 10]\n"@
        + "  -V, --version               Print version\n"@
        + "  -h, --help                  Show this help\n"@
}

/// Returns the help text for a program of the given name.
pub fn usage(program: &str) -> (s: String)
    ensures
        s@ == usage_text(program@),
{
    let mut s = "Usage: ".to_owned();
    s.append(program);
    s.append(" [OPTIONS]\n\nOptions:\n      --config <PATH>         Config file path [default: ");
    s.append(DEFAULT_CONFIG_PATH);
    s.append("]\n      --env-file <PATH>       Board pin env file path [default: ");
    s.append(DEFAULT_ENV_FILE);
    s.append("]\n      --cpu-temp-path <PATH>  CPU temp path [default: ");
    s.append(DEFAULT_CPU_TEMP_PATH);
    s.append("]\n");
    s.append("      --dry-run               Print fan decisions without hardware output\n");
    s.append("      --once                  Take one sample and exit\n");
    s.append("      --test-fan-duty <0-100> Set fan duty for a bounded manual test\n");
    s.append("      --test-fan-seconds <N>  Manual fan test duration [default: 10]\n");
    s.append("  -V, --version               Print version\n");
    s.append("  -h, --help                  Show this help\n");
    s
}

/// The name and the version of the program.
pub fn version() -> (s: &'static str)
    ensures
        s@ == "radxa-penta-top-hat-rs 1.0.1+local.4"@,
{
    "radxa-penta-top-hat-rs 1.0.1+local.4"
}

} // verus!
