//! Laws of the command line.

use crate::cli::{
    arg_meaning, arg_texts, args_after, args_of, default_args, flag_name, flag_prefix, next_value,
    parse_percent, parse_seconds, percent_of, seconds_of, usage, value_meaning, with_value,
    ArgMeaning, Args, ArgsView, CliArg, ValueFlag,
};
use crate::number::{decimal_reads_back, decimal_text, unsigned_value};
use vstd::prelude::*;

verus! {

/// Shows what the characters of every flag are.
proof fn lemma_reveal_flags()
    ensures
        "--help"@.len() == 6 && "--help"@[2] == 'h',
        "-h"@.len() == 2,
        "--version"@.len() == 9 && "--version"@[2] == 'v',
        "-V"@.len() == 2,
        "--dry-run"@.len() == 9 && "--dry-run"@[2] == 'd',
        "--once"@.len() == 6 && "--once"@[2] == 'o',
        "--config"@.len() == 8 && "--config"@[2] == 'c' && "--config"@[3] == 'o',
        "--env-file"@.len() == 10 && "--env-file"@[2] == 'e',
        "--cpu-temp-path"@.len() == 15 && "--cpu-temp-path"@[2] == 'c' && "--cpu-temp-path"@[3]
            == 'p',
        "--test-fan-duty"@.len() == 15 && "--test-fan-duty"@[2] == 't' && "--test-fan-duty"@[11]
            == 'd',
        "--test-fan-seconds"@.len() == 18 && "--test-fan-seconds"@[2] == 't'
            && "--test-fan-seconds"@[11] == 's',
        forall|f: ValueFlag| #[trigger] flag_prefix(f) == flag_name(f).push('='),
{
    reveal_strlit("--help");
    reveal_strlit("-h");
    reveal_strlit("--version");
    reveal_strlit("-V");
    reveal_strlit("--dry-run");
    reveal_strlit("--once");
    reveal_strlit("--config");
    reveal_strlit("--env-file");
    reveal_strlit("--cpu-temp-path");
    reveal_strlit("--test-fan-duty");
    reveal_strlit("--test-fan-seconds");
    reveal_strlit("--config=");
    reveal_strlit("--env-file=");
    reveal_strlit("--cpu-temp-path=");
    reveal_strlit("--test-fan-duty=");
    reveal_strlit("--test-fan-seconds=");
    assert forall|f: ValueFlag| #[trigger] flag_prefix(f) == flag_name(f).push('=') by {
        assert(flag_prefix(f) =~= flag_name(f).push('='));
    }
}

proof fn lemma_other_flag(arg: Seq<char>, flag: ValueFlag, other: ValueFlag)
    requires
        flag != other,
        arg == flag_name(flag) || flag_prefix(flag).is_prefix_of(arg),
    ensures
        value_meaning(arg, other) is None,
{
    lemma_reveal_flags();
    let name = flag_name(flag);
    assert(name.is_prefix_of(arg)) by {
        if flag_prefix(flag).is_prefix_of(arg) {
            assert(flag_prefix(flag).take(name.len() as int) =~= name);
        }
    }
    assert forall|j: int| 0 <= j < name.len() implies arg[j] == name[j] by {
        assert(arg.subrange(0, name.len() as int)[j] == arg[j]);
    }
    if flag_prefix(other).is_prefix_of(arg) {
        let p = flag_prefix(other);
        assert forall|j: int| 0 <= j < p.len() implies arg[j] == p[j] by {
            assert(arg.subrange(0, p.len() as int)[j] == arg[j]);
        }
        assert(p[2] == flag_name(other)[2]);
        assert(p[3] == flag_name(other)[3]);
        if p.len() > 11 {
            assert(p[11] == flag_name(other)[11]);
        }
    }
}

/// A flag as an argument of its own takes the next argument as its value, and a flag with an
/// equals sign takes what follows the sign.
pub proof fn flags_are_understood(flag: ValueFlag, value: Seq<char>)
    ensures
        arg_meaning(flag_name(flag)) == (ArgMeaning::Separate { flag }),
        arg_meaning(flag_name(flag).push('=') + value) == (ArgMeaning::Inline { flag, value }),
{
    lemma_reveal_flags();
    let name = flag_name(flag);
    let joined = name.push('=') + value;
    assert(flag_prefix(flag).is_prefix_of(joined)) by {
        assert(joined.subrange(0, name.len() as int + 1) =~= name.push('='));
    }
    assert(joined.skip(name.len() as int + 1) =~= value);
    assert(joined[2] == name[2]);
    assert(!flag_prefix(flag).is_prefix_of(name));
    assert(value_meaning(joined, flag) == Some(ArgMeaning::Inline { flag, value }));
    assert(value_meaning(name, flag) == Some(ArgMeaning::Separate { flag }));
    let flags = seq![
        ValueFlag::Config,
        ValueFlag::EnvFile,
        ValueFlag::CpuTempPath,
        ValueFlag::TestFanDuty,
        ValueFlag::TestFanSeconds,
    ];
    assert forall|k: int| 0 <= k < 5 && flags[k] != flag implies value_meaning(
        name,
        #[trigger] flags[k],
    ) is None && value_meaning(joined, flags[k]) is None by {
        lemma_other_flag(name, flag, flags[k]);
        lemma_other_flag(joined, flag, flags[k]);
    }
    assert(flags[0] == ValueFlag::Config);
    assert(flags[1] == ValueFlag::EnvFile);
    assert(flags[2] == ValueFlag::CpuTempPath);
    assert(flags[3] == ValueFlag::TestFanDuty);
    assert(flags[4] == ValueFlag::TestFanSeconds);
    assert(name.len() >= 8);
    assert(name[2] == 'c' || name[2] == 'e' || name[2] == 't');
}

/// `--flag=value` and `--flag value` say the same, unless the value is empty.
pub proof fn both_forms_agree(
    args: ArgsView,
    flag: ValueFlag,
    value: Seq<char>,
    rest: Seq<Option<Seq<char>>>,
)
    requires
        value.len() > 0,
    ensures
        args_after(args, seq![Some(flag_name(flag).push('=') + value)] + rest) == args_after(
            args,
            seq![Some(flag_name(flag)), Some(value)] + rest,
        ),
{
    flags_are_understood(flag, value);
    let joined = seq![Some(flag_name(flag).push('=') + value)] + rest;
    let apart = seq![Some(flag_name(flag)), Some(value)] + rest;
    assert(joined[0] == Some(flag_name(flag).push('=') + value));
    assert(joined.skip(1) =~= rest);
    assert(apart[0] == Some(flag_name(flag)));
    assert(apart.skip(1)[0] == Some(value));
    assert(apart.skip(2) =~= rest);
    assert(next_value(apart.skip(1), flag_name(flag)) == Ok::<Seq<char>, Seq<char>>(value));
}

/// Of several values for a flag the last one counts.
pub proof fn the_last_value_counts(
    args: ArgsView,
    flag: ValueFlag,
    first: Seq<char>,
    second: Seq<char>,
)
    requires
        with_value(args, flag, first) is Ok,
    ensures
        with_value(with_value(args, flag, first)->Ok_0, flag, second) == with_value(
            args,
            flag,
            second,
        ),
{
}

/// Arguments that can be read on their own are read first, whatever follows them.
pub proof fn arguments_are_read_from_left_to_right(
    args: ArgsView,
    first: Seq<Option<Seq<char>>>,
    second: Seq<Option<Seq<char>>>,
)
    requires
        args_after(args, first) is Ok,
    ensures
        args_after(args, first + second) == args_after(args_after(args, first)->Ok_0, second),
    decreases first.len(),
{
    let all = first + second;
    if first.len() == 0 {
        assert(all =~= second);
    } else {
        assert(all[0] == first[0]);
        assert(all.skip(1) =~= first.skip(1) + second);
        let arg = first[0]->Some_0;
        match arg_meaning(arg) {
            ArgMeaning::Help => {
                arguments_are_read_from_left_to_right(
                    ArgsView { help: true, ..args },
                    first.skip(1),
                    second,
                );
            },
            ArgMeaning::Version => {
                arguments_are_read_from_left_to_right(
                    ArgsView { version: true, ..args },
                    first.skip(1),
                    second,
                );
            },
            ArgMeaning::DryRun => {
                arguments_are_read_from_left_to_right(
                    ArgsView { dry_run: true, ..args },
                    first.skip(1),
                    second,
                );
            },
            ArgMeaning::Once => {
                arguments_are_read_from_left_to_right(
                    ArgsView { once: true, ..args },
                    first.skip(1),
                    second,
                );
            },
            ArgMeaning::Inline { flag, value } => {
                arguments_are_read_from_left_to_right(
                    with_value(args, flag, value)->Ok_0,
                    first.skip(1),
                    second,
                );
            },
            ArgMeaning::Separate { flag } => {
                assert(first.skip(1).len() > 0);
                assert(all.skip(1)[0] == first.skip(1)[0]);
                let value = next_value(first.skip(1), flag_name(flag))->Ok_0;
                assert(all.skip(2) =~= first.skip(2) + second);
                arguments_are_read_from_left_to_right(
                    with_value(args, flag, value)->Ok_0,
                    first.skip(2),
                    second,
                );
            },
            ArgMeaning::Unknown => {},
        }
    }
}

/// The limits that the values of the fan test flags keep.
pub open spec fn in_range(args: ArgsView) -> bool {
    &&& args.test_fan_duty matches Some(percent) ==> percent <= 100
    &&& args.test_fan_seconds > 0
}

/// `b` has every switch on that `a` has on.
pub open spec fn keeps_switches(a: ArgsView, b: ArgsView) -> bool {
    &&& a.help ==> b.help
    &&& a.version ==> b.version
    &&& a.dry_run ==> b.dry_run
    &&& a.once ==> b.once
}

/// No command line that is accepted leaves the range of the fan test: a duty is at most one
/// hundred percent, and the test lasts at least one second.
pub proof fn accepted_values_are_in_range(command_line: Seq<Option<Seq<char>>>)
    requires
        args_of(command_line) is Ok,
    ensures
        in_range(args_of(command_line)->Ok_0),
{
    if command_line.len() > 0 {
        lemma_args_after(default_args(), command_line.skip(1));
    }
}

/// Arguments switch things on and never off.
pub proof fn switches_stay_on(args: ArgsView, rest: Seq<Option<Seq<char>>>)
    requires
        args_after(args, rest) is Ok,
    ensures
        keeps_switches(args, args_after(args, rest)->Ok_0),
{
    lemma_args_after(args, rest);
}

proof fn lemma_args_after(args: ArgsView, rest: Seq<Option<Seq<char>>>)
    requires
        args_after(args, rest) is Ok,
    ensures
        in_range(args) ==> in_range(args_after(args, rest)->Ok_0),
        keeps_switches(args, args_after(args, rest)->Ok_0),
    decreases rest.len(),
{
    if rest.len() > 0 {
        match arg_meaning(rest[0]->Some_0) {
            ArgMeaning::Help => {
                lemma_args_after(ArgsView { help: true, ..args }, rest.skip(1));
            },
            ArgMeaning::Version => {
                lemma_args_after(ArgsView { version: true, ..args }, rest.skip(1));
            },
            ArgMeaning::DryRun => {
                lemma_args_after(ArgsView { dry_run: true, ..args }, rest.skip(1));
            },
            ArgMeaning::Once => {
                lemma_args_after(ArgsView { once: true, ..args }, rest.skip(1));
            },
            ArgMeaning::Inline { flag, value } => {
                lemma_args_after(with_value(args, flag, value)->Ok_0, rest.skip(1));
            },
            ArgMeaning::Separate { flag } => {
                let value = next_value(rest.skip(1), flag_name(flag))->Ok_0;
                lemma_args_after(with_value(args, flag, value)->Ok_0, rest.skip(2));
            },
            ArgMeaning::Unknown => {},
        }
    }
}

/// The error for a missing or bad value begins with the flag.
pub proof fn an_error_names_its_flag(
    args: ArgsView,
    flag: ValueFlag,
    value: Seq<char>,
    rest: Seq<Option<Seq<char>>>,
)
    ensures
        with_value(args, flag, value) matches Err(e) ==> flag_name(flag).is_prefix_of(e),
        next_value(rest, flag_name(flag)) matches Err(e) ==> flag_name(flag).is_prefix_of(e),
{
    let name = flag_name(flag);
    if let Err(e) = with_value(args, flag, value) {
        assert(e.subrange(0, name.len() as int) =~= name);
    }
    if let Err(e) = next_value(rest, name) {
        assert(e.subrange(0, name.len() as int) =~= name);
    }
}

/// The name of the program does not matter, nor whether it is text.
pub proof fn the_program_name_does_not_matter(
    a: Option<Seq<char>>,
    b: Option<Seq<char>>,
    rest: Seq<Option<Seq<char>>>,
)
    ensures
        args_of(seq![a] + rest) == args_of(seq![b] + rest),
{
    assert((seq![a] + rest).skip(1) =~= rest);
    assert((seq![b] + rest).skip(1) =~= rest);
}

/// A percentage and a number of seconds that are written in base ten read back, unless they
/// are out of range.
pub proof fn fan_test_values_read_back(percent: u8, seconds: u64, flag: Seq<char>)
    ensures
        percent <= 100 ==> percent_of(decimal_text(percent as nat), flag) == Ok::<u8, Seq<char>>(
            percent,
        ),
        percent > 100 ==> percent_of(decimal_text(percent as nat), flag) is Err,
        seconds > 0 ==> seconds_of(decimal_text(seconds as nat), flag) == Ok::<u64, Seq<char>>(
            seconds,
        ),
        seconds == 0 ==> seconds_of(decimal_text(seconds as nat), flag) is Err,
{
    decimal_reads_back(percent as nat);
    decimal_reads_back(seconds as nat);
}

/// `arg` followed by `rest`.
pub open spec fn then_rest(arg: Seq<char>, rest: Seq<Option<Seq<char>>>) -> Seq<Option<Seq<char>>> {
    seq![Some(arg)] + rest
}

proof fn lemma_then_rest(arg: Seq<char>, rest: Seq<Option<Seq<char>>>)
    ensures
        then_rest(arg, rest).len() > 0,
        then_rest(arg, rest)[0] == Some(arg),
        then_rest(arg, rest).skip(1) == rest,
{
    assert(then_rest(arg, rest).skip(1) =~= rest);
}

proof fn lemma_value(
    args: ArgsView,
    flag: ValueFlag,
    value: Seq<char>,
    rest: Seq<Option<Seq<char>>>,
)
    ensures
        args_after(args, then_rest(flag_name(flag).push('=') + value, rest)) == (match with_value(
            args,
            flag,
            value,
        ) {
            Ok(next) => args_after(next, rest),
            Err(e) => Err(e),
        }),
        value.len() > 0 ==> args_after(
            args,
            then_rest(flag_name(flag), then_rest(value, rest)),
        ) == args_after(args, then_rest(flag_name(flag).push('=') + value, rest)),
{
    flags_are_understood(flag, value);
    lemma_then_rest(flag_name(flag).push('=') + value, rest);
    if value.len() > 0 {
        both_forms_agree(args, flag, value, rest);
        assert(then_rest(flag_name(flag), then_rest(value, rest)) =~= seq![
            Some(flag_name(flag)),
            Some(value),
        ] + rest);
        assert(then_rest(flag_name(flag).push('=') + value, rest) =~= seq![
            Some(flag_name(flag).push('=') + value),
        ] + rest);
    }
}

/// Each switch, in each of its spellings, turns its own field on and leaves every other field
/// as it was; then the rest is read.
pub proof fn a_switch_sets_its_own_field(args: ArgsView, rest: Seq<Option<Seq<char>>>)
    ensures
        args_after(args, then_rest("--help"@, rest)) == args_after(
            ArgsView { help: true, ..args },
            rest,
        ),
        args_after(args, then_rest("-h"@, rest)) == args_after(
            ArgsView { help: true, ..args },
            rest,
        ),
        args_after(args, then_rest("--version"@, rest)) == args_after(
            ArgsView { version: true, ..args },
            rest,
        ),
        args_after(args, then_rest("-V"@, rest)) == args_after(
            ArgsView { version: true, ..args },
            rest,
        ),
        args_after(args, then_rest("--dry-run"@, rest)) == args_after(
            ArgsView { dry_run: true, ..args },
            rest,
        ),
        args_after(args, then_rest("--once"@, rest)) == args_after(
            ArgsView { once: true, ..args },
            rest,
        ),
{
    lemma_reveal_flags();
    lemma_then_rest("--help"@, rest);
    lemma_then_rest("-h"@, rest);
    lemma_then_rest("--version"@, rest);
    lemma_then_rest("-V"@, rest);
    lemma_then_rest("--dry-run"@, rest);
    lemma_then_rest("--once"@, rest);
    reveal_strlit("-h");
    reveal_strlit("-V");
    assert("-h"@[1] == 'h');
    assert("-V"@[1] == 'V');
}

/// A flag for a path stores the text that it is given, unchanged, and leaves every other field
/// as it was; then the rest is read.
pub proof fn a_path_is_stored_as_given(
    args: ArgsView,
    value: Seq<char>,
    rest: Seq<Option<Seq<char>>>,
)
    ensures
        args_after(args, then_rest("--config="@ + value, rest)) == args_after(
            ArgsView { config_path: value, ..args },
            rest,
        ),
        value.len() > 0 ==> args_after(args, then_rest("--config"@, then_rest(value, rest)))
            == args_after(ArgsView { config_path: value, ..args }, rest),
        args_after(args, then_rest("--env-file="@ + value, rest)) == args_after(
            ArgsView { env_file: value, ..args },
            rest,
        ),
        value.len() > 0 ==> args_after(args, then_rest("--env-file"@, then_rest(value, rest)))
            == args_after(ArgsView { env_file: value, ..args }, rest),
        args_after(args, then_rest("--cpu-temp-path="@ + value, rest)) == args_after(
            ArgsView { cpu_temp_path: value, ..args },
            rest,
        ),
        value.len() > 0 ==> args_after(args, then_rest("--cpu-temp-path"@, then_rest(value, rest)))
            == args_after(ArgsView { cpu_temp_path: value, ..args }, rest),
{
    lemma_reveal_flags();
    assert(flag_prefix(ValueFlag::Config) == "--config="@);
    assert(flag_prefix(ValueFlag::EnvFile) == "--env-file="@);
    assert(flag_prefix(ValueFlag::CpuTempPath) == "--cpu-temp-path="@);
    lemma_value(args, ValueFlag::Config, value, rest);
    lemma_value(args, ValueFlag::EnvFile, value, rest);
    lemma_value(args, ValueFlag::CpuTempPath, value, rest);
}

/// The duty of a fan test is exactly the number that its text stands for, where that is at
/// most one hundred, and every other field stays as it was. Any other text is an error.
pub proof fn a_duty_is_stored_as_given(
    args: ArgsView,
    value: Seq<char>,
    rest: Seq<Option<Seq<char>>>,
)
    requires
        value.len() > 0,
    ensures
        ({
            let joined = args_after(args, then_rest("--test-fan-duty="@ + value, rest));
            let apart = args_after(args, then_rest("--test-fan-duty"@, then_rest(value, rest)));
            &&& joined == apart
            &&& (unsigned_value(value) matches Some(n) && n <= 100) ==> joined == args_after(
                ArgsView { test_fan_duty: Some(unsigned_value(value)->Some_0 as u8), ..args },
                rest,
            )
            &&& !(unsigned_value(value) matches Some(n) && n <= 100) ==> joined == Err::<
                ArgsView,
                Seq<char>,
            >("--test-fan-duty must be an integer from 0 to 100"@)
        }),
{
    lemma_reveal_flags();
    assert(flag_prefix(ValueFlag::TestFanDuty) == "--test-fan-duty="@);
    lemma_value(args, ValueFlag::TestFanDuty, value, rest);
    reveal_strlit("--test-fan-duty");
    reveal_strlit(" must be an integer from 0 to 100");
    reveal_strlit("--test-fan-duty must be an integer from 0 to 100");
    assert("--test-fan-duty"@ + " must be an integer from 0 to 100"@
        =~= "--test-fan-duty must be an integer from 0 to 100"@);
}

/// The seconds of a fan test are exactly the number that their text stands for, where that is
/// positive and fits, and every other field stays as it was. Zero is one error, and any other
/// text is another.
pub proof fn the_seconds_are_stored_as_given(
    args: ArgsView,
    value: Seq<char>,
    rest: Seq<Option<Seq<char>>>,
)
    requires
        value.len() > 0,
    ensures
        ({
            let joined = args_after(args, then_rest("--test-fan-seconds="@ + value, rest));
            let apart = args_after(args, then_rest("--test-fan-seconds"@, then_rest(value, rest)));
            &&& joined == apart
            &&& match unsigned_value(value) {
                Some(n) => {
                    &&& 0 < n <= u64::MAX ==> joined == args_after(
                        ArgsView { test_fan_seconds: n as u64, ..args },
                        rest,
                    )
                    &&& n == 0 ==> joined == Err::<ArgsView, Seq<char>>(
                        "--test-fan-seconds must be greater than zero"@,
                    )
                    &&& n > u64::MAX ==> joined == Err::<ArgsView, Seq<char>>(
                        "--test-fan-seconds must be a positive integer"@,
                    )
                },
                None => joined == Err::<ArgsView, Seq<char>>(
                    "--test-fan-seconds must be a positive integer"@,
                ),
            }
        }),
{
    lemma_reveal_flags();
    assert(flag_prefix(ValueFlag::TestFanSeconds) == "--test-fan-seconds="@);
    lemma_value(args, ValueFlag::TestFanSeconds, value, rest);
    reveal_strlit("--test-fan-seconds");
    reveal_strlit(" must be greater than zero");
    reveal_strlit(" must be a positive integer");
    reveal_strlit("--test-fan-seconds must be greater than zero");
    reveal_strlit("--test-fan-seconds must be a positive integer");
    assert("--test-fan-seconds"@ + " must be greater than zero"@
        =~= "--test-fan-seconds must be greater than zero"@);
    assert("--test-fan-seconds"@ + " must be a positive integer"@
        =~= "--test-fan-seconds must be a positive integer"@);
}

/// A flag that stands last, or before an argument that is empty or no text, is an error that
/// says so.
pub proof fn a_flag_needs_a_value(args: ArgsView, rest: Seq<Option<Seq<char>>>)
    ensures
        args_after(args, seq![Some("--config"@)]) == Err::<ArgsView, Seq<char>>(
            "--config requires a value"@,
        ),
        args_after(args, then_rest("--config"@, seq![None] + rest)) == Err::<
            ArgsView,
            Seq<char>,
        >("--config value must be valid UTF-8"@),
        args_after(args, then_rest("--config"@, then_rest(seq![], rest))) == Err::<
            ArgsView,
            Seq<char>,
        >("--config value must not be empty"@),
        args_after(args, seq![Some("--env-file"@)]) == Err::<ArgsView, Seq<char>>(
            "--env-file requires a value"@,
        ),
        args_after(args, then_rest("--env-file"@, seq![None] + rest)) == Err::<
            ArgsView,
            Seq<char>,
        >("--env-file value must be valid UTF-8"@),
        args_after(args, then_rest("--env-file"@, then_rest(seq![], rest))) == Err::<
            ArgsView,
            Seq<char>,
        >("--env-file value must not be empty"@),
        args_after(args, seq![Some("--cpu-temp-path"@)]) == Err::<ArgsView, Seq<char>>(
            "--cpu-temp-path requires a value"@,
        ),
        args_after(args, then_rest("--cpu-temp-path"@, seq![None] + rest)) == Err::<
            ArgsView,
            Seq<char>,
        >("--cpu-temp-path value must be valid UTF-8"@),
        args_after(args, then_rest("--cpu-temp-path"@, then_rest(seq![], rest))) == Err::<
            ArgsView,
            Seq<char>,
        >("--cpu-temp-path value must not be empty"@),
        args_after(args, seq![Some("--test-fan-duty"@)]) == Err::<ArgsView, Seq<char>>(
            "--test-fan-duty requires a value"@,
        ),
        args_after(args, then_rest("--test-fan-duty"@, seq![None] + rest)) == Err::<
            ArgsView,
            Seq<char>,
        >("--test-fan-duty value must be valid UTF-8"@),
        args_after(args, then_rest("--test-fan-duty"@, then_rest(seq![], rest))) == Err::<
            ArgsView,
            Seq<char>,
        >("--test-fan-duty value must not be empty"@),
        args_after(args, seq![Some("--test-fan-seconds"@)]) == Err::<ArgsView, Seq<char>>(
            "--test-fan-seconds requires a value"@,
        ),
        args_after(args, then_rest("--test-fan-seconds"@, seq![None] + rest)) == Err::<
            ArgsView,
            Seq<char>,
        >("--test-fan-seconds value must be valid UTF-8"@),
        args_after(args, then_rest("--test-fan-seconds"@, then_rest(seq![], rest))) == Err::<
            ArgsView,
            Seq<char>,
        >("--test-fan-seconds value must not be empty"@),
{
    lemma_then_rest(seq![], rest);
    lemma_missing_value(args, ValueFlag::Config, rest);
    lemma_missing_value(args, ValueFlag::EnvFile, rest);
    lemma_missing_value(args, ValueFlag::CpuTempPath, rest);
    lemma_missing_value(args, ValueFlag::TestFanDuty, rest);
    lemma_missing_value(args, ValueFlag::TestFanSeconds, rest);
    reveal_strlit(" requires a value");
    reveal_strlit(" value must be valid UTF-8");
    reveal_strlit(" value must not be empty");
    reveal_strlit("--config");
    reveal_strlit("--config requires a value");
    reveal_strlit("--config value must be valid UTF-8");
    reveal_strlit("--config value must not be empty");
    assert("--config"@ + " requires a value"@ =~= "--config requires a value"@);
    assert("--config"@ + " value must be valid UTF-8"@ =~= "--config value must be valid UTF-8"@);
    assert("--config"@ + " value must not be empty"@ =~= "--config value must not be empty"@);
    reveal_strlit("--env-file");
    reveal_strlit("--env-file requires a value");
    reveal_strlit("--env-file value must be valid UTF-8");
    reveal_strlit("--env-file value must not be empty");
    assert("--env-file"@ + " requires a value"@ =~= "--env-file requires a value"@);
    assert("--env-file"@ + " value must be valid UTF-8"@
        =~= "--env-file value must be valid UTF-8"@);
    assert("--env-file"@ + " value must not be empty"@ =~= "--env-file value must not be empty"@);
    reveal_strlit("--cpu-temp-path");
    reveal_strlit("--cpu-temp-path requires a value");
    reveal_strlit("--cpu-temp-path value must be valid UTF-8");
    reveal_strlit("--cpu-temp-path value must not be empty");
    assert("--cpu-temp-path"@ + " requires a value"@ =~= "--cpu-temp-path requires a value"@);
    assert("--cpu-temp-path"@ + " value must be valid UTF-8"@
        =~= "--cpu-temp-path value must be valid UTF-8"@);
    assert("--cpu-temp-path"@ + " value must not be empty"@
        =~= "--cpu-temp-path value must not be empty"@);
    reveal_strlit("--test-fan-duty");
    reveal_strlit("--test-fan-duty requires a value");
    reveal_strlit("--test-fan-duty value must be valid UTF-8");
    reveal_strlit("--test-fan-duty value must not be empty");
    assert("--test-fan-duty"@ + " requires a value"@ =~= "--test-fan-duty requires a value"@);
    assert("--test-fan-duty"@ + " value must be valid UTF-8"@
        =~= "--test-fan-duty value must be valid UTF-8"@);
    assert("--test-fan-duty"@ + " value must not be empty"@
        =~= "--test-fan-duty value must not be empty"@);
    reveal_strlit("--test-fan-seconds");
    reveal_strlit("--test-fan-seconds requires a value");
    reveal_strlit("--test-fan-seconds value must be valid UTF-8");
    reveal_strlit("--test-fan-seconds value must not be empty");
    assert("--test-fan-seconds"@ + " requires a value"@ =~= "--test-fan-seconds requires a value"@);
    assert("--test-fan-seconds"@ + " value must be valid UTF-8"@
        =~= "--test-fan-seconds value must be valid UTF-8"@);
    assert("--test-fan-seconds"@ + " value must not be empty"@
        =~= "--test-fan-seconds value must not be empty"@);
}

proof fn lemma_missing_value(args: ArgsView, flag: ValueFlag, rest: Seq<Option<Seq<char>>>)
    ensures
        args_after(args, seq![Some(flag_name(flag))]) == Err::<ArgsView, Seq<char>>(
            flag_name(flag) + " requires a value"@,
        ),
        args_after(args, then_rest(flag_name(flag), seq![None] + rest)) == Err::<
            ArgsView,
            Seq<char>,
        >(flag_name(flag) + " value must be valid UTF-8"@),
        args_after(args, then_rest(flag_name(flag), then_rest(seq![], rest))) == Err::<
            ArgsView,
            Seq<char>,
        >(flag_name(flag) + " value must not be empty"@),
{
    flags_are_understood(flag, seq![]);
    let alone = seq![Some(flag_name(flag))];
    assert(alone[0] == Some(flag_name(flag)));
    assert(alone.skip(1).len() == 0);
    lemma_then_rest(flag_name(flag), seq![None] + rest);
    assert((seq![None] + rest)[0] is None);
    lemma_then_rest(flag_name(flag), then_rest(seq![], rest));
    lemma_then_rest(seq![], rest);
}

/// An argument that is no switch and no flag is an error that names it, and so is, without a
/// name, one that is no text.
pub proof fn nothing_else_is_understood(
    args: ArgsView,
    arg: Seq<char>,
    rest: Seq<Option<Seq<char>>>,
)
    ensures
        args_after(args, seq![None] + rest) == Err::<ArgsView, Seq<char>>(
            "arguments must be valid UTF-8"@,
        ),
        arg != "--help"@ && arg != "-h"@ && arg != "--version"@ && arg != "-V"@ && arg
            != "--dry-run"@ && arg != "--once"@ && arg != "--config"@ && arg != "--env-file"@ && arg
            != "--cpu-temp-path"@ && arg != "--test-fan-duty"@ && arg != "--test-fan-seconds"@
            && !"--config="@.is_prefix_of(arg) && !"--env-file="@.is_prefix_of(arg)
            && !"--cpu-temp-path="@.is_prefix_of(arg) && !"--test-fan-duty="@.is_prefix_of(arg)
            && !"--test-fan-seconds="@.is_prefix_of(arg) ==> args_after(args, then_rest(arg, rest))
            == Err::<ArgsView, Seq<char>>("unknown argument: "@ + arg),
{
    assert((seq![None] + rest)[0] is None);
    lemma_then_rest(arg, rest);
}

/// A command line without arguments asks for the defaults: the paths of the system, ten
/// seconds, and nothing else. With arguments, these change the defaults, and the name before
/// them is passed over.
pub proof fn a_command_line_changes_the_defaults(
    program: Option<Seq<char>>,
    rest: Seq<Option<Seq<char>>>,
)
    ensures
        ({
            let defaults = ArgsView {
                config_path: "/etc/rockpi-penta.conf"@,
                env_file: "/etc/rockpi-penta.env"@,
                cpu_temp_path: "/sys/class/thermal/thermal_zone0/temp"@,
                dry_run: false,
                once: false,
                help: false,
                version: false,
                test_fan_duty: None,
                test_fan_seconds: 10,
            };
            &&& args_of(seq![]) == Ok::<ArgsView, Seq<char>>(defaults)
            &&& args_after(defaults, seq![]) == Ok::<ArgsView, Seq<char>>(defaults)
            &&& args_of(seq![program] + rest) == args_after(defaults, rest)
        }),
{
    assert((seq![program] + rest).skip(1) =~= rest);
}

proof fn lemma_longer_line(
    line: &[CliArg],
    longer: &[CliArg],
    added: Seq<CliArg>,
    before: Args,
    after: Result<Args, String>,
)
    requires
        line@.len() > 0,
        longer@ == line@ + added,
        call_ensures(Args::parse_from, (line,), Ok(before)),
        call_ensures(Args::parse_from, (longer,), after),
    ensures
        match after {
            Ok(args) => args_after(before@, arg_texts(added)) == Ok::<ArgsView, Seq<char>>(args@),
            Err(e) => args_after(before@, arg_texts(added)) == Err::<ArgsView, Seq<char>>(e@),
        },
{
    let first = arg_texts(line@).skip(1);
    assert(arg_texts(longer@).skip(1) =~= first + arg_texts(added));
    arguments_are_read_from_left_to_right(default_args(), first, arg_texts(added));
}

/// A call reads all of its command line, argument by argument, and gives what those ask for,
/// field by field, or the first error.
pub proof fn a_call_reads_its_whole_command_line(
    line: &[CliArg],
    texts: Seq<Option<Seq<char>>>,
    r: Result<Args, String>,
)
    requires
        call_ensures(Args::parse_from, (line,), r),
        texts.len() == line@.len(),
        forall|i: int|
            0 <= i < line@.len() ==> #[trigger] texts[i] == match line@[i] {
                CliArg::Utf8(text) => Some(text@),
                CliArg::NotUtf8 => None,
            },
    ensures
        match (r, args_of(texts)) {
            (Ok(args), Ok(wanted)) => {
                &&& args.config_path@ == wanted.config_path
                &&& args.env_file@ == wanted.env_file
                &&& args.cpu_temp_path@ == wanted.cpu_temp_path
                &&& args.dry_run == wanted.dry_run
                &&& args.once == wanted.once
                &&& args.help == wanted.help
                &&& args.version == wanted.version
                &&& args.test_fan_duty == wanted.test_fan_duty
                &&& args.test_fan_seconds == wanted.test_fan_seconds
            },
            (Err(e), Err(wanted)) => e@ == wanted,
            _ => false,
        },
{
    assert(arg_texts(line@) =~= texts);
}

/// Two calls: a command line that is accepted, and the same one with a flag and a value at its
/// end. A duty or a number of seconds in range, written in base ten, is then in the field of
/// its flag, exactly; a path is there as it was given. No other field differs. This holds
/// whether the value is an argument of its own or follows an equals sign.
pub proof fn a_flag_sets_its_own_field(
    line: &[CliArg],
    longer: &[CliArg],
    joined: bool,
    flag: String,
    value: String,
    before: Args,
    after: Result<Args, String>,
    n: nat,
)
    requires
        line@.len() > 0,
        value@.len() > 0,
        longer@ == line@ + if joined {
            seq![CliArg::Utf8(flag)]
        } else {
            seq![CliArg::Utf8(flag), CliArg::Utf8(value)]
        },
        call_ensures(Args::parse_from, (line,), Ok(before)),
        call_ensures(Args::parse_from, (longer,), after),
    ensures
        flag@ == (if joined {
            "--config="@ + value@
        } else {
            "--config"@
        }) ==> (after matches Ok(args) && args.config_path@ == value@ && args.env_file@
            == before.env_file@ && args.cpu_temp_path@ == before.cpu_temp_path@
            && same_switches(args, before) && same_fan_test(args, before)),
        flag@ == (if joined {
            "--env-file="@ + value@
        } else {
            "--env-file"@
        }) ==> (after matches Ok(args) && args.env_file@ == value@ && args.config_path@
            == before.config_path@ && args.cpu_temp_path@ == before.cpu_temp_path@
            && same_switches(args, before) && same_fan_test(args, before)),
        flag@ == (if joined {
            "--cpu-temp-path="@ + value@
        } else {
            "--cpu-temp-path"@
        }) ==> (after matches Ok(args) && args.cpu_temp_path@ == value@ && args.config_path@
            == before.config_path@ && args.env_file@ == before.env_file@ && same_switches(
            args,
            before,
        ) && same_fan_test(args, before)),
        flag@ == (if joined {
            "--test-fan-duty="@ + value@
        } else {
            "--test-fan-duty"@
        }) && value@ == decimal_text(n) && n <= 100 ==> (after matches Ok(args)
            && args.test_fan_duty == Some(n as u8) && args.test_fan_seconds
            == before.test_fan_seconds && same_switches(args, before) && same_paths(args, before)),
        flag@ == (if joined {
            "--test-fan-seconds="@ + value@
        } else {
            "--test-fan-seconds"@
        }) && value@ == decimal_text(n) && 0 < n <= u64::MAX ==> (after matches Ok(args)
            && args.test_fan_seconds == n && args.test_fan_duty == before.test_fan_duty
            && same_switches(args, before) && same_paths(args, before)),
{
    let added = if joined {
        seq![CliArg::Utf8(flag)]
    } else {
        seq![CliArg::Utf8(flag), CliArg::Utf8(value)]
    };
    lemma_longer_line(line, longer, added, before, after);
    if joined {
        assert(arg_texts(added) =~= then_rest(flag@, seq![]));
    } else {
        assert(arg_texts(added) =~= then_rest(flag@, then_rest(value@, seq![])));
    }
    a_path_is_stored_as_given(before@, value@, seq![]);
    a_duty_is_stored_as_given(before@, value@, seq![]);
    the_seconds_are_stored_as_given(before@, value@, seq![]);
    decimal_reads_back(n);
}

pub open spec fn same_paths(a: Args, b: Args) -> bool {
    &&& a.config_path@ == b.config_path@
    &&& a.env_file@ == b.env_file@
    &&& a.cpu_temp_path@ == b.cpu_temp_path@
}

pub open spec fn same_switches(a: Args, b: Args) -> bool {
    &&& a.dry_run == b.dry_run
    &&& a.once == b.once
    &&& a.help == b.help
    &&& a.version == b.version
}

pub open spec fn same_fan_test(a: Args, b: Args) -> bool {
    &&& a.test_fan_duty == b.test_fan_duty
    &&& a.test_fan_seconds == b.test_fan_seconds
}

/// Two calls: a command line that is accepted, and the same one with one more switch at its
/// end. The field of the switch is then on, and no other field differs.
pub proof fn a_further_switch_turns_its_field_on(
    line: &[CliArg],
    longer: &[CliArg],
    switch: String,
    before: Args,
    after: Result<Args, String>,
)
    requires
        line@.len() > 0,
        longer@ == line@ + seq![CliArg::Utf8(switch)],
        switch@ == "--help"@ || switch@ == "-h"@ || switch@ == "--version"@ || switch@ == "-V"@
            || switch@ == "--dry-run"@ || switch@ == "--once"@,
        call_ensures(Args::parse_from, (line,), Ok(before)),
        call_ensures(Args::parse_from, (longer,), after),
    ensures
        after matches Ok(args) && {
            &&& same_paths(args, before)
            &&& same_fan_test(args, before)
            &&& args.help == (before.help || switch@ == "--help"@ || switch@ == "-h"@)
            &&& args.version == (before.version || switch@ == "--version"@ || switch@ == "-V"@)
            &&& args.dry_run == (before.dry_run || switch@ == "--dry-run"@)
            &&& args.once == (before.once || switch@ == "--once"@)
        },
{
    let added = seq![CliArg::Utf8(switch)];
    lemma_longer_line(line, longer, added, before, after);
    assert(arg_texts(added) =~= then_rest(switch@, seq![]));
    a_switch_sets_its_own_field(before@, seq![]);
    lemma_reveal_flags();
    reveal_strlit("-h");
    reveal_strlit("-V");
    assert("-h"@[1] == 'h');
    assert("-V"@[1] == 'V');
}

/// A call on a command line that holds at most the name of the program gives the defaults.
pub proof fn no_arguments_give_the_defaults(
    line: &[CliArg],
    r: Result<Args, String>,
    defaults: Args,
)
    requires
        line@.len() <= 1,
        call_ensures(Args::parse_from, (line,), r),
        call_ensures(Args::default, (), defaults),
    ensures
        r matches Ok(args) && args@ == defaults@,
        r matches Ok(args) && {
            &&& args.config_path@ == "/etc/rockpi-penta.conf"@
            &&& args.env_file@ == "/etc/rockpi-penta.env"@
            &&& args.cpu_temp_path@ == "/sys/class/thermal/thermal_zone0/temp"@
            &&& !args.dry_run && !args.once && !args.help && !args.version
            &&& args.test_fan_duty is None
            &&& args.test_fan_seconds == 10
        },
{
}

/// Two calls: a command line that is accepted, and the same one with an argument at its end
/// that is no switch and no flag, or is no text. The second is an error that says which.
pub proof fn a_further_argument_must_be_known(
    line: &[CliArg],
    longer: &[CliArg],
    arg: CliArg,
    before: Args,
    after: Result<Args, String>,
)
    requires
        line@.len() > 0,
        longer@ == line@ + seq![arg],
        call_ensures(Args::parse_from, (line,), Ok(before)),
        call_ensures(Args::parse_from, (longer,), after),
        arg matches CliArg::Utf8(text) ==> !"-"@.is_prefix_of(text@),
    ensures
        after matches Err(e) && e@ == match arg {
            CliArg::Utf8(text) => "unknown argument: "@ + text@,
            CliArg::NotUtf8 => "arguments must be valid UTF-8"@,
        },
{
    let added = seq![arg];
    lemma_longer_line(line, longer, added, before, after);
    match arg {
        CliArg::Utf8(text) => {
            assert(arg_texts(added) =~= then_rest(text@, seq![]));
            lemma_no_dash(text@);
            nothing_else_is_understood(before@, text@, seq![]);
        },
        CliArg::NotUtf8 => {
            assert(arg_texts(added) =~= seq![None] + Seq::<Option<Seq<char>>>::empty());
            nothing_else_is_understood(before@, seq![], seq![]);
        },
    }
}

proof fn lemma_no_dash(arg: Seq<char>)
    requires
        !"-"@.is_prefix_of(arg),
    ensures
        arg != "--help"@,
        arg != "-h"@,
        arg != "--version"@,
        arg != "-V"@,
        arg != "--dry-run"@,
        arg != "--once"@,
        arg != "--config"@,
        arg != "--env-file"@,
        arg != "--cpu-temp-path"@,
        arg != "--test-fan-duty"@,
        arg != "--test-fan-seconds"@,
        !"--config="@.is_prefix_of(arg),
        !"--env-file="@.is_prefix_of(arg),
        !"--cpu-temp-path="@.is_prefix_of(arg),
        !"--test-fan-duty="@.is_prefix_of(arg),
        !"--test-fan-seconds="@.is_prefix_of(arg),
{
    reveal_strlit("-");
    assert(arg.len() > 0 && arg[0] == '-' ==> "-"@ =~= arg.subrange(0, 1));
    reveal_strlit("--help");
    reveal_strlit("-h");
    reveal_strlit("--version");
    reveal_strlit("-V");
    reveal_strlit("--dry-run");
    reveal_strlit("--once");
    reveal_strlit("--config");
    reveal_strlit("--env-file");
    reveal_strlit("--cpu-temp-path");
    reveal_strlit("--test-fan-duty");
    reveal_strlit("--test-fan-seconds");
    reveal_strlit("--config=");
    reveal_strlit("--env-file=");
    reveal_strlit("--cpu-temp-path=");
    reveal_strlit("--test-fan-duty=");
    reveal_strlit("--test-fan-seconds=");
    if "--config="@.is_prefix_of(arg) {
        assert(arg.subrange(0, "--config="@.len() as int)[0] == arg[0]);
    }
    if "--env-file="@.is_prefix_of(arg) {
        assert(arg.subrange(0, "--env-file="@.len() as int)[0] == arg[0]);
    }
    if "--cpu-temp-path="@.is_prefix_of(arg) {
        assert(arg.subrange(0, "--cpu-temp-path="@.len() as int)[0] == arg[0]);
    }
    if "--test-fan-duty="@.is_prefix_of(arg) {
        assert(arg.subrange(0, "--test-fan-duty="@.len() as int)[0] == arg[0]);
    }
    if "--test-fan-seconds="@.is_prefix_of(arg) {
        assert(arg.subrange(0, "--test-fan-seconds="@.len() as int)[0] == arg[0]);
    }
}

/// Calls for the values of the fan test flags: a duty is the number that its text stands for,
/// up to one hundred, and the seconds are, from one on. Every other text is an error that
/// begins with the flag.
pub proof fn fan_test_values_are_numbers(
    value: &str,
    flag: &str,
    percent: Result<u8, String>,
    seconds: Result<u64, String>,
)
    requires
        call_ensures(parse_percent, (value, flag), percent),
        call_ensures(parse_seconds, (value, flag), seconds),
    ensures
        match percent {
            Ok(n) => unsigned_value(value@) == Some(n as nat) && n <= 100,
            Err(e) => e@ == flag@ + " must be an integer from 0 to 100"@ && !(unsigned_value(
                value@,
            ) matches Some(n) && n <= 100),
        },
        match seconds {
            Ok(n) => unsigned_value(value@) == Some(n as nat) && n > 0,
            Err(e) => {
                ||| unsigned_value(value@) == Some(0nat) && e@ == flag@
                    + " must be greater than zero"@
                ||| !(unsigned_value(value@) matches Some(n) && n <= u64::MAX) && e@ == flag@
                    + " must be a positive integer"@
            },
        },
{
}

/// The help text holds the name of the program once, behind the word at its start, and is the
/// same for every program otherwise.
pub proof fn only_the_name_differs_in_the_help_text(a: &str, b: &str, first: String, second: String)
    requires
        call_ensures(usage, (a,), first),
        call_ensures(usage, (b,), second),
    ensures
        ("Usage: "@ + a@).is_prefix_of(first@),
        ("Usage: "@ + b@).is_prefix_of(second@),
        first@.skip(("Usage: "@ + a@).len() as int) == second@.skip(("Usage: "@ + b@).len() as int),
{
    let head = ("Usage: "@ + a@).len() as int;
    let other = ("Usage: "@ + b@).len() as int;
    assert(first@.subrange(0, head) =~= "Usage: "@ + a@);
    assert(second@.subrange(0, other) =~= "Usage: "@ + b@);
    assert(first@.skip(head) =~= second@.skip(other));
}

} // verus!
