//! Laws of the environment files.

use crate::env_file::{
    debug_text, describe_value, entries_of, line_meaning, line_setting, mode_setting, no_pins,
    opt_text, parse_optional_u32, pins_of, pins_of_file, pwm_setting, setting, strip_comment,
    uncommented, unquote, unquoted, ButtonMode, EnvFileError, EnvFileErrorView, FileRead,
    LineMeaning, PinMap, PinMapView,
};
use crate::env_map::EnvMap;
use crate::laws::text::{a_further_line_comes_last, is_blank, white_space_around_is_dropped};
use crate::number::{decimal_reads_back, decimal_text, unsigned_value};
use crate::text::{
    find, is_space, is_trimmed, lemma_find, lemma_find_is, lemma_trimmed, lemma_trimmed_id,
    lemma_trimmed_push, lowered, text_lines, trimmed, without_cr,
};
use vstd::prelude::*;

verus! {

/// The line is no entry and not blank either.
pub open spec fn is_bad(line: Seq<char>) -> bool {
    line_meaning(line) is NoEquals || line_meaning(line) is EmptyKey
}

/// The line gives `key` a value.
pub open spec fn is_entry_for(line: Seq<char>, key: Seq<char>) -> bool {
    line_meaning(line) matches LineMeaning::Entry { key: k, value } && k == key
}

/// A file that says nothing describes the same pin map as a file that does not exist.
pub proof fn a_blank_file_has_no_pins(contents: Seq<char>)
    requires
        forall|i: int|
            0 <= i < text_lines(contents).len() ==> line_meaning(#[trigger] text_lines(contents)[i])
                is Blank,
    ensures
        pins_of_file(contents) == Ok::<PinMapView, EnvFileErrorView>(no_pins()),
{
    lemma_blank_lines(text_lines(contents));
}

proof fn lemma_blank_lines(file: Seq<Seq<char>>)
    requires
        forall|i: int| 0 <= i < file.len() ==> line_meaning(#[trigger] file[i]) is Blank,
    ensures
        entries_of(file) == Ok::<Map<Seq<char>, Seq<char>>, EnvFileErrorView>(Map::empty()),
    decreases file.len(),
{
    if file.len() > 0 {
        assert forall|i: int| 0 <= i < file.drop_last().len() implies line_meaning(
            #[trigger] file.drop_last()[i],
        ) is Blank by {
            assert(file.drop_last()[i] == file[i]);
        }
        lemma_blank_lines(file.drop_last());
        assert(line_meaning(file[file.len() - 1]) is Blank);
    }
}

/// The entries of a file can be read exactly when none of its lines is bad.
pub proof fn entries_are_read_unless_a_line_is_bad(file: Seq<Seq<char>>)
    ensures
        entries_of(file) is Ok <==> forall|i: int|
            0 <= i < file.len() ==> !is_bad(#[trigger] file[i]),
    decreases file.len(),
{
    if file.len() > 0 {
        let before = file.drop_last();
        entries_are_read_unless_a_line_is_bad(before);
        if entries_of(file) is Ok {
            assert forall|i: int| 0 <= i < file.len() implies !is_bad(#[trigger] file[i]) by {
                if i < before.len() {
                    assert(before[i] == file[i]);
                }
            }
        }
        if forall|i: int| 0 <= i < file.len() ==> !is_bad(#[trigger] file[i]) {
            assert forall|i: int| 0 <= i < before.len() implies !is_bad(#[trigger] before[i]) by {
                assert(before[i] == file[i]);
            }
            assert(!is_bad(file[file.len() - 1]));
        }
    }
}

/// Of several bad lines the first is reported, by its number counted from one and by what it
/// lacks. What follows it does not matter.
pub proof fn the_first_bad_line_is_reported(file: Seq<Seq<char>>, i: int)
    requires
        0 <= i < file.len(),
        is_bad(file[i]),
        forall|j: int| 0 <= j < i ==> !is_bad(#[trigger] file[j]),
    ensures
        entries_of(file) == Err::<Map<Seq<char>, Seq<char>>, EnvFileErrorView>(
            EnvFileErrorView::Parse {
                line: (i + 1) as nat,
                message: if line_meaning(file[i]) is NoEquals {
                    "expected KEY=value"@
                } else {
                    "empty key"@
                },
            },
        ),
    decreases file.len(),
{
    let before = file.drop_last();
    assert forall|j: int| 0 <= j < i implies !is_bad(#[trigger] before[j]) by {
        assert(before[j] == file[j]);
    }
    if i < before.len() {
        assert(before[i] == file[i]);
        the_first_bad_line_is_reported(before, i);
    } else {
        entries_are_read_unless_a_line_is_bad(before);
    }
}

/// Of several entries for a key the last one counts.
pub proof fn the_last_entry_counts(
    file: Seq<Seq<char>>,
    i: int,
    key: Seq<char>,
    value: Seq<char>,
)
    requires
        entries_of(file) is Ok,
        0 <= i < file.len(),
        line_meaning(file[i]) == (LineMeaning::Entry { key, value }),
        forall|j: int| i < j < file.len() ==> !is_entry_for(#[trigger] file[j], key),
    ensures
        setting(entries_of(file)->Ok_0, key) == Some(value),
    decreases file.len(),
{
    let before = file.drop_last();
    if i < before.len() {
        assert(before[i] == file[i]);
        assert forall|j: int| i < j < before.len() implies !is_entry_for(
            #[trigger] before[j],
            key,
        ) by {
            assert(before[j] == file[j]);
        }
        the_last_entry_counts(before, i, key, value);
        assert(!is_entry_for(file[file.len() - 1], key));
    }
}

/// A key that no line gives a value has none.
pub proof fn nothing_is_made_up(file: Seq<Seq<char>>, key: Seq<char>)
    requires
        entries_of(file) is Ok,
        forall|j: int| 0 <= j < file.len() ==> !is_entry_for(#[trigger] file[j], key),
    ensures
        setting(entries_of(file)->Ok_0, key) is None,
    decreases file.len(),
{
    if file.len() > 0 {
        let before = file.drop_last();
        assert forall|j: int| 0 <= j < before.len() implies !is_entry_for(
            #[trigger] before[j],
            key,
        ) by {
            assert(before[j] == file[j]);
        }
        nothing_is_made_up(before, key);
        assert(!is_entry_for(file[file.len() - 1], key));
    }
}

/// A comment does not change what the line before it says.
pub proof fn a_comment_does_not_matter(line: Seq<char>, comment: Seq<char>)
    ensures
        line_meaning(line + seq!['#'] + comment) == line_meaning(line),
{
    let longer = line + seq!['#'] + comment;
    lemma_find(line, '#');
    let i = find(line, '#');
    assert forall|j: int| 0 <= j < i implies longer[j] != '#' by {
        assert(longer[j] == line[j]);
    }
    if i < line.len() {
        assert(longer[i] == line[i]);
    } else {
        assert(longer[i] == '#');
    }
    lemma_find_is(longer, '#', i);
    assert(uncommented(longer) =~= uncommented(line));
}

/// White space around a line does not change what it says.
pub proof fn space_around_a_line_does_not_matter(line: Seq<char>, c: char)
    requires
        is_space(c),
    ensures
        line_meaning(seq![c] + line) == line_meaning(line),
        line_meaning(line.push(c)) == line_meaning(line),
{
    lemma_find(line, '#');
    let i = find(line, '#');
    let u = uncommented(line);
    let front = seq![c] + line;
    assert forall|j: int| 0 <= j < i + 1 implies front[j] != '#' by {
        if j > 0 {
            assert(front[j] == line[j - 1]);
        }
    }
    if i < line.len() {
        assert(front[i + 1] == line[i]);
    }
    lemma_find_is(front, '#', i + 1);
    assert(uncommented(front) =~= seq![c] + u);
    assert((seq![c] + u).skip(1) =~= u);
    assert(trimmed(seq![c] + u) == trimmed(u));
    let back = line.push(c);
    if i < line.len() {
        assert forall|j: int| 0 <= j < i implies back[j] != '#' by {
            assert(back[j] == line[j]);
        }
        lemma_find_is(back, '#', i);
        assert(uncommented(back) =~= u);
    } else {
        assert forall|j: int| 0 <= j < back.len() implies back[j] != '#' by {
            if j < line.len() {
                assert(back[j] == line[j]);
            }
        }
        lemma_find_is(back, '#', back.len() as int);
        assert(uncommented(back) =~= u.push(c));
        lemma_trimmed_push(u, c);
    }
}

/// A text that can be written as a key: it is not empty, has no white space at its ends, and
/// holds neither an equals sign nor the sign that begins a comment.
pub open spec fn is_plain_key(key: Seq<char>) -> bool {
    key.len() > 0 && is_trimmed(key) && !key.contains('=') && !key.contains('#')
}

/// The line that gives `key` a value.
pub open spec fn entry_line(key: Seq<char>, value: Seq<char>) -> Seq<char> {
    key + seq!['='] + value
}

/// `value` in a pair of the given quotes.
pub open spec fn in_quotes(value: Seq<char>, quote: char) -> Seq<char> {
    seq![quote] + value + seq![quote]
}

proof fn lemma_entry_line(key: Seq<char>, value: Seq<char>)
    requires
        is_plain_key(key),
        is_trimmed(value),
        !value.contains('#'),
    ensures
        line_meaning(entry_line(key, value)) == (LineMeaning::Entry {
            key,
            value: unquoted(value),
        }),
{
    let line = entry_line(key, value);
    let n = key.len() as int;
    assert forall|j: int| 0 <= j < line.len() implies line[j] != '#' by {
        if j < n {
            assert(line[j] == key[j]);
        } else if j > n {
            assert(line[j] == value[j - n - 1]);
        }
    }
    lemma_find_is(line, '#', line.len() as int);
    assert(uncommented(line) =~= line);
    assert(line[0] == key[0]);
    assert(line[n] == '=');
    if value.len() == 0 {
        assert(line.last() == '=');
    } else {
        assert(line.last() == value.last());
    }
    lemma_trimmed_id(line);
    assert forall|j: int| 0 <= j < n implies line[j] != '=' by {
        assert(line[j] == key[j]);
    }
    lemma_find_is(line, '=', n);
    assert(line.take(n) =~= key);
    assert(line.skip(n + 1) =~= value);
    lemma_trimmed_id(key);
    lemma_trimmed_id(value);
}

/// A value that has no white space at its ends, no comment sign and no quotes around it reads
/// back as it was written.
pub proof fn a_plain_value_reads_back(key: Seq<char>, value: Seq<char>)
    requires
        is_plain_key(key),
        is_trimmed(value),
        !value.contains('#'),
        unquoted(value) == value,
    ensures
        line_meaning(entry_line(key, value)) == (LineMeaning::Entry { key, value }),
{
    lemma_entry_line(key, value);
}

/// Any value without a comment sign reads back as it was written in quotes, whatever white
/// space and quotes it holds.
pub proof fn a_quoted_value_reads_back(key: Seq<char>, value: Seq<char>, quote: char)
    requires
        is_plain_key(key),
        !value.contains('#'),
        quote == '"' || quote == '\'',
    ensures
        line_meaning(entry_line(key, in_quotes(value, quote))) == (LineMeaning::Entry {
            key,
            value,
        }),
{
    let q = in_quotes(value, quote);
    assert(q[0] == quote);
    assert(q.last() == quote);
    assert forall|j: int| 0 <= j < q.len() implies q[j] != '#' by {
        if 0 < j < q.len() - 1 {
            assert(q[j] == value[j - 1]);
        }
    }
    assert(q.subrange(1, q.len() - 1) =~= value);
    lemma_entry_line(key, q);
}

/// A line and its ending, put before a text, is one more line of it.
pub proof fn a_line_is_one_line(line: Seq<char>, rest: Seq<char>)
    requires
        !line.contains('\n'),
    ensures
        text_lines(line + seq!['\n'] + rest) == seq![without_cr(line)] + text_lines(rest),
        !(line.len() > 0 && line.last() == '\r') ==> text_lines(line + seq!['\r', '\n'] + rest)
            == seq![line] + text_lines(rest),
{
    lemma_line_first(line, rest);
    let with_cr = line.push('\r');
    assert forall|j: int| 0 <= j < with_cr.len() implies with_cr[j] != '\n' by {
        if j < line.len() {
            assert(with_cr[j] == line[j]);
        }
    }
    lemma_line_first(with_cr, rest);
    assert(with_cr + seq!['\n'] + rest =~= line + seq!['\r', '\n'] + rest);
    assert(without_cr(with_cr) =~= line);
}

proof fn lemma_line_first(line: Seq<char>, rest: Seq<char>)
    requires
        !line.contains('\n'),
    ensures
        text_lines(line + seq!['\n'] + rest) == seq![without_cr(line)] + text_lines(rest),
{
    let all = line + seq!['\n'] + rest;
    let n = line.len() as int;
    assert forall|j: int| 0 <= j < n implies all[j] != '\n' by {
        assert(all[j] == line[j]);
    }
    assert(all[n] == '\n');
    lemma_find_is(all, '\n', n);
    assert(all.take(n) =~= line);
    assert(all.skip(n + 1) =~= rest);
}

/// Every key of a file can be written as a key: it is not empty, has no white space at its
/// ends, and holds neither an equals sign nor a comment sign.
pub proof fn every_key_is_plain(file: Seq<Seq<char>>, key: Seq<char>)
    requires
        entries_of(file) is Ok,
        (entries_of(file)->Ok_0).contains_key(key),
    ensures
        is_plain_key(key),
    decreases file.len(),
{
    if file.len() > 0 {
        let before = file.drop_last();
        if is_entry_for(file.last(), key) {
            lemma_entry_key(file.last());
        } else {
            every_key_is_plain(before, key);
        }
    }
}

proof fn lemma_entry_key(raw_line: Seq<char>)
    requires
        line_meaning(raw_line) is Entry,
    ensures
        is_plain_key(line_meaning(raw_line)->key),
{
    let u = uncommented(raw_line);
    lemma_find(raw_line, '#');
    let line = trimmed(u);
    let (a, b) = lemma_trimmed(u);
    lemma_find(line, '=');
    let left = line.take(find(line, '='));
    let (c, d) = lemma_trimmed(left);
    let key = trimmed(left);
    assert forall|j: int| 0 <= j < key.len() implies key[j] != '=' && key[j] != '#' by {
        assert(key[j] == left[c + j]);
        assert(left[c + j] == line[c + j]);
        assert(line[c + j] == u[a + c + j]);
        assert(u[a + c + j] == raw_line[a + c + j]);
    }
}

/// The keys that a pin map has fields for.
pub open spec fn is_known_key(key: Seq<char>) -> bool {
    ||| key == "SDA"@
    ||| key == "SCL"@
    ||| key == "OLED_RESET"@
    ||| key == "OLED_I2C_DEVICE"@
    ||| key == "I2C_DEVICE"@
    ||| key == "BUTTON_CHIP"@
    ||| key == "BUTTON_LINE"@
    ||| key == "BUTTON_MODE"@
    ||| key == "FAN_CHIP"@
    ||| key == "FAN_LINE"@
    ||| key == "PWMCHIP"@
    ||| key == "HARDWARE_PWM"@
}

/// An entry under any other key is kept and changes nothing else.
pub proof fn an_unknown_key_changes_nothing_else(
    m: Map<Seq<char>, Seq<char>>,
    key: Seq<char>,
    value: Seq<char>,
)
    requires
        !is_known_key(key),
    ensures
        match pins_of(m) {
            Ok(pins) => pins_of(m.insert(key, value)) == Ok::<PinMapView, EnvFileErrorView>(
                PinMapView { raw: m.insert(key, value), ..pins },
            ),
            Err(e) => pins_of(m.insert(key, value)) == Err::<PinMapView, EnvFileErrorView>(e),
        },
{
    let n = m.insert(key, value);
    assert forall|k: Seq<char>| is_known_key(k) implies #[trigger] setting(n, k) == setting(
        m,
        k,
    ) by {
        assert(k != key);
    }
    assert(line_setting(n, "BUTTON_LINE"@) == line_setting(m, "BUTTON_LINE"@));
    assert(line_setting(n, "FAN_LINE"@) == line_setting(m, "FAN_LINE"@));
    assert(pwm_setting(n) == pwm_setting(m));
    assert(mode_setting(n) == mode_setting(m));
}

/// The device of the display stands under its own key; the general one counts only where that
/// is missing.
pub proof fn the_display_device_comes_first(m: Map<Seq<char>, Seq<char>>)
    requires
        pins_of(m) is Ok,
    ensures
        m.contains_key("OLED_I2C_DEVICE"@) ==> (pins_of(m)->Ok_0).oled_i2c_device == Some(
            m["OLED_I2C_DEVICE"@],
        ),
        !m.contains_key("OLED_I2C_DEVICE"@) ==> (pins_of(m)->Ok_0).oled_i2c_device == setting(
            m,
            "I2C_DEVICE"@,
        ),
{
}

/// The case of letters does not matter where a value is one of a few words.
pub proof fn letter_case_does_not_matter(
    m: Map<Seq<char>, Seq<char>>,
    a: Seq<char>,
    b: Seq<char>,
)
    requires
        lowered(a) == lowered(b),
    ensures
        pwm_setting(m.insert("HARDWARE_PWM"@, a)) == pwm_setting(m.insert("HARDWARE_PWM"@, b)),
        mode_setting(m.insert("BUTTON_MODE"@, a)) == mode_setting(m.insert("BUTTON_MODE"@, b)),
{
}

/// A set of entries describes a pin map exactly when none of the four checked values is bad.
pub proof fn pins_are_read_unless_a_value_is_bad(m: Map<Seq<char>, Seq<char>>)
    ensures
        pins_of(m) is Ok <==> {
            &&& line_setting(m, "BUTTON_LINE"@) is Ok
            &&& line_setting(m, "FAN_LINE"@) is Ok
            &&& pwm_setting(m) is Ok
            &&& mode_setting(m) is Ok
        },
        pins_of(m) matches Ok(pins) ==> pins.raw == m,
{
}

/// A line number that is written in base ten reads back.
pub proof fn a_line_number_reads_back(m: Map<Seq<char>, Seq<char>>, key: Seq<char>, n: u32)
    ensures
        line_setting(m.insert(key, decimal_text(n as nat)), key) == Ok::<
            Option<u32>,
            EnvFileErrorView,
        >(Some(n)),
{
    decimal_reads_back(n as nat);
}

/// The file that gives each key of a list its value, one line for each, with the values in
/// double quotes.
pub open spec fn written(entries: Seq<(Seq<char>, Seq<char>)>) -> Seq<char>
    decreases entries.len(),
{
    if entries.len() == 0 {
        seq![]
    } else {
        entry_line(entries[0].0, in_quotes(entries[0].1, '"')) + seq!['\n'] + written(
            entries.skip(1),
        )
    }
}

/// The map that a list of entries makes when they are put into it one after the other.
pub open spec fn collected(entries: Seq<(Seq<char>, Seq<char>)>) -> Map<Seq<char>, Seq<char>>
    decreases entries.len(),
{
    if entries.len() == 0 {
        Map::empty()
    } else {
        collected(entries.drop_last()).insert(entries.last().0, entries.last().1)
    }
}

/// The entry can be written on a line of its own.
pub open spec fn is_writable(entry: (Seq<char>, Seq<char>)) -> bool {
    &&& is_plain_key(entry.0)
    &&& !entry.0.contains('\n')
    &&& !entry.1.contains('#')
    &&& !entry.1.contains('\n')
}

/// A file reads back what was written to it, key by key, in quotes.
pub proof fn a_written_file_reads_back(entries: Seq<(Seq<char>, Seq<char>)>)
    requires
        forall|i: int| 0 <= i < entries.len() ==> is_writable(#[trigger] entries[i]),
    ensures
        entries_of(text_lines(written(entries))) == Ok::<
            Map<Seq<char>, Seq<char>>,
            EnvFileErrorView,
        >(collected(entries)),
{
    lemma_written_lines(entries);
    lemma_collected(entries);
}

spec fn written_lines(entries: Seq<(Seq<char>, Seq<char>)>) -> Seq<Seq<char>> {
    Seq::new(entries.len(), |i: int| entry_line(entries[i].0, in_quotes(entries[i].1, '"')))
}

proof fn lemma_written_lines(entries: Seq<(Seq<char>, Seq<char>)>)
    requires
        forall|i: int| 0 <= i < entries.len() ==> is_writable(#[trigger] entries[i]),
    ensures
        text_lines(written(entries)) == written_lines(entries),
    decreases entries.len(),
{
    if entries.len() == 0 {
        assert(text_lines(written(entries)) =~= written_lines(entries));
    } else {
        let rest = entries.skip(1);
        assert forall|i: int| 0 <= i < rest.len() implies is_writable(#[trigger] rest[i]) by {
            assert(rest[i] == entries[i + 1]);
        }
        lemma_written_lines(rest);
        assert(is_writable(entries[0]));
        let key = entries[0].0;
        let value = entries[0].1;
        let quoted = in_quotes(value, '"');
        let line = entry_line(key, quoted);
        assert forall|j: int| 0 <= j < line.len() implies line[j] != '\n' by {
            if j < key.len() {
                assert(line[j] == key[j]);
            } else if j > key.len() {
                let k = j - key.len() - 1;
                assert(line[j] == quoted[k]);
                if 0 < k < quoted.len() - 1 {
                    assert(quoted[k] == value[k - 1]);
                }
            }
        }
        assert(line.last() == '"');
        lemma_line_first(line, written(rest));
        assert(written_lines(entries) =~= seq![line] + written_lines(rest));
    }
}

proof fn lemma_collected(entries: Seq<(Seq<char>, Seq<char>)>)
    requires
        forall|i: int| 0 <= i < entries.len() ==> is_writable(#[trigger] entries[i]),
    ensures
        entries_of(written_lines(entries)) == Ok::<Map<Seq<char>, Seq<char>>, EnvFileErrorView>(
            collected(entries),
        ),
    decreases entries.len(),
{
    if entries.len() > 0 {
        let before = entries.drop_last();
        assert forall|i: int| 0 <= i < before.len() implies is_writable(#[trigger] before[i]) by {
            assert(before[i] == entries[i]);
        }
        lemma_collected(before);
        assert(written_lines(entries).drop_last() =~= written_lines(before));
        assert(is_writable(entries[entries.len() - 1]));
        a_quoted_value_reads_back(entries.last().0, entries.last().1, '"');
    }
}

/// What a value amounts to: what stands inside its pair of quotes, where it is in double
/// quotes or in single quotes, and the value itself otherwise.
pub proof fn quotes_are_dropped_as_a_pair(value: Seq<char>, inner: Seq<char>)
    ensures
        value == seq!['"'] + inner + seq!['"'] ==> unquoted(value) == inner,
        value == seq!['\''] + inner + seq!['\''] ==> unquoted(value) == inner,
        value.len() < 2 ==> unquoted(value) == value,
        value.len() >= 2 && value[0] != '"' && value[0] != '\'' ==> unquoted(value) == value,
        value.len() >= 2 && value[0] != value.last() ==> unquoted(value) == value,
{
    let double = seq!['"'] + inner + seq!['"'];
    let single = seq!['\''] + inner + seq!['\''];
    assert(double[0] == '"' && double.last() == '"');
    assert(single[0] == '\'' && single.last() == '\'');
    assert(double.subrange(1, double.len() - 1) =~= inner);
    assert(single.subrange(1, single.len() - 1) =~= inner);
}

/// Calls on a line and on a value: what is left of a line ends before its first comment sign,
/// and what is left of a value are the characters inside its pair of quotes, or all of them.
pub proof fn calls_drop_comments_and_quotes(
    line: &str,
    left: &str,
    value: &str,
    inner: String,
)
    requires
        call_ensures(strip_comment, (line,), left),
        call_ensures(unquote, (value,), inner),
    ensures
        !left@.contains('#'),
        line@.contains('#') ==> left@.push('#').is_prefix_of(line@),
        !line@.contains('#') ==> left@ == line@,
        ({
            ||| inner@ == value@ && !(value@.len() >= 2 && value@[0] == value@.last() && (value@[0]
                == '"' || value@[0] == '\''))
            ||| value@ == seq!['"'] + inner@ + seq!['"']
            ||| value@ == seq!['\''] + inner@ + seq!['\'']
        }),
{
    lemma_find(line@, '#');
    let i = find(line@, '#');
    assert forall|j: int| 0 <= j < left@.len() implies left@[j] != '#' by {
        assert(left@[j] == line@[j]);
    }
    if line@.contains('#') {
        assert(line@.subrange(0, i + 1) =~= left@.push('#'));
    } else {
        assert(left@ =~= line@);
    }
    if inner@ != value@ {
        if value@[0] == '"' {
            assert(value@ =~= seq!['"'] + inner@ + seq!['"']);
        } else {
            assert(value@ =~= seq!['\''] + inner@ + seq!['\'']);
        }
    } else if value@.len() >= 2 && value@[0] == value@.last() && (value@[0] == '"' || value@[0]
        == '\'') {
        assert(inner@.len() == value@.len() - 2);
    }
}

/// A line says nothing where it is all white space. Without an equals sign it is no entry, and
/// with nothing but white space before the first one it has no key.
pub proof fn a_line_without_key_or_sign_is_told(blank: Seq<char>, line: Seq<char>, i: int)
    requires
        is_blank(blank),
        !line.contains('#'),
    ensures
        line_meaning(blank) is Blank,
        0 <= i < line.len() && !is_space(line[i]) && !line.contains('=') ==> line_meaning(line)
            is NoEquals,
        line_meaning(blank + seq!['='] + line) is EmptyKey,
{
    lemma_no_comment(blank);
    white_space_around_is_dropped(blank, seq![], seq![]);
    assert(blank + seq![] + seq![] =~= blank);
    lemma_no_comment(line);
    if 0 <= i < line.len() && !is_space(line[i]) && !line.contains('=') {
        let (a, b) = lemma_trimmed(line);
        assert(a <= i < b);
        let kept = trimmed(line);
        assert forall|j: int| 0 <= j < kept.len() implies kept[j] != '=' by {
            assert(kept[j] == line[a + j]);
            assert(line.contains(line[a + j]));
        }
        lemma_find(kept, '=');
    }
    let whole = blank + seq!['='] + line;
    assert forall|j: int| 0 <= j < whole.len() implies whole[j] != '#' by {
        if j < blank.len() {
            assert(is_space(blank[j]));
        } else if j > blank.len() {
            assert(whole[j] == line[j - blank.len() - 1]);
            assert(line.contains(line[j - blank.len() - 1]));
        }
    }
    lemma_no_comment(whole);
    let (a, b) = lemma_trimmed(whole);
    let n = blank.len() as int;
    assert(whole[n] == '=');
    assert(a <= n < b);
    let kept = trimmed(whole);
    if a < n {
        assert(kept[0] == whole[a] == blank[a]);
        assert(false);
    }
    assert(kept[0] == '=');
    lemma_find_is(kept, '=', 0);
    assert(kept.take(0).len() == 0);
}

proof fn lemma_no_comment(line: Seq<char>)
    requires
        forall|j: int| 0 <= j < line.len() ==> line[j] != '#',
    ensures
        uncommented(line) == line,
{
    lemma_find_is(line, '#', line.len() as int);
    assert(line.take(line.len() as int) =~= line);
}

/// A line with a key, the first equals sign and a value, and with any white space around each
/// of them, gives the key the value. A pair of quotes around the value does not belong to it.
pub proof fn an_entry_is_read_from_its_line(
    left: Seq<char>,
    key: Seq<char>,
    before: Seq<char>,
    after: Seq<char>,
    value: Seq<char>,
    right: Seq<char>,
)
    requires
        is_blank(left),
        is_blank(before),
        is_blank(after),
        is_blank(right),
        is_plain_key(key),
        value.len() > 0 ==> !is_space(value[0]) && !is_space(value.last()),
        !value.contains('#'),
    ensures
        line_meaning(left + key + before + seq!['='] + after + value + right)
            == (LineMeaning::Entry {
            key,
            value: if value.len() >= 2 && value[0] == value.last() && (value[0] == '"' || value[0]
                == '\'') {
                value.subrange(1, value.len() - 1)
            } else {
                value
            },
        }),
{
    let line = left + key + before + seq!['='] + after + value + right;
    let n1 = left.len() as int;
    let n2 = n1 + key.len();
    let n3 = n2 + before.len();
    let n4 = n3 + 1 + after.len();
    let n5 = n4 + value.len();
    assert forall|j: int| 0 <= j < line.len() implies line[j] != '#' by {
        if j < n1 {
            assert(line[j] == left[j]);
        } else if j < n2 {
            assert(line[j] == key[j - n1]);
            assert(key.contains(key[j - n1]));
        } else if j < n3 {
            assert(line[j] == before[j - n2]);
        } else if j == n3 {
            assert(line[j] == '=');
        } else if j < n4 {
            assert(line[j] == after[j - n3 - 1]);
        } else if j < n5 {
            assert(line[j] == value[j - n4]);
            assert(value.contains(value[j - n4]));
        } else {
            assert(line[j] == right[j - n5]);
        }
    }
    lemma_no_comment(line);
    let tail = after + value;
    let body = if value.len() > 0 {
        key + before + seq!['='] + tail
    } else {
        key + before + seq!['=']
    };
    let end = if value.len() > 0 {
        right
    } else {
        after + right
    };
    assert(line =~= left + body + end);
    assert(body[0] == key[0]);
    if value.len() > 0 {
        assert(body.last() == value.last());
    } else {
        assert(body.last() == '=');
    }
    assert forall|j: int| 0 <= j < end.len() implies is_space(#[trigger] end[j]) by {
        if value.len() == 0 {
            if j < after.len() {
                assert(end[j] == after[j]);
            } else {
                assert(end[j] == right[j - after.len()]);
            }
        }
    }
    white_space_around_is_dropped(left, body, end);
    let k = key.len() + before.len() as int;
    assert forall|j: int| 0 <= j < k implies body[j] != '=' by {
        if j < key.len() {
            assert(body[j] == key[j]);
            assert(key.contains(key[j]));
        } else {
            assert(body[j] == before[j - key.len()]);
        }
    }
    assert(body[k] == '=');
    lemma_find_is(body, '=', k);
    assert(body.take(k) =~= seq![] + key + before);
    white_space_around_is_dropped(seq![], key, before);
    if value.len() > 0 {
        assert(body.skip(k + 1) =~= after + value + seq![]);
        white_space_around_is_dropped(after, value, seq![]);
    } else {
        assert(body.skip(k + 1) =~= value);
        lemma_trimmed_id(value);
    }
    if value.len() >= 2 && value[0] == value.last() && (value[0] == '"' || value[0] == '\'') {
        let inner = value.subrange(1, value.len() - 1);
        assert(value =~= seq![value[0]] + inner + seq![value[0]]);
    }
    quotes_are_dropped_as_a_pair(value, value.subrange(1, value.len() - 1));
}

/// Entries whose hardware PWM is one or true, in any case of the letters, describe a board
/// with it; where it is zero, false or missing, one without it; and where it is anything else,
/// no board.
pub proof fn hardware_pwm_is_a_boolean(m: Map<Seq<char>, Seq<char>>)
    ensures
        pins_of(m) matches Ok(pins) ==> (pins.hardware_pwm <==> m.contains_key("HARDWARE_PWM"@) && (
        lowered(m["HARDWARE_PWM"@]) == "1"@ || lowered(m["HARDWARE_PWM"@]) == "true"@)),
        m.contains_key("HARDWARE_PWM"@) && lowered(m["HARDWARE_PWM"@]) != "1"@ && lowered(
            m["HARDWARE_PWM"@],
        ) != "true"@ && lowered(m["HARDWARE_PWM"@]) != "0"@ && lowered(m["HARDWARE_PWM"@])
            != "false"@ ==> pins_of(m) is Err,
        pins_of(m) matches Err(EnvFileErrorView::Value { key, value, expected }) ==> (
        key == "HARDWARE_PWM"@ ==> {
            &&& m.contains_key("HARDWARE_PWM"@)
            &&& value == lowered(m["HARDWARE_PWM"@])
            &&& value != "1"@ && value != "true"@ && value != "0"@ && value != "false"@
            &&& expected == "0/1 boolean"@
        }),
{
    lemma_words();
}

/// Entries whose button mode is output-poll, in any case of the letters, describe a polled
/// button; where it is edge or missing, one that is watched by its edges; and where it is
/// anything else, no board.
pub proof fn the_button_mode_is_one_of_two(m: Map<Seq<char>, Seq<char>>)
    ensures
        pins_of(m) matches Ok(pins) ==> (pins.button_mode == ButtonMode::OutputPoll
            <==> m.contains_key("BUTTON_MODE"@) && lowered(m["BUTTON_MODE"@]) == "output-poll"@),
        m.contains_key("BUTTON_MODE"@) && lowered(m["BUTTON_MODE"@]) != "output-poll"@ && lowered(
            m["BUTTON_MODE"@],
        ) != "edge"@ ==> pins_of(m) is Err,
        pins_of(m) matches Err(EnvFileErrorView::Value { key, value, expected }) ==> (
        key == "BUTTON_MODE"@ ==> {
            &&& m.contains_key("BUTTON_MODE"@)
            &&& value == lowered(m["BUTTON_MODE"@])
            &&& value != "output-poll"@ && value != "edge"@
            &&& expected == "edge or output-poll"@
        }),
{
    lemma_words();
}

/// The two line numbers are exactly the numbers that their texts stand for, and missing where
/// there is no text. A text that stands for no number, or for one that does not fit, describes
/// no board.
pub proof fn the_line_numbers_are_numbers(m: Map<Seq<char>, Seq<char>>)
    ensures
        pins_of(m) matches Ok(pins) ==> {
            &&& m.contains_key("BUTTON_LINE"@) ==> (pins.button_line matches Some(n)
                && unsigned_value(m["BUTTON_LINE"@]) == Some(n as nat))
            &&& !m.contains_key("BUTTON_LINE"@) ==> pins.button_line is None
            &&& m.contains_key("FAN_LINE"@) ==> (pins.fan_line matches Some(n) && unsigned_value(
                m["FAN_LINE"@],
            ) == Some(n as nat))
            &&& !m.contains_key("FAN_LINE"@) ==> pins.fan_line is None
        },
        pins_of(m) matches Err(EnvFileErrorView::Value { key, value, expected }) ==> (
        key == "BUTTON_LINE"@ || key == "FAN_LINE"@ ==> {
            &&& m.contains_key(key)
            &&& value == m[key]
            &&& !(unsigned_value(value) matches Some(n) && n <= u32::MAX)
            &&& expected == "unsigned integer"@
        }),
{
    lemma_words();
}

/// The value that `m` has under a known key is one that the key takes.
pub open spec fn is_good_value(m: Map<Seq<char>, Seq<char>>, key: Seq<char>) -> bool {
    m.contains_key(key) ==> {
        &&& key == "BUTTON_LINE"@ || key == "FAN_LINE"@ ==> (unsigned_value(m[key]) matches Some(n)
            && n <= u32::MAX)
        &&& key == "HARDWARE_PWM"@ ==> lowered(m[key]) == "1"@ || lowered(m[key]) == "true"@
            || lowered(m[key]) == "0"@ || lowered(m[key]) == "false"@
        &&& key == "BUTTON_MODE"@ ==> lowered(m[key]) == "edge"@ || lowered(m[key])
            == "output-poll"@
    }
}

/// Entries describe a board exactly when the button line, the fan line, the hardware PWM and
/// the button mode have good values. Otherwise the first bad one in that order is the error.
pub proof fn the_first_bad_value_is_reported(m: Map<Seq<char>, Seq<char>>)
    ensures
        pins_of(m) is Ok <==> is_good_value(m, "BUTTON_LINE"@) && is_good_value(m, "FAN_LINE"@)
            && is_good_value(m, "HARDWARE_PWM"@) && is_good_value(m, "BUTTON_MODE"@),
        !is_good_value(m, "BUTTON_LINE"@) ==> pins_of(m) == Err::<PinMapView, EnvFileErrorView>(
            EnvFileErrorView::Value {
                key: "BUTTON_LINE"@,
                value: m["BUTTON_LINE"@],
                expected: "unsigned integer"@,
            },
        ),
        is_good_value(m, "BUTTON_LINE"@) && !is_good_value(m, "FAN_LINE"@) ==> pins_of(m) == Err::<
            PinMapView,
            EnvFileErrorView,
        >(
            EnvFileErrorView::Value {
                key: "FAN_LINE"@,
                value: m["FAN_LINE"@],
                expected: "unsigned integer"@,
            },
        ),
        is_good_value(m, "BUTTON_LINE"@) && is_good_value(m, "FAN_LINE"@) && !is_good_value(
            m,
            "HARDWARE_PWM"@,
        ) ==> pins_of(m) == Err::<PinMapView, EnvFileErrorView>(
            EnvFileErrorView::Value {
                key: "HARDWARE_PWM"@,
                value: lowered(m["HARDWARE_PWM"@]),
                expected: "0/1 boolean"@,
            },
        ),
        is_good_value(m, "BUTTON_LINE"@) && is_good_value(m, "FAN_LINE"@) && is_good_value(
            m,
            "HARDWARE_PWM"@,
        ) && !is_good_value(m, "BUTTON_MODE"@) ==> pins_of(m) == Err::<
            PinMapView,
            EnvFileErrorView,
        >(
            EnvFileErrorView::Value {
                key: "BUTTON_MODE"@,
                value: lowered(m["BUTTON_MODE"@]),
                expected: "edge or output-poll"@,
            },
        ),
{
    lemma_words();
}

proof fn lemma_words()
    ensures
        "1"@ != "0"@,
        "1"@ != "false"@,
        "true"@ != "0"@,
        "true"@ != "false"@,
        "edge"@ != "output-poll"@,
        "BUTTON_LINE"@ != "FAN_LINE"@,
        "BUTTON_LINE"@ != "HARDWARE_PWM"@,
        "BUTTON_LINE"@ != "BUTTON_MODE"@,
        "FAN_LINE"@ != "HARDWARE_PWM"@,
        "FAN_LINE"@ != "BUTTON_MODE"@,
        "HARDWARE_PWM"@ != "BUTTON_MODE"@,
{
    reveal_strlit("1");
    reveal_strlit("0");
    reveal_strlit("true");
    reveal_strlit("false");
    reveal_strlit("edge");
    reveal_strlit("output-poll");
    reveal_strlit("BUTTON_LINE");
    reveal_strlit("FAN_LINE");
    reveal_strlit("HARDWARE_PWM");
    reveal_strlit("BUTTON_MODE");
    assert("1"@[0] == '1' && "0"@[0] == '0');
    assert("true"@.len() == 4 && "false"@.len() == 5);
    assert("edge"@.len() == 4 && "output-poll"@.len() == 11);
    assert("FAN_LINE"@.len() == 8 && "HARDWARE_PWM"@.len() == 12);
    assert("BUTTON_LINE"@[7] == 'L' && "BUTTON_MODE"@[7] == 'M');
}

/// An optional string holds the value of `key`, exactly where there is one.
pub open spec fn holds(
    field: Option<String>,
    m: Map<Seq<char>, Seq<char>>,
    key: Seq<char>,
) -> bool {
    match field {
        Some(text) => m.contains_key(key) && text@ == m[key],
        None => !m.contains_key(key),
    }
}

/// A call on the contents of a file: each field of the board comes from the entry of its own
/// name in the file, and from no other.
pub proof fn each_field_has_its_own_key(input: &str, pins: PinMap)
    requires
        call_ensures(PinMap::parse, (input,), Ok(pins)),
    ensures
        entries_of(text_lines(input@)) == Ok::<Map<Seq<char>, Seq<char>>, EnvFileErrorView>(
            pins.raw@,
        ),
        holds(pins.sda, pins.raw@, "SDA"@),
        holds(pins.scl, pins.raw@, "SCL"@),
        holds(pins.oled_reset, pins.raw@, "OLED_RESET"@),
        holds(pins.button_chip, pins.raw@, "BUTTON_CHIP"@),
        holds(pins.fan_chip, pins.raw@, "FAN_CHIP"@),
        holds(pins.pwmchip, pins.raw@, "PWMCHIP"@),
        pins.raw@.contains_key("OLED_I2C_DEVICE"@) ==> holds(
            pins.oled_i2c_device,
            pins.raw@,
            "OLED_I2C_DEVICE"@,
        ),
        !pins.raw@.contains_key("OLED_I2C_DEVICE"@) ==> holds(
            pins.oled_i2c_device,
            pins.raw@,
            "I2C_DEVICE"@,
        ),
        match pins.button_line {
            Some(n) => pins.raw@.contains_key("BUTTON_LINE"@) && unsigned_value(
                pins.raw@["BUTTON_LINE"@],
            ) == Some(n as nat),
            None => !pins.raw@.contains_key("BUTTON_LINE"@),
        },
        match pins.fan_line {
            Some(n) => pins.raw@.contains_key("FAN_LINE"@) && unsigned_value(pins.raw@["FAN_LINE"@])
                == Some(n as nat),
            None => !pins.raw@.contains_key("FAN_LINE"@),
        },
        pins.hardware_pwm <==> pins.raw@.contains_key("HARDWARE_PWM"@) && (lowered(
            pins.raw@["HARDWARE_PWM"@],
        ) == "1"@ || lowered(pins.raw@["HARDWARE_PWM"@]) == "true"@),
        pins.button_mode == ButtonMode::OutputPoll <==> pins.raw@.contains_key("BUTTON_MODE"@)
            && lowered(pins.raw@["BUTTON_MODE"@]) == "output-poll"@,
{
    let m = pins.raw@;
    hardware_pwm_is_a_boolean(m);
    the_button_mode_is_one_of_two(m);
    the_line_numbers_are_numbers(m);
    assert(pins_of(m) == Ok::<PinMapView, EnvFileErrorView>(pins@));
    assert(opt_text(pins.sda) == setting(m, "SDA"@));
    assert(opt_text(pins.scl) == setting(m, "SCL"@));
    assert(opt_text(pins.oled_reset) == setting(m, "OLED_RESET"@));
    assert(opt_text(pins.button_chip) == setting(m, "BUTTON_CHIP"@));
    assert(opt_text(pins.fan_chip) == setting(m, "FAN_CHIP"@));
    assert(opt_text(pins.pwmchip) == setting(m, "PWMCHIP"@));
}

/// A call on the contents of a file fails where a line is bad or, where none is, a value is. A
/// bad line is told by its number, counted from one, and by what it lacks; a bad value by its
/// key, by the text and by what was expected.
pub proof fn an_error_tells_what_is_bad(input: &str, error: EnvFileError, i: int)
    requires
        call_ensures(PinMap::parse, (input,), Err(error)),
    ensures
        error is Io ==> false,
        error matches EnvFileError::Parse { line, message } ==> {
            &&& 1 <= line <= text_lines(input@).len()
            &&& is_bad(text_lines(input@)[line - 1])
            &&& 0 <= i < line - 1 ==> !is_bad(text_lines(input@)[i])
            &&& line_meaning(text_lines(input@)[line - 1]) is NoEquals ==> message@
                == "expected KEY=value"@
            &&& line_meaning(text_lines(input@)[line - 1]) is EmptyKey ==> message@ == "empty key"@
        },
        error matches EnvFileError::Value { key, value, expected } ==> {
            let entries = entries_of(text_lines(input@));
            &&& entries is Ok
            &&& !is_good_value(entries->Ok_0, key@)
            &&& key@ == "BUTTON_LINE"@ || key@ == "FAN_LINE"@ ==> value@ == entries->Ok_0[key@]
                && expected@ == "unsigned integer"@
            &&& key@ == "HARDWARE_PWM"@ ==> value@ == lowered(entries->Ok_0[key@]) && expected@
                == "0/1 boolean"@
            &&& key@ == "BUTTON_MODE"@ ==> value@ == lowered(entries->Ok_0[key@]) && expected@
                == "edge or output-poll"@
        },
{
    let file = text_lines(input@);
    lemma_words();
    entries_are_read_unless_a_line_is_bad(file);
    if entries_of(file) is Ok {
        the_first_bad_value_is_reported(entries_of(file)->Ok_0);
    } else {
        let k = lemma_first_bad(file, file.len() as int);
        the_first_bad_line_is_reported(file, k);
    }
}

proof fn lemma_first_bad(file: Seq<Seq<char>>, n: int) -> (k: int)
    requires
        0 <= n <= file.len(),
        exists|i: int| 0 <= i < n && is_bad(#[trigger] file[i]),
    ensures
        0 <= k < n,
        is_bad(file[k]),
        forall|j: int| 0 <= j < k ==> !is_bad(#[trigger] file[j]),
    decreases n,
{
    if exists|i: int| 0 <= i < n - 1 && is_bad(#[trigger] file[i]) {
        lemma_first_bad(file, n - 1)
    } else {
        n - 1
    }
}

proof fn lemma_insert(m: Map<Seq<char>, Seq<char>>, key: Seq<char>, value: Seq<char>)
    ensures
        ({
            let n = m.insert(key, value);
            &&& setting(n, key) == Some(value)
            &&& forall|k: Seq<char>| k != key ==> #[trigger] setting(n, k) == setting(m, k)
            &&& key != "BUTTON_LINE"@ ==> line_setting(n, "BUTTON_LINE"@) == line_setting(
                m,
                "BUTTON_LINE"@,
            )
            &&& key != "FAN_LINE"@ ==> line_setting(n, "FAN_LINE"@) == line_setting(m, "FAN_LINE"@)
            &&& key != "HARDWARE_PWM"@ ==> pwm_setting(n) == pwm_setting(m)
            &&& key != "BUTTON_MODE"@ ==> mode_setting(n) == mode_setting(m)
        }),
{
}

/// `r` holds the given pin map.
pub open spec fn is_view(r: Result<PinMapView, EnvFileErrorView>, pins: PinMapView) -> bool {
    r == Ok::<PinMapView, EnvFileErrorView>(pins)
}

/// An entry that is put to others which describe a board sets the field of its own key to its
/// value, and changes nothing else.
#[verifier::rlimit(50)]
pub proof fn an_entry_sets_its_own_field(
    m: Map<Seq<char>, Seq<char>>,
    key: Seq<char>,
    value: Seq<char>,
    n: nat,
)
    requires
        pins_of(m) is Ok,
    ensures
        ({
            let before = pins_of(m)->Ok_0;
            let after = pins_of(m.insert(key, value));
            let kept = PinMapView { raw: before.raw.insert(key, value), ..before };
            &&& !is_known_key(key) ==> is_view(after, kept)
            &&& key == "SDA"@ ==> is_view(after, PinMapView { sda: Some(value), ..kept })
            &&& key == "SCL"@ ==> is_view(after, PinMapView { scl: Some(value), ..kept })
            &&& key == "OLED_RESET"@ ==> is_view(
                after,
                PinMapView { oled_reset: Some(value), ..kept },
            )
            &&& key == "BUTTON_CHIP"@ ==> is_view(
                after,
                PinMapView { button_chip: Some(value), ..kept },
            )
            &&& key == "FAN_CHIP"@ ==> is_view(after, PinMapView { fan_chip: Some(value), ..kept })
            &&& key == "PWMCHIP"@ ==> is_view(after, PinMapView { pwmchip: Some(value), ..kept })
            &&& key == "OLED_I2C_DEVICE"@ ==> is_view(
                after,
                PinMapView { oled_i2c_device: Some(value), ..kept },
            )
            &&& key == "I2C_DEVICE"@ ==> is_view(
                after,
                PinMapView {
                    oled_i2c_device: if before.raw.contains_key("OLED_I2C_DEVICE"@) {
                        before.oled_i2c_device
                    } else {
                        Some(value)
                    },
                    ..kept
                },
            )
            &&& key == "BUTTON_LINE"@ && value == decimal_text(n) && n <= u32::MAX ==> is_view(
                after,
                PinMapView { button_line: Some(n as u32), ..kept },
            )
            &&& key == "FAN_LINE"@ && value == decimal_text(n) && n <= u32::MAX ==> is_view(
                after,
                PinMapView { fan_line: Some(n as u32), ..kept },
            )
            &&& key == "HARDWARE_PWM"@ && (lowered(value) == "1"@ || lowered(value) == "true"@)
                ==> is_view(after, PinMapView { hardware_pwm: true, ..kept })
            &&& key == "HARDWARE_PWM"@ && (lowered(value) == "0"@ || lowered(value) == "false"@)
                ==> is_view(after, PinMapView { hardware_pwm: false, ..kept })
            &&& key == "BUTTON_MODE"@ && lowered(value) == "output-poll"@ ==> is_view(
                after,
                PinMapView { button_mode: ButtonMode::OutputPoll, ..kept },
            )
            &&& key == "BUTTON_MODE"@ && lowered(value) == "edge"@ ==> is_view(
                after,
                PinMapView { button_mode: ButtonMode::Edge, ..kept },
            )
        }),
{
    let before = pins_of(m)->Ok_0;
    let longer = m.insert(key, value);
    lemma_insert(m, key, value);
    lemma_keys_differ();
    if !is_known_key(key) {
        an_unknown_key_changes_nothing_else(m, key, value);
    } else if key == "BUTTON_LINE"@ || key == "FAN_LINE"@ {
        decimal_reads_back(n);
    } else if key == "HARDWARE_PWM"@ || key == "BUTTON_MODE"@ {
        lemma_words();
    } else {
        assert(pins_of(longer) is Ok);
    }
}

/// Two calls: on a file that describes a board, and on the same file with one more line at its
/// end that gives a key a value. The entry is then there, its own field has the value, and
/// nothing else differs.
pub proof fn a_further_line_sets_its_own_field(
    input: &str,
    longer: &str,
    key: Seq<char>,
    value: Seq<char>,
    n: nat,
    before: PinMap,
    after: Result<PinMap, EnvFileError>,
)
    requires
        input@.len() > 0 ==> input@.last() == '\n',
        longer@ == input@ + (key + seq!['='] + value),
        is_plain_key(key),
        !key.contains('\n'),
        value.len() > 0 ==> !is_space(value[0]) && !is_space(value.last()),
        !value.contains('#'),
        !value.contains('\n'),
        !(value.len() >= 2 && value[0] == value.last() && (value[0] == '"' || value[0] == '\'')),
        call_ensures(PinMap::parse, (input,), Ok(before)),
        call_ensures(PinMap::parse, (longer,), after),
    ensures
        ({
            let kept = PinMapView { raw: before@.raw.insert(key, value), ..before@ };
            &&& !is_known_key(key) ==> is_pins(after, kept)
            &&& key == "SDA"@ ==> is_pins(after, PinMapView { sda: Some(value), ..kept })
            &&& key == "SCL"@ ==> is_pins(after, PinMapView { scl: Some(value), ..kept })
            &&& key == "OLED_RESET"@ ==> is_pins(
                after,
                PinMapView { oled_reset: Some(value), ..kept },
            )
            &&& key == "BUTTON_CHIP"@ ==> is_pins(
                after,
                PinMapView { button_chip: Some(value), ..kept },
            )
            &&& key == "FAN_CHIP"@ ==> is_pins(after, PinMapView { fan_chip: Some(value), ..kept })
            &&& key == "PWMCHIP"@ ==> is_pins(after, PinMapView { pwmchip: Some(value), ..kept })
            &&& key == "OLED_I2C_DEVICE"@ ==> is_pins(
                after,
                PinMapView { oled_i2c_device: Some(value), ..kept },
            )
            &&& key == "I2C_DEVICE"@ ==> is_pins(
                after,
                PinMapView {
                    oled_i2c_device: if before@.raw.contains_key("OLED_I2C_DEVICE"@) {
                        before@.oled_i2c_device
                    } else {
                        Some(value)
                    },
                    ..kept
                },
            )
            &&& key == "BUTTON_LINE"@ && value == decimal_text(n) && n <= u32::MAX ==> is_pins(
                after,
                PinMapView { button_line: Some(n as u32), ..kept },
            )
            &&& key == "FAN_LINE"@ && value == decimal_text(n) && n <= u32::MAX ==> is_pins(
                after,
                PinMapView { fan_line: Some(n as u32), ..kept },
            )
            &&& key == "HARDWARE_PWM"@ && (lowered(value) == "1"@ || lowered(value) == "true"@)
                ==> is_pins(after, PinMapView { hardware_pwm: true, ..kept })
            &&& key == "HARDWARE_PWM"@ && (lowered(value) == "0"@ || lowered(value) == "false"@)
                ==> is_pins(after, PinMapView { hardware_pwm: false, ..kept })
            &&& key == "BUTTON_MODE"@ && lowered(value) == "output-poll"@ ==> is_pins(
                after,
                PinMapView { button_mode: ButtonMode::OutputPoll, ..kept },
            )
            &&& key == "BUTTON_MODE"@ && lowered(value) == "edge"@ ==> is_pins(
                after,
                PinMapView { button_mode: ButtonMode::Edge, ..kept },
            )
        }),
{
    let line = key + seq!['='] + value;
    assert forall|j: int| 0 <= j < line.len() implies line[j] != '\n' by {
        if j < key.len() {
            assert(line[j] == key[j]);
            assert(key.contains(key[j]));
        } else if j > key.len() {
            assert(line[j] == value[j - key.len() - 1]);
            assert(value.contains(value[j - key.len() - 1]));
        }
    }
    a_further_line_comes_last(input@, line);
    let file = text_lines(input@);
    assert(file.push(line).drop_last() =~= file);
    let none = Seq::<char>::empty();
    an_entry_is_read_from_its_line(none, key, none, none, value, none);
    assert(none + key + none + seq!['='] + none + value + none =~= line);
    let m = before@.raw;
    assert(entries_of(text_lines(longer@)) == Ok::<Map<Seq<char>, Seq<char>>, EnvFileErrorView>(
        m.insert(key, value),
    ));
    assert(pins_of(m) == Ok::<PinMapView, EnvFileErrorView>(before@));
    an_entry_sets_its_own_field(m, key, value, n);
}

/// `r` is the pin map with the given contents.
pub open spec fn is_pins(r: Result<PinMap, EnvFileError>, pins: PinMapView) -> bool {
    r matches Ok(p) && p@ == pins
}

/// Shows how long each key is, and where keys of the same length differ.
proof fn lemma_keys_differ()
    ensures
        "SDA"@.len() == 3 && "SDA"@[1] == 'D',
        "SCL"@.len() == 3 && "SCL"@[1] == 'C',
        "OLED_RESET"@.len() == 10 && "OLED_RESET"@[0] == 'O',
        "OLED_I2C_DEVICE"@.len() == 15,
        "I2C_DEVICE"@.len() == 10 && "I2C_DEVICE"@[0] == 'I',
        "BUTTON_CHIP"@.len() == 11 && "BUTTON_CHIP"@[7] == 'C',
        "BUTTON_LINE"@.len() == 11 && "BUTTON_LINE"@[7] == 'L',
        "BUTTON_MODE"@.len() == 11 && "BUTTON_MODE"@[7] == 'M',
        "FAN_CHIP"@.len() == 8 && "FAN_CHIP"@[4] == 'C',
        "FAN_LINE"@.len() == 8 && "FAN_LINE"@[4] == 'L',
        "PWMCHIP"@.len() == 7,
        "HARDWARE_PWM"@.len() == 12,
{
    reveal_strlit("SDA");
    reveal_strlit("SCL");
    reveal_strlit("OLED_RESET");
    reveal_strlit("OLED_I2C_DEVICE");
    reveal_strlit("I2C_DEVICE");
    reveal_strlit("BUTTON_CHIP");
    reveal_strlit("BUTTON_LINE");
    reveal_strlit("BUTTON_MODE");
    reveal_strlit("FAN_CHIP");
    reveal_strlit("FAN_LINE");
    reveal_strlit("PWMCHIP");
    reveal_strlit("HARDWARE_PWM");
}

/// Two calls: a file that was read describes what its contents describe. One that does not
/// exist describes the board without pins, and one that could not be read is an error with
/// that text.
pub proof fn a_file_describes_what_its_contents_do(
    text: String,
    input: &str,
    parsed: Result<PinMap, EnvFileError>,
    read: Result<PinMap, EnvFileError>,
    missing: Result<PinMap, EnvFileError>,
    empty: PinMap,
    failed: Result<PinMap, EnvFileError>,
)
    requires
        input@ == text@,
        call_ensures(PinMap::parse, (input,), parsed),
        call_ensures(PinMap::from_file_or_empty, (FileRead::Contents(text),), read),
        call_ensures(PinMap::from_file_or_empty, (FileRead::NotFound,), missing),
        call_ensures(PinMap::empty, (), empty),
        call_ensures(PinMap::from_file_or_empty, (FileRead::Failed(text),), failed),
    ensures
        parsed is Ok <==> read is Ok,
        parsed is Ok ==> read->Ok_0@ == parsed->Ok_0@,
        parsed is Err ==> read->Err_0@ == parsed->Err_0@,
        missing matches Ok(pins) && pins@ == empty@ && {
            &&& pins.sda is None
            &&& pins.scl is None
            &&& pins.oled_reset is None
            &&& pins.oled_i2c_device is None
            &&& pins.button_chip is None
            &&& pins.button_line is None
            &&& pins.button_mode == ButtonMode::Edge
            &&& pins.fan_chip is None
            &&& pins.fan_line is None
            &&& pins.pwmchip is None
            &&& !pins.hardware_pwm
            &&& pins.raw@ == Map::<Seq<char>, Seq<char>>::empty()
        },
        failed matches Err(EnvFileError::Io(t)) && t@ == text@,
{
    if let Ok(pins) = missing {
        assert(opt_text(pins.sda) is None);
        assert(opt_text(pins.scl) is None);
        assert(opt_text(pins.oled_reset) is None);
        assert(opt_text(pins.oled_i2c_device) is None);
        assert(opt_text(pins.button_chip) is None);
        assert(opt_text(pins.fan_chip) is None);
        assert(opt_text(pins.pwmchip) is None);
    }
}

/// A call for an optional line number: it is missing where the key is, the number where the
/// text is one that fits, and an error with the key and the text otherwise.
pub proof fn a_line_number_is_its_text(
    m: EnvMap,
    key: &'static str,
    r: Result<Option<u32>, EnvFileError>,
)
    requires
        call_ensures(parse_optional_u32, (&m, key), r),
    ensures
        match r {
            Ok(None) => !m@.contains_key(key@),
            Ok(Some(n)) => m@.contains_key(key@) && unsigned_value(m@[key@]) == Some(n as nat),
            Err(EnvFileError::Value { key: k, value, expected }) => {
                &&& m@.contains_key(key@)
                &&& !(unsigned_value(m@[key@]) matches Some(n) && n <= u32::MAX)
                &&& k@ == key@
                &&& value@ == m@[key@]
                &&& expected@ == "unsigned integer"@
            },
            Err(_) => false,
        },
{
}

/// Calls for the messages of errors: each holds what its error holds, in that order, and no
/// two kinds begin alike.
pub proof fn a_message_holds_what_the_error_holds(
    text: String,
    line: usize,
    message: String,
    key: String,
    value: String,
    expected: &'static str,
    key_text: &str,
    shown: &str,
    io: String,
    parse: String,
    bad: String,
    described: String,
)
    requires
        call_ensures(EnvFileError::describe, (&EnvFileError::Io(text),), io),
        call_ensures(EnvFileError::describe, (&EnvFileError::Parse { line, message },), parse),
        call_ensures(EnvFileError::describe, (&EnvFileError::Value { key, value, expected },), bad),
        shown@ == debug_text(value@),
        key_text@ == key@,
        call_ensures(describe_value, (key_text, shown, expected), described),
    ensures
        io@ == "env file I/O error: "@ + text@,
        parse@ == "env file parse error on line "@ + decimal_text(line as nat) + ": "@ + message@,
        described@ == "invalid env value for "@ + key@ + ": "@ + shown@ + ", expected "@
            + expected@,
        bad@ == described@,
{
}

} // verus!
