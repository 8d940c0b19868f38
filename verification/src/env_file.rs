//! Board pin maps, read from `KEY=value` environment files.

use crate::env_map::EnvMap;
use crate::number::{decimal_text, parse_unsigned, to_decimal, unsigned_up_to};
use crate::text::{
    find, find_char, lines, lowered, same_text, split_at_first, split_once,
    text_lines, texts, to_ascii_lowercase, trim, trimmed,
};
use vstd::prelude::*;

verus! {

/// How the button line is watched.
#[derive(Debug, Clone, Copy, PartialEq, Eq, Structural)]
pub enum ButtonMode {
    /// Edge events of an input line.
    Edge,
    /// Polled level of an output line that is held high.
    OutputPoll,
}

/// The pins and devices of a board.
#[derive(Debug, Clone, PartialEq, Eq)]
pub struct PinMap {
    pub sda: Option<String>,
    pub scl: Option<String>,
    pub oled_reset: Option<String>,
    pub oled_i2c_device: Option<String>,
    pub button_chip: Option<String>,
    pub button_line: Option<u32>,
    pub button_mode: ButtonMode,
    pub fan_chip: Option<String>,
    pub fan_line: Option<u32>,
    pub pwmchip: Option<String>,
    pub hardware_pwm: bool,
    /// Every entry of the file, known or not.
    pub raw: EnvMap,
}

/// Why a pin map could not be read.
#[derive(Debug)]
pub enum EnvFileError {
    /// The file could not be read; holds the text of the I/O error.
    Io(String),
    /// A line is no entry; lines count from one.
    Parse { line: usize, message: String },
    /// An entry has a value that its key does not take.
    Value { key: String, value: String, expected: &'static str },
}

/// What came of reading the file.
#[derive(Debug)]
pub enum FileRead {
    /// The contents of the file.
    Contents(String),
    /// There is no such file.
    NotFound,
    /// The read failed otherwise; holds the text of the I/O error.
    Failed(String),
}

/// The contents of a [`PinMap`].
#[verifier::ext_equal]
pub struct PinMapView {
    pub sda: Option<Seq<char>>,
    pub scl: Option<Seq<char>>,
    pub oled_reset: Option<Seq<char>>,
    pub oled_i2c_device: Option<Seq<char>>,
    pub button_chip: Option<Seq<char>>,
    pub button_line: Option<u32>,
    pub button_mode: ButtonMode,
    pub fan_chip: Option<Seq<char>>,
    pub fan_line: Option<u32>,
    pub pwmchip: Option<Seq<char>>,
    pub hardware_pwm: bool,
    pub raw: Map<Seq<char>, Seq<char>>,
}

/// The contents of an [`EnvFileError`].
pub enum EnvFileErrorView {
    Io(Seq<char>),
    Parse { line: nat, message: Seq<char> },
    Value { key: Seq<char>, value: Seq<char>, expected: Seq<char> },
}

/// The text of an optional string.
pub open spec fn opt_text(o: Option<String>) -> Option<Seq<char>> {
    match o {
        Some(s) => Some(s@),
        None => None,
    }
}

impl View for PinMap {
    type V = PinMapView;

    open spec fn view(&self) -> PinMapView {
        PinMapView {
            sda: opt_text(self.sda),
            scl: opt_text(self.scl),
            oled_reset: opt_text(self.oled_reset),
            oled_i2c_device: opt_text(self.oled_i2c_device),
            button_chip: opt_text(self.button_chip),
            button_line: self.button_line,
            button_mode: self.button_mode,
            fan_chip: opt_text(self.fan_chip),
            fan_line: self.fan_line,
            pwmchip: opt_text(self.pwmchip),
            hardware_pwm: self.hardware_pwm,
            raw: self.raw@,
        }
    }
}

impl View for EnvFileError {
    type V = EnvFileErrorView;

    open spec fn view(&self) -> EnvFileErrorView {
        match self {
            EnvFileError::Io(text) => EnvFileErrorView::Io(text@),
            EnvFileError::Parse { line, message } => EnvFileErrorView::Parse {
                line: *line as nat,
                message: message@,
            },
            EnvFileError::Value { key, value, expected } => EnvFileErrorView::Value {
                key: key@,
                value: value@,
                expected: expected@,
            },
        }
    }
}

/// A line up to its first `#`.
pub open spec fn uncommented(line: Seq<char>) -> Seq<char> {
    line.take(find(line, '#'))
}

/// `value` starts and ends with `quote`, and these are two characters.
pub open spec fn is_quoted_by(value: Seq<char>, quote: char) -> bool {
    value.len() >= 2 && value[0] == quote && value.last() == quote
}

/// A value without the pair of double or single quotes around it, where it has one.
pub open spec fn unquoted(value: Seq<char>) -> Seq<char> {
    if is_quoted_by(value, '"') || is_quoted_by(value, '\'') {
        value.subrange(1, value.len() - 1)
    } else {
        value
    }
}

/// What a line of the file says.
pub enum LineMeaning {
    /// Nothing: it is blank, or blank but for a comment.
    Blank,
    /// It lacks the `=`.
    NoEquals,
    /// It has nothing but white space before the first `=`.
    EmptyKey,
    /// The key has the value.
    Entry { key: Seq<char>, value: Seq<char> },
}

/// What a line of the file says.
pub open spec fn line_meaning(raw_line: Seq<char>) -> LineMeaning {
    let line = trimmed(uncommented(raw_line));
    if line.len() == 0 {
        LineMeaning::Blank
    } else {
        match split_at_first(line, '=') {
            None => LineMeaning::NoEquals,
            Some((key, value)) => if trimmed(key).len() == 0 {
                LineMeaning::EmptyKey
            } else {
                LineMeaning::Entry { key: trimmed(key), value: unquoted(trimmed(value)) }
            },
        }
    }
}

/// The entries of a file with the given lines, or the error for the first line that is no
/// entry.
pub open spec fn entries_of(file: Seq<Seq<char>>) -> Result<
    Map<Seq<char>, Seq<char>>,
    EnvFileErrorView,
>
    decreases file.len(),
{
    if file.len() == 0 {
        Ok(Map::empty())
    } else {
        match entries_of(file.drop_last()) {
            Err(e) => Err(e),
            Ok(m) => match line_meaning(file.last()) {
                LineMeaning::Blank => Ok(m),
                LineMeaning::NoEquals => Err(
                    EnvFileErrorView::Parse { line: file.len(), message: "expected KEY=value"@ },
                ),
                LineMeaning::EmptyKey => Err(
                    EnvFileErrorView::Parse { line: file.len(), message: "empty key"@ },
                ),
                LineMeaning::Entry { key, value } => Ok(m.insert(key, value)),
            },
        }
    }
}

/// The value of `key`, where there is one.
pub open spec fn setting(m: Map<Seq<char>, Seq<char>>, key: Seq<char>) -> Option<Seq<char>> {
    if m.contains_key(key) {
        Some(m[key])
    } else {
        None
    }
}

/// The optional line number under `key`.
pub open spec fn line_setting(m: Map<Seq<char>, Seq<char>>, key: Seq<char>) -> Result<
    Option<u32>,
    EnvFileErrorView,
> {
    match setting(m, key) {
        None => Ok(None),
        Some(value) => match unsigned_up_to(value, u32::MAX as nat) {
            Some(n) => Ok(Some(n as u32)),
            None => Err(
                EnvFileErrorView::Value { key, value, expected: "unsigned integer"@ },
            ),
        },
    }
}

/// Whether the fan has hardware PWM; it has not unless the file says so.
pub open spec fn pwm_setting(m: Map<Seq<char>, Seq<char>>) -> Result<bool, EnvFileErrorView> {
    match setting(m, "HARDWARE_PWM"@) {
        None => Ok(false),
        Some(value) => {
            let v = lowered(value);
            if v == "1"@ || v == "true"@ {
                Ok(true)
            } else if v == "0"@ || v == "false"@ {
                Ok(false)
            } else {
                Err(
                    EnvFileErrorView::Value {
                        key: "HARDWARE_PWM"@,
                        value: v,
                        expected: "0/1 boolean"@,
                    },
                )
            }
        },
    }
}

/// How the button is watched; by its edges unless the file says otherwise.
pub open spec fn mode_setting(m: Map<Seq<char>, Seq<char>>) -> Result<
    ButtonMode,
    EnvFileErrorView,
> {
    match setting(m, "BUTTON_MODE"@) {
        None => Ok(ButtonMode::Edge),
        Some(value) => {
            let v = lowered(value);
            if v == "output-poll"@ {
                Ok(ButtonMode::OutputPoll)
            } else if v == "edge"@ {
                Ok(ButtonMode::Edge)
            } else {
                Err(
                    EnvFileErrorView::Value {
                        key: "BUTTON_MODE"@,
                        value: v,
                        expected: "edge or output-poll"@,
                    },
                )
            }
        },
    }
}

/// The pin map that a set of entries describes. Of several bad values the first one in the
/// order button line, fan line, hardware PWM, button mode is reported.
pub open spec fn pins_of(m: Map<Seq<char>, Seq<char>>) -> Result<PinMapView, EnvFileErrorView> {
    match (
        line_setting(m, "BUTTON_LINE"@),
        line_setting(m, "FAN_LINE"@),
        pwm_setting(m),
        mode_setting(m),
    ) {
        (Err(e), _, _, _) => Err(e),
        (Ok(_), Err(e), _, _) => Err(e),
        (Ok(_), Ok(_), Err(e), _) => Err(e),
        (Ok(_), Ok(_), Ok(_), Err(e)) => Err(e),
        (Ok(button_line), Ok(fan_line), Ok(hardware_pwm), Ok(button_mode)) => Ok(
            PinMapView {
                sda: setting(m, "SDA"@),
                scl: setting(m, "SCL"@),
                oled_reset: setting(m, "OLED_RESET"@),
                oled_i2c_device: match setting(m, "OLED_I2C_DEVICE"@) {
                    Some(device) => Some(device),
                    None => setting(m, "I2C_DEVICE"@),
                },
                button_chip: setting(m, "BUTTON_CHIP"@),
                button_line,
                button_mode,
                fan_chip: setting(m, "FAN_CHIP"@),
                fan_line,
                pwmchip: setting(m, "PWMCHIP"@),
                hardware_pwm,
                raw: m,
            },
        ),
    }
}

/// The pin map that a file with the given contents describes, or why it describes none.
pub open spec fn pins_of_file(contents: Seq<char>) -> Result<PinMapView, EnvFileErrorView> {
    match entries_of(text_lines(contents)) {
        Err(e) => Err(e),
        Ok(m) => pins_of(m),
    }
}

/// The pin map without any pin.
pub open spec fn no_pins() -> PinMapView {
    PinMapView {
        sda: None,
        scl: None,
        oled_reset: None,
        oled_i2c_device: None,
        button_chip: None,
        button_line: None,
        button_mode: ButtonMode::Edge,
        fan_chip: None,
        fan_line: None,
        pwmchip: None,
        hardware_pwm: false,
        raw: Map::empty(),
    }
}

/// Returns a line up to its first `#`.
pub fn strip_comment(line: &str) -> (s: &str)
    ensures
        s@ == uncommented(line@),
{
    let i: usize = find_char(line, '#');
    line.substring_char(0, i)
}

/// Returns a value without the pair of quotes around it, where it has one.
pub fn unquote(value: &str) -> (s: String)
    ensures
        s@ == unquoted(value@),
{
    let n: usize = value.unicode_len();
    if n >= 2 {
        let first: char = value.get_char(0);
        let last: char = value.get_char(n - 1);
        if (first == '"' && last == '"') || (first == '\'' && last == '\'') {
            return value.substring_char(1, n - 1).to_owned();
        }
    }
    value.to_owned()
}

/// Returns the optional line number under `key`.
pub fn parse_optional_u32(raw: &EnvMap, key: &'static str) -> (r: Result<
    Option<u32>,
    EnvFileError,
>)
    ensures
        match r {
            Ok(n) => line_setting(raw@, key@) == Ok::<Option<u32>, EnvFileErrorView>(n),
            Err(e) => line_setting(raw@, key@) == Err::<Option<u32>, EnvFileErrorView>(e@),
        },
{
    match raw.get(key) {
        None => Ok(None),
        Some(value) => match parse_unsigned(value.as_str(), u32::MAX as u64) {
            Some(n) => Ok(Some(n as u32)),
            None => Err(
                EnvFileError::Value {
                    key: key.to_owned(),
                    value: value.clone(),
                    expected: "unsigned integer",
                },
            ),
        },
    }
}

fn parse_hardware_pwm(raw: &EnvMap) -> (r: Result<bool, EnvFileError>)
    ensures
        match r {
            Ok(b) => pwm_setting(raw@) == Ok::<bool, EnvFileErrorView>(b),
            Err(e) => pwm_setting(raw@) == Err::<bool, EnvFileErrorView>(e@),
        },
{
    match raw.get("HARDWARE_PWM") {
        None => Ok(false),
        Some(value) => {
            let v = to_ascii_lowercase(value.as_str());
            if same_text(v.as_str(), "1") || same_text(v.as_str(), "true") {
                Ok(true)
            } else if same_text(v.as_str(), "0") || same_text(v.as_str(), "false") {
                Ok(false)
            } else {
                Err(
                    EnvFileError::Value {
                        key: "HARDWARE_PWM".to_owned(),
                        value: v,
                        expected: "0/1 boolean",
                    },
                )
            }
        },
    }
}

fn parse_button_mode(raw: &EnvMap) -> (r: Result<ButtonMode, EnvFileError>)
    ensures
        match r {
            Ok(b) => mode_setting(raw@) == Ok::<ButtonMode, EnvFileErrorView>(b),
            Err(e) => mode_setting(raw@) == Err::<ButtonMode, EnvFileErrorView>(e@),
        },
{
    match raw.get("BUTTON_MODE") {
        None => Ok(ButtonMode::Edge),
        Some(value) => {
            let v = to_ascii_lowercase(value.as_str());
            if same_text(v.as_str(), "output-poll") {
                Ok(ButtonMode::OutputPoll)
            } else if same_text(v.as_str(), "edge") {
                Ok(ButtonMode::Edge)
            } else {
                Err(
                    EnvFileError::Value {
                        key: "BUTTON_MODE".to_owned(),
                        value: v,
                        expected: "edge or output-poll",
                    },
                )
            }
        },
    }
}

fn text_setting(raw: &EnvMap, key: &str) -> (value: Option<String>)
    ensures
        opt_text(value) == setting(raw@, key@),
{
    match raw.get(key) {
        Some(value) => Some(value.clone()),
        None => None,
    }
}

proof fn lemma_entries_error_stays(file: Seq<Seq<char>>, k: int)
    requires
        0 <= k <= file.len(),
        entries_of(file.take(k)) is Err,
    ensures
        entries_of(file) == entries_of(file.take(k)),
    decreases file.len(),
{
    if k == file.len() {
        assert(file.take(k) =~= file);
    } else {
        assert(file.drop_last().take(k) =~= file.take(k));
        lemma_entries_error_stays(file.drop_last(), k);
    }
}

/// Reads the entries of the file with the given lines.
fn parse_entries(file: &Vec<String>) -> (r: Result<EnvMap, EnvFileError>)
    ensures
        match r {
            Ok(m) => entries_of(texts(file@)) == Ok::<
                Map<Seq<char>, Seq<char>>,
                EnvFileErrorView,
            >(m@),
            Err(e) => entries_of(texts(file@)) == Err::<
                Map<Seq<char>, Seq<char>>,
                EnvFileErrorView,
            >(e@),
        },
{
    let mut raw = EnvMap::new();
    let ghost all = texts(file@);
    for idx in 0..file.len()
        invariant
            all == texts(file@),
            entries_of(all.take(idx as int)) == Ok::<Map<Seq<char>, Seq<char>>, EnvFileErrorView>(
                raw@,
            ),
    {
        let ghost upto = all.take(idx + 1);
        proof {
            assert(upto.drop_last() =~= all.take(idx as int));
            assert(upto.last() == file@[idx as int]@);
            if entries_of(upto) is Err {
                lemma_entries_error_stays(all, idx + 1);
            }
        }
        let line_number: usize = idx + 1;
        let line = trim(strip_comment(file[idx].as_str()));
        if !line.is_empty() {
            match split_once(line, '=') {
                None => {
                    return Err(
                        EnvFileError::Parse {
                            line: line_number,
                            message: "expected KEY=value".to_owned(),
                        },
                    );
                },
                Some((key, value)) => {
                    let key = trim(key);
                    if key.is_empty() {
                        return Err(
                            EnvFileError::Parse {
                                line: line_number,
                                message: "empty key".to_owned(),
                            },
                        );
                    }
                    raw.insert(key.to_owned(), unquote(trim(value)));
                },
            }
        }
    }
    assert(all.take(all.len() as int) =~= all);
    Ok(raw)
}

impl PinMap {
    /// The pin map without any pin.
    pub fn empty() -> (pins: Self)
        ensures
            pins@ == no_pins(),
    {
        PinMap {
            sda: None,
            scl: None,
            oled_reset: None,
            oled_i2c_device: None,
            button_chip: None,
            button_line: None,
            button_mode: ButtonMode::Edge,
            fan_chip: None,
            fan_line: None,
            pwmchip: None,
            hardware_pwm: false,
            raw: EnvMap::new(),
        }
    }

    /// Reads a pin map from the contents of an environment file.
    pub fn parse(input: &str) -> (r: Result<Self, EnvFileError>)
        ensures
            match r {
                Ok(pins) => pins_of_file(input@) == Ok::<PinMapView, EnvFileErrorView>(pins@),
                Err(e) => pins_of_file(input@) == Err::<PinMapView, EnvFileErrorView>(e@),
            },
    {
        let file = lines(input);
        let raw = match parse_entries(&file) {
            Ok(raw) => raw,
            Err(e) => return Err(e),
        };
        let button_line = match parse_optional_u32(&raw, "BUTTON_LINE") {
            Ok(n) => n,
            Err(e) => return Err(e),
        };
        let fan_line = match parse_optional_u32(&raw, "FAN_LINE") {
            Ok(n) => n,
            Err(e) => return Err(e),
        };
        let hardware_pwm = match parse_hardware_pwm(&raw) {
            Ok(b) => b,
            Err(e) => return Err(e),
        };
        let button_mode = match parse_button_mode(&raw) {
            Ok(mode) => mode,
            Err(e) => return Err(e),
        };
        let oled_i2c_device = match text_setting(&raw, "OLED_I2C_DEVICE") {
            Some(device) => Some(device),
            None => text_setting(&raw, "I2C_DEVICE"),
        };
        Ok(
            PinMap {
                sda: text_setting(&raw, "SDA"),
                scl: text_setting(&raw, "SCL"),
                oled_reset: text_setting(&raw, "OLED_RESET"),
                oled_i2c_device,
                button_chip: text_setting(&raw, "BUTTON_CHIP"),
                button_line,
                button_mode,
                fan_chip: text_setting(&raw, "FAN_CHIP"),
                fan_line,
                pwmchip: text_setting(&raw, "PWMCHIP"),
                hardware_pwm,
                raw,
            },
        )
    }

    /// The pin map of a file that was read: that of its contents, or the empty one where
    /// there is no such file.
    pub fn from_file_or_empty(file: FileRead) -> (r: Result<Self, EnvFileError>)
        ensures
            match (file, r) {
                (FileRead::Contents(text), Ok(pins)) => pins_of_file(text@) == Ok::<
                    PinMapView,
                    EnvFileErrorView,
                >(pins@),
                (FileRead::Contents(text), Err(e)) => pins_of_file(text@) == Err::<
                    PinMapView,
                    EnvFileErrorView,
                >(e@),
                (FileRead::NotFound, Ok(pins)) => pins@ == no_pins(),
                (FileRead::NotFound, Err(_)) => false,
                (FileRead::Failed(_), Ok(_)) => false,
                (FileRead::Failed(text), Err(e)) => e@ == EnvFileErrorView::Io(text@),
            },
    {
        match file {
            FileRead::Contents(text) => Self::parse(text.as_str()),
            FileRead::NotFound => Ok(Self::empty()),
            FileRead::Failed(text) => Err(EnvFileError::Io(text)),
        }
    }
}

/// A text as `Debug` shows it: in double quotes, with escapes.
pub uninterp spec fn debug_text(s: Seq<char>) -> Seq<char>;

/// Formats `s` with `{:?}`, the `Debug` impl of `str`. The result is a function of the text
/// alone; its escapes are left to the name `debug_text`.
#[verifier::external_body]
fn format_debug(s: &str) -> (shown: String)
    ensures
        shown@ == debug_text(s@),
{
    format!("{s:?}")
}

/// The message of an [`EnvFileError::Value`] whose value is shown as `shown`.
pub open spec fn value_message(
    key: Seq<char>,
    shown: Seq<char>,
    expected: Seq<char>,
) -> Seq<char> {
    "invalid env value for "@ + key + ": "@ + shown + ", expected "@ + expected
}

/// Writes the message for a bad value that is shown as `shown`.
pub fn describe_value(key: &str, shown: &str, expected: &str) -> (s: String)
    ensures
        s@ == value_message(key@, shown@, expected@),
{
    let mut s = "invalid env value for ".to_owned();
    s.append(key);
    s.append(": ");
    s.append(shown);
    s.append(", expected ");
    s.append(expected);
    s
}

/// The message of an error.
pub open spec fn error_message(e: EnvFileErrorView) -> Seq<char> {
    match e {
        EnvFileErrorView::Io(text) => "env file I/O error: "@ + text,
        EnvFileErrorView::Parse { line, message } => "env file parse error on line "@
            + decimal_text(line) + ": "@ + message,
        EnvFileErrorView::Value { key, value, expected } => value_message(
            key,
            debug_text(value),
            expected,
        ),
    }
}

impl EnvFileError {
    /// The message of the error.
    pub fn describe(&self) -> (s: String)
        ensures
            s@ == error_message(self@),
    {
        match self {
            EnvFileError::Io(text) => {
                let mut s = "env file I/O error: ".to_owned();
                s.append(text.as_str());
                s
            },
            EnvFileError::Parse { line, message } => {
                let mut s = "env file parse error on line ".to_owned();
                s.append(to_decimal(*line as u64).as_str());
                s.append(": ");
                s.append(message.as_str());
                s
            },
            EnvFileError::Value { key, value, expected } => {
                let shown = format_debug(value.as_str());
                describe_value(key.as_str(), shown.as_str(), expected)
            },
        }
    }
}

} // verus!
