use penta_top_hat::env_file::{
    describe_value, parse_optional_u32, strip_comment, unquote, ButtonMode, EnvFileError, FileRead,
    PinMap,
};
use penta_top_hat::env_map::EnvMap;

#[test]
fn parses_rpi5_env_file() {
    let pins = PinMap::parse(
        r#"
            SDA=SDA
            SCL=SCL
            OLED_RESET=D23
            OLED_I2C_DEVICE=/dev/i2c-1
            BUTTON_CHIP=/dev/gpiochip4
            BUTTON_LINE=17
            FAN_CHIP=/dev/gpiochip4
            FAN_LINE=27
            HARDWARE_PWM=0
            "#,
    )
    .expect("pin map should parse");

    assert_eq!(pins.sda.as_deref(), Some("SDA"));
    assert_eq!(pins.oled_i2c_device.as_deref(), Some("/dev/i2c-1"));
    assert_eq!(pins.button_chip.as_deref(), Some("/dev/gpiochip4"));
    assert_eq!(pins.button_line, Some(17));
    assert_eq!(pins.button_mode, ButtonMode::Edge);
    assert_eq!(pins.fan_line, Some(27));
    assert!(!pins.hardware_pwm);
}

fn error_of(text: &str) -> String {
    match PinMap::parse(text) {
        Ok(pins) => panic!("unexpected {pins:?}"),
        Err(e) => e.describe(),
    }
}

#[test]
fn every_field_is_read() {
    let pins = PinMap::parse(
        "SDA=a\nSCL=b\nOLED_RESET=c\nI2C_DEVICE=d\nBUTTON_CHIP=e\nBUTTON_LINE=1\n\
         BUTTON_MODE=Output-Poll\nFAN_CHIP=f\nFAN_LINE=2\nPWMCHIP=g\nHARDWARE_PWM=TRUE\nOTHER=h",
    )
    .unwrap();
    assert_eq!(pins.sda.as_deref(), Some("a"));
    assert_eq!(pins.scl.as_deref(), Some("b"));
    assert_eq!(pins.oled_reset.as_deref(), Some("c"));
    assert_eq!(pins.oled_i2c_device.as_deref(), Some("d"));
    assert_eq!(pins.button_chip.as_deref(), Some("e"));
    assert_eq!(pins.button_line, Some(1));
    assert_eq!(pins.button_mode, ButtonMode::OutputPoll);
    assert_eq!(pins.fan_chip.as_deref(), Some("f"));
    assert_eq!(pins.fan_line, Some(2));
    assert_eq!(pins.pwmchip.as_deref(), Some("g"));
    assert!(pins.hardware_pwm);
    assert_eq!(pins.raw.get("OTHER").map(String::as_str), Some("h"));
    assert_eq!(pins.raw.entries().len(), 12);
    assert_eq!(pins.clone(), pins);
}

#[test]
fn a_blank_file_is_an_empty_pin_map() {
    assert_eq!(PinMap::parse("").unwrap(), PinMap::empty());
    assert_eq!(
        PinMap::parse("\r\n  # nothing = here\n\t\n").unwrap(),
        PinMap::empty()
    );
}

#[test]
fn files_that_do_not_exist_are_empty() {
    assert_eq!(
        PinMap::from_file_or_empty(FileRead::NotFound).unwrap(),
        PinMap::empty()
    );
    let pins = PinMap::from_file_or_empty(FileRead::Contents("FAN_LINE=3".to_string())).unwrap();
    assert_eq!(pins.fan_line, Some(3));
    let error = PinMap::from_file_or_empty(FileRead::Failed("denied".to_string())).unwrap_err();
    assert!(matches!(error, EnvFileError::Io(_)));
    assert_eq!(error.describe(), "env file I/O error: denied");
}

#[test]
fn the_last_entry_of_a_key_counts() {
    let pins = PinMap::parse("SDA=a\nSCL=x\nSDA=b").unwrap();
    assert_eq!(pins.sda.as_deref(), Some("b"));
    assert_eq!(pins.raw.entries().len(), 2);
}

#[test]
fn the_first_bad_line_is_told_by_its_number() {
    assert_eq!(
        error_of("SDA=a\n\nnonsense # =\n=x\n"),
        "env file parse error on line 3: expected KEY=value"
    );
    assert_eq!(
        error_of("SDA=a\r\n \t= x\nnonsense"),
        "env file parse error on line 2: empty key"
    );
}

#[test]
fn bad_values_are_told_in_order() {
    assert_eq!(
        error_of("FAN_LINE=y\nBUTTON_LINE=\"-1\"\n"),
        "invalid env value for BUTTON_LINE: \"-1\", expected unsigned integer"
    );
    assert_eq!(
        error_of("FAN_LINE=4294967296\nHARDWARE_PWM=x"),
        "invalid env value for FAN_LINE: \"4294967296\", expected unsigned integer"
    );
    assert_eq!(
        error_of("BUTTON_MODE=x\nHARDWARE_PWM=Yes"),
        "invalid env value for HARDWARE_PWM: \"yes\", expected 0/1 boolean"
    );
    assert_eq!(
        error_of("BUTTON_MODE='A\tB\"'"),
        "invalid env value for BUTTON_MODE: \"a\\tb\\\"\", expected edge or output-poll"
    );
}

#[test]
fn numbers_take_a_plus_sign() {
    assert_eq!(
        PinMap::parse("BUTTON_LINE=+007").unwrap().button_line,
        Some(7)
    );
    assert_eq!(
        PinMap::parse("FAN_LINE=4294967295").unwrap().fan_line,
        Some(u32::MAX)
    );
}

#[test]
fn the_display_device_has_a_fallback() {
    let both = PinMap::parse("I2C_DEVICE=a\nOLED_I2C_DEVICE=b").unwrap();
    assert_eq!(both.oled_i2c_device.as_deref(), Some("b"));
}

#[test]
fn comments_end_a_line_even_in_quotes() {
    assert_eq!(strip_comment("a # b # c"), "a ");
    assert_eq!(strip_comment("#"), "");
    assert_eq!(strip_comment("plain"), "plain");
    let pins = PinMap::parse("SDA=\"x#y\" # z").unwrap();
    assert_eq!(pins.sda.as_deref(), Some("\"x"));
}

#[test]
fn one_pair_of_quotes_is_removed() {
    assert_eq!(unquote("\"a b\""), "a b");
    assert_eq!(unquote("'a'"), "a");
    assert_eq!(unquote("\"\""), "");
    assert_eq!(unquote("\"\"a\"\""), "\"a\"");
    assert_eq!(unquote("\"a'"), "\"a'");
    assert_eq!(unquote("\""), "\"");
    assert_eq!(unquote("'\u{e9}'"), "\u{e9}");
    assert_eq!(unquote("\u{e9}"), "\u{e9}");
    assert_eq!(unquote(""), "");
}

#[test]
fn quoted_values_keep_their_space() {
    let pins = PinMap::parse("  SDA = ' x = y '  \n").unwrap();
    assert_eq!(pins.sda.as_deref(), Some(" x = y "));
}

#[test]
fn optional_numbers_are_looked_up() {
    let mut raw = EnvMap::new();
    assert!(matches!(parse_optional_u32(&raw, "N"), Ok(None)));
    raw.insert("N".to_string(), "12".to_string());
    assert!(matches!(parse_optional_u32(&raw, "N"), Ok(Some(12))));
    raw.insert("N".to_string(), "1_2".to_string());
    match parse_optional_u32(&raw, "N") {
        Err(EnvFileError::Value {
            key,
            value,
            expected,
        }) => assert_eq!((key.as_str(), value.as_str(), expected), ("N", "1_2", "unsigned integer")),
        other => panic!("unexpected {other:?}"),
    }
}

#[test]
fn value_messages_show_what_they_are_given() {
    assert_eq!(
        describe_value("K", "<v>", "e"),
        "invalid env value for K: <v>, expected e"
    );
}

#[test]
fn the_map_keeps_key_order() {
    let mut map = EnvMap::new();
    for key in ["b", "", "ab", "a", "\u{e9}", "z", "b"] {
        map.insert(key.to_string(), format!("<{key}>"));
    }
    let keys: Vec<&str> = map.entries().iter().map(|(k, _)| k.as_str()).collect();
    assert_eq!(keys, ["", "a", "ab", "b", "z", "\u{e9}"]);
    assert_eq!(map.get("ab").map(String::as_str), Some("<ab>"));
    assert_eq!(map.get("abc"), None);
    map.insert("a".to_string(), "new".to_string());
    assert_eq!(map.get("a").map(String::as_str), Some("new"));
    assert_eq!(map.entries().len(), 6);
}

#[test]
fn a_written_file_is_read_back() {
    let entries = [
        ("PATH", " /a b\t"),
        ("QUOTES", "\"'x'\""),
        ("SIGNS", "a=b=c"),
        ("EMPTY", ""),
        ("PATH", "later"),
    ];
    let text: String = entries
        .iter()
        .map(|(key, value)| format!("{key}=\"{value}\"\n"))
        .collect();
    let pins = PinMap::parse(&text).unwrap();
    let read: Vec<(&str, &str)> = pins
        .raw
        .entries()
        .iter()
        .map(|(key, value)| (key.as_str(), value.as_str()))
        .collect();
    assert_eq!(
        read,
        [
            ("EMPTY", ""),
            ("PATH", "later"),
            ("QUOTES", "\"'x'\""),
            ("SIGNS", "a=b=c"),
        ]
    );
}

#[test]
fn unknown_keys_change_no_field() {
    let plain = PinMap::parse("SDA=a\nFAN_LINE=2").unwrap();
    let mut extended = PinMap::parse("SDA=a\nsda=b\nFAN_LINE=2\nX=\n").unwrap();
    assert_eq!(extended.raw.get("sda").map(String::as_str), Some("b"));
    assert_eq!(extended.raw.get("X").map(String::as_str), Some(""));
    extended.raw = plain.raw.clone();
    assert_eq!(extended, plain);
}
