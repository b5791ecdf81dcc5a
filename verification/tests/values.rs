use convars::console::Console;
use convars::error::ConVarError;
use convars::value::{matches_token, ConVarType};

#[test]
fn true_tokens_in_any_case() {
    for token in [
        "true", "t", "1", "y", "yes", "on", "TRUE", "T", "Y", "YES", "ON", "True", "tRuE", "yEs",
        "oN", "On",
    ] {
        assert_eq!(bool::from_convar_str(token), Ok(true), "{}", token);
    }
}

#[test]
fn false_tokens_in_any_case() {
    for token in [
        "false", "f", "0", "n", "no", "off", "FALSE", "F", "N", "NO", "OFF", "False", "fAlSe",
        "nO", "Off", "oFF",
    ] {
        assert_eq!(bool::from_convar_str(token), Ok(false), "{}", token);
    }
}

#[test]
fn other_tokens_are_no_booleans() {
    for token in [
        "", " ", "2", "10", "01", "tr", "truee", " true", "true ", "yess", "o", "of", "onn",
        "nope", "tru\u{e9}", "\u{212a}", "y\u{e9}s", "t\n",
    ] {
        assert_eq!(
            bool::from_convar_str(token),
            Err(ConVarError::ParseError(format!(
                "invalid boolean representation: {}",
                token
            ))),
            "{:?}",
            token
        );
    }
}

#[test]
fn booleans_are_written_in_full() {
    assert_eq!(true.to_convar_str(), "true");
    assert_eq!(false.to_convar_str(), "false");
    assert_eq!(bool::from_convar_str(&true.to_convar_str()), Ok(true));
    assert_eq!(bool::from_convar_str(&false.to_convar_str()), Ok(false));
}

#[test]
fn matches_token_folds_only_the_value() {
    assert!(matches_token("YES", "yes"));
    assert!(matches_token("yes", "yes"));
    assert!(matches_token("", ""));
    assert!(!matches_token("yes", "YES"));
    assert!(!matches_token("ye", "yes"));
    assert!(!matches_token("yes", "ye"));
    assert!(!matches_token("yet", "yes"));
    assert!(matches_token("[Z@`", "[z@`"));
    assert!(matches_token("\u{c9}A", "\u{c9}a"));
    assert!(!matches_token("\u{c9}", "\u{e9}"));
}

#[test]
fn integers_are_read_in_decimal() {
    assert_eq!(i32::from_convar_str("0"), Ok(0));
    assert_eq!(i32::from_convar_str("-0"), Ok(0));
    assert_eq!(i32::from_convar_str("42"), Ok(42));
    assert_eq!(i32::from_convar_str("+42"), Ok(42));
    assert_eq!(i32::from_convar_str("-42"), Ok(-42));
    assert_eq!(i32::from_convar_str("007"), Ok(7));
    assert_eq!(i32::from_convar_str("2147483647"), Ok(i32::MAX));
    assert_eq!(i32::from_convar_str("-2147483648"), Ok(i32::MIN));
}

#[test]
fn malformed_integers_are_refused_with_a_message() {
    let invalid = Err(ConVarError::ParseError(
        "invalid digit found in string".to_string(),
    ));
    assert_eq!(i32::from_convar_str("notanint"), invalid);
    assert_eq!(i32::from_convar_str("-"), invalid);
    assert_eq!(i32::from_convar_str("+"), invalid);
    assert_eq!(i32::from_convar_str(" 1"), invalid);
    assert_eq!(i32::from_convar_str("1 "), invalid);
    assert_eq!(i32::from_convar_str("1_000"), invalid);
    assert_eq!(i32::from_convar_str("1.0"), invalid);
    assert_eq!(i32::from_convar_str("--1"), invalid);
    assert_eq!(
        i32::from_convar_str(""),
        Err(ConVarError::ParseError(
            "cannot parse integer from empty string".to_string()
        ))
    );
    assert_eq!(
        i32::from_convar_str("2147483648"),
        Err(ConVarError::ParseError(
            "number too large to fit in target type".to_string()
        ))
    );
    assert_eq!(
        i32::from_convar_str("-2147483649"),
        Err(ConVarError::ParseError(
            "number too small to fit in target type".to_string()
        ))
    );
}

#[test]
fn integers_are_written_in_decimal() {
    assert_eq!(0i32.to_convar_str(), "0");
    assert_eq!(7i32.to_convar_str(), "7");
    assert_eq!(10i32.to_convar_str(), "10");
    assert_eq!((-7i32).to_convar_str(), "-7");
    assert_eq!(1234567i32.to_convar_str(), "1234567");
    assert_eq!(i32::MAX.to_convar_str(), "2147483647");
    assert_eq!(i32::MIN.to_convar_str(), "-2147483648");
}

#[test]
fn integers_read_back_what_was_written() {
    for v in [0, 1, -1, 9, 10, 99, 100, -100, 65536, i32::MAX, i32::MIN] {
        assert_eq!(i32::from_convar_str(&v.to_convar_str()), Ok(v));
    }
}

#[test]
fn errors_have_a_text() {
    assert_eq!(ConVarError::UnknownConVar.to_string(), "unknown convar");
    assert_eq!(
        ConVarError::ParseError("bad".to_string()).to_string(),
        "parse error: bad"
    );
    assert_eq!(
        ConVarError::ParseError(String::new()).to_string(),
        "parse error: "
    );
}

#[test]
fn console_starts_hidden() {
    assert!(!Console::new().is_visible);
    assert_eq!(Console::default(), Console { is_visible: false });
}

#[test]
fn console_flips_only_when_the_key_went_down() {
    let mut console = Console::new();
    console.on_toggle_key(false);
    assert!(!console.is_visible);
    console.on_toggle_key(true);
    assert!(console.is_visible);
    console.on_toggle_key(false);
    assert!(console.is_visible);
    console.on_toggle_key(true);
    assert!(!console.is_visible);
}
