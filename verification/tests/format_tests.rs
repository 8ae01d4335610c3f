use promptwire::json_write::{bool_string, dec_string, escape_json, jstr_string, temp_string};
use promptwire::model::{ApiError, ConfigError};

#[test]
fn decimal_rendering_exact() {
    assert_eq!(dec_string(0), "0");
    assert_eq!(dec_string(7), "7");
    assert_eq!(dec_string(4096), "4096");
    assert_eq!(dec_string(u32::MAX), "4294967295");
}

#[test]
fn temperature_rendering_exact() {
    assert_eq!(temp_string(0), "0.00");
    assert_eq!(temp_string(5), "0.05");
    assert_eq!(temp_string(70), "0.70");
    assert_eq!(temp_string(100), "1.00");
    assert_eq!(temp_string(235), "2.35");
}

#[test]
fn booleans_render_as_json() {
    assert_eq!(bool_string(true), "true");
    assert_eq!(bool_string(false), "false");
}

#[test]
fn escaping_exact() {
    assert_eq!(escape_json("plain"), "plain");
    assert_eq!(escape_json("a\"b\\c"), "a\\\"b\\\\c");
    assert_eq!(escape_json("x\ny\tz\r"), "x\\ny\\tz\\r");
    assert_eq!(escape_json("\u{0}\u{1f}"), "\\u0000\\u001f");
    assert_eq!(escape_json("héllo ünïcode"), "héllo ünïcode");
}

#[test]
fn string_literals_are_quoted() {
    assert_eq!(jstr_string("hi"), "\"hi\"");
    assert_eq!(jstr_string(""), "\"\"");
}

#[test]
fn transport_errors_carry_their_detail() {
    let e = ApiError::Transport("connection refused".to_string());
    assert_eq!(e.message(), "connection refused");
}

#[test]
fn missing_target_lang_message_names_both_sources() {
    let e = ApiError::Configuration(ConfigError::MissingTargetLang);
    assert_eq!(
        e.message(),
        "target language ('model') must be specified either in the api config or in the prompt config"
    );
}

#[test]
fn missing_version_message_names_the_field() {
    let e = ApiError::Configuration(ConfigError::MissingVersion);
    assert_eq!(
        e.message(),
        "version required for Anthropic, please add version key to your api config"
    );
}
