use label_print::config::bind_host;
use label_print::config::bind_port;
use label_print::config::parse_port;
use label_print::config::printer_target;
use label_print::request::normalize;
use label_print::request::PrintRequest;
use label_print::yaml::render_yaml;

fn request(label: &str, subtitle: Option<&str>, small_title: Option<bool>) -> PrintRequest {
    PrintRequest {
        label_text: label.to_string(),
        subtitle: subtitle.map(|s| s.to_string()),
        small_title,
    }
}

fn yaml_for(label: &str, subtitle: Option<&str>, small_title: Option<bool>) -> String {
    render_yaml(&normalize(&request(label, subtitle, small_title)))
}

#[test]
fn plain_fields_rendered() {
    assert_eq!(
        yaml_for("Milk", Some("2%"), Some(false)),
        "grocery: \"Milk\"\nsubtitle: \"2%\"\nsmall-title: false\n"
    );
}

#[test]
fn absent_subtitle_rendered_null() {
    assert_eq!(
        yaml_for("Eggs", None, None),
        "grocery: \"Eggs\"\nsubtitle: null\nsmall-title: true\n"
    );
}

#[test]
fn blank_subtitle_same_as_absent() {
    assert_eq!(yaml_for("Eggs", Some(""), None), yaml_for("Eggs", None, None));
    assert_eq!(yaml_for("Eggs", Some("  \t\r\n"), None), yaml_for("Eggs", None, None));
}

#[test]
fn unicode_blank_subtitle_same_as_absent() {
    // Vertical tab, no-break space, em space, ideographic space: all blank,
    // exactly as trimming treats them.
    assert_eq!(
        yaml_for("Eggs", Some("\u{b}\u{a0}\u{2003}\u{3000}"), None),
        yaml_for("Eggs", None, None)
    );
    assert!("\u{b}\u{a0}\u{2003}\u{3000}".trim().is_empty());
}

#[test]
fn whitespace_inside_subtitle_kept() {
    assert_eq!(
        yaml_for("Eggs", Some(" a "), None),
        "grocery: \"Eggs\"\nsubtitle: \" a \"\nsmall-title: true\n"
    );
}

#[test]
fn omitted_small_title_same_as_true() {
    assert_eq!(yaml_for("Eggs", None, None), yaml_for("Eggs", None, Some(true)));
}

#[test]
fn special_characters_escaped() {
    assert_eq!(
        yaml_for("a\"b\\c\nd", None, None),
        "grocery: \"a\\\"b\\\\c\\nd\"\nsubtitle: null\nsmall-title: true\n"
    );
    assert_eq!(
        yaml_for("x\ty\rz", None, None),
        "grocery: \"x\\ty\\rz\"\nsubtitle: null\nsmall-title: true\n"
    );
}

#[test]
fn control_characters_escaped_hex() {
    assert_eq!(
        yaml_for("a\u{1}b\u{b}c\u{7f}", None, None),
        "grocery: \"a\\x01b\\x0bc\\x7f\"\nsubtitle: null\nsmall-title: true\n"
    );
}

#[test]
fn rendered_yaml_parses_back_control_characters() {
    let text = yaml_for("a\u{1}b\u{b}c\u{7f}", Some("x\u{1f}y"), None);
    let value: serde_yaml::Value = serde_yaml::from_str(&text).unwrap();
    assert_eq!(
        value.get("grocery").and_then(serde_yaml::Value::as_str),
        Some("a\u{1}b\u{b}c\u{7f}")
    );
    assert_eq!(
        value.get("subtitle").and_then(serde_yaml::Value::as_str),
        Some("x\u{1f}y")
    );
}

#[test]
fn empty_label_rendered_blank() {
    assert_eq!(
        yaml_for("", None, None),
        "grocery: \"\"\nsubtitle: null\nsmall-title: true\n"
    );
}

#[test]
fn rendered_yaml_parses_back() {
    let text = yaml_for("a\"b\\c\nd", Some("2%"), Some(false));
    let value: serde_yaml::Value = serde_yaml::from_str(&text).unwrap();
    assert_eq!(
        value.get("grocery").and_then(serde_yaml::Value::as_str),
        Some("a\"b\\c\nd")
    );
    assert_eq!(
        value.get("subtitle").and_then(serde_yaml::Value::as_str),
        Some("2%")
    );
    assert_eq!(
        value.get("small-title").and_then(serde_yaml::Value::as_bool),
        Some(false)
    );
}

#[test]
fn rendered_yaml_parses_back_null_subtitle() {
    let text = yaml_for("Milk", None, None);
    let value: serde_yaml::Value = serde_yaml::from_str(&text).unwrap();
    assert_eq!(
        value.get("grocery").and_then(serde_yaml::Value::as_str),
        Some("Milk")
    );
    assert!(value.get("subtitle").unwrap().is_null());
    assert_eq!(
        value.get("small-title").and_then(serde_yaml::Value::as_bool),
        Some(true)
    );
}

#[test]
fn normalize_keeps_given_subtitle() {
    let data = normalize(&request("Milk", Some("2%"), Some(false)));
    assert_eq!(data.grocery.as_str(), "Milk");
    assert_eq!(data.subtitle.as_deref(), Some("2%"));
    assert!(!data.small_title);
}

#[test]
fn printer_override_used_when_non_empty() {
    assert_eq!(
        printer_target(Some("Office_Printer".to_string())).as_str(),
        "Office_Printer"
    );
}

#[test]
fn printer_falls_back_when_unset_or_empty() {
    assert_eq!(printer_target(None).as_str(), "DYMO_LabelWriter_450");
    assert_eq!(printer_target(Some(String::new())).as_str(), "DYMO_LabelWriter_450");
}

#[test]
fn host_override_and_fallback() {
    assert_eq!(bind_host(Some("127.0.0.1".to_string())).as_str(), "127.0.0.1");
    assert_eq!(bind_host(None).as_str(), "0.0.0.0");
}

#[test]
fn port_numerals_parsed() {
    assert_eq!(parse_port("8080"), Some(8080));
    assert_eq!(parse_port("0"), Some(0));
    assert_eq!(parse_port("+80"), Some(80));
    assert_eq!(parse_port("65535"), Some(65535));
}

#[test]
fn port_rejects_bad_numerals() {
    assert_eq!(parse_port(""), None);
    assert_eq!(parse_port("+"), None);
    assert_eq!(parse_port("abc"), None);
    assert_eq!(parse_port("80a"), None);
    assert_eq!(parse_port("-1"), None);
    assert_eq!(parse_port("65536"), None);
    assert_eq!(parse_port("99999999999999999999"), None);
}

#[test]
fn bind_port_override_and_fallback() {
    assert_eq!(bind_port(Some("9100".to_string())), 9100);
    assert_eq!(bind_port(Some("not a port".to_string())), 8080);
    assert_eq!(bind_port(None), 8080);
}
