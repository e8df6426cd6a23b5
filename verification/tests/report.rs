use stopwatch::{report, Output};

#[test]
fn a_measured_label_goes_to_the_standard_output() {
    assert_eq!(
        report("load", Some("12.346"), None, false),
        Output::Stdout(String::from("load: 12.346ms"))
    );
}

#[test]
fn a_message_follows_the_time() {
    assert_eq!(
        report("load", Some("1234.000"), Some("cache warm"), false),
        Output::Stdout(String::from("load: 1234.000ms - cache warm"))
    );
}

#[test]
fn an_empty_message_still_gets_its_separator() {
    assert_eq!(
        report("load", Some("0.000"), Some(""), false),
        Output::Stdout(String::from("load: 0.000ms - "))
    );
}

#[test]
fn silence_drops_the_line_for_a_measured_label() {
    assert_eq!(report("load", Some("12.346"), None, true), Output::Quiet);
    assert_eq!(
        report("load", Some("12.346"), Some("cache warm"), true),
        Output::Quiet
    );
}

#[test]
fn a_missing_label_goes_to_the_error_stream() {
    assert_eq!(
        report("load", None, None, false),
        Output::Stderr(String::from("Timer 'load' does not exist"))
    );
    assert_eq!(
        report("load", None, Some("cache warm"), false),
        Output::Stderr(String::from("Timer 'load' does not exist"))
    );
}

#[test]
fn silence_does_not_drop_the_line_for_a_missing_label() {
    assert_eq!(
        report("load", None, None, true),
        Output::Stderr(String::from("Timer 'load' does not exist"))
    );
}

#[test]
fn labels_are_shown_as_they_are() {
    assert_eq!(
        report("", Some("0.001"), None, false),
        Output::Stdout(String::from(": 0.001ms"))
    );
    assert_eq!(
        report("a 'b': c", None, None, false),
        Output::Stderr(String::from("Timer 'a 'b': c' does not exist"))
    );
    assert_eq!(
        report("zeit\u{e4}", Some("2.500"), Some("\u{fc}ber"), false),
        Output::Stdout(String::from("zeit\u{e4}: 2.500ms - \u{fc}ber"))
    );
}
