use rnotify::cli::{interpret, recognised_options, usage_text, Invocation};
use rnotify::request::{decide, ArgumentError, NotificationRequest, OptionValues, ParseFailure};
use rnotify::seconds::parse_seconds;

fn args(list: &[&str]) -> Vec<String> {
    list.iter().map(|s| s.to_string()).collect()
}

fn request(delay: u64, title: &str, message: &str, icon: &str) -> NotificationRequest {
    NotificationRequest {
        delay,
        title: title.to_string(),
        message: message.to_string(),
        icon: icon.to_string(),
    }
}

fn assert_usage(r: Result<Invocation, ArgumentError>, prog: &str) {
    match r {
        Ok(Invocation::ShowUsage(text)) => {
            assert!(text.starts_with(&format!("Usage: {} [options]", prog)));
            assert_eq!(text, usage_text(&recognised_options(), prog));
        }
        other => panic!("expected usage, got {:?}", other),
    }
}

#[test]
fn seconds_plain_numbers() {
    assert_eq!(parse_seconds("0"), Some(0));
    assert_eq!(parse_seconds("12"), Some(12));
    assert_eq!(parse_seconds("007"), Some(7));
    assert_eq!(parse_seconds("+7"), Some(7));
}

#[test]
fn seconds_largest_value() {
    assert_eq!(parse_seconds("18446744073709551615"), Some(u64::MAX));
    assert_eq!(parse_seconds("18446744073709551616"), None);
    assert_eq!(parse_seconds("99999999999999999999"), None);
}

#[test]
fn seconds_rejects_non_numbers() {
    assert_eq!(parse_seconds(""), None);
    assert_eq!(parse_seconds("+"), None);
    assert_eq!(parse_seconds("abc"), None);
    assert_eq!(parse_seconds("-1"), None);
    assert_eq!(parse_seconds(" 5"), None);
    assert_eq!(parse_seconds("5s"), None);
    assert_eq!(parse_seconds("1.5"), None);
}

#[test]
fn message_alone_is_sent_at_once() {
    let r = interpret(&args(&["rnotify", "--message", "hi"]));
    assert_eq!(r, Ok(Invocation::Send(request(0, "", "hi", ""))));
}

#[test]
fn all_long_flags_fill_the_request() {
    let r = interpret(&args(&[
        "rnotify", "--delay", "5", "--title", "Tea", "--message", "ready", "--icon", "cup",
    ]));
    assert_eq!(r, Ok(Invocation::Send(request(5, "Tea", "ready", "cup"))));
}

#[test]
fn all_short_flags_fill_the_request() {
    let r = interpret(&args(&["prog", "-d", "3", "-t", "T", "-m", "M", "-i", "I"]));
    assert_eq!(r, Ok(Invocation::Send(request(3, "T", "M", "I"))));
}

#[test]
fn empty_message_gives_usage() {
    assert_usage(interpret(&args(&["rnotify", "-m", ""])), "rnotify");
    assert_usage(interpret(&args(&["rnotify", "--message", "", "-d", "2"])), "rnotify");
}

#[test]
fn missing_message_gives_usage() {
    assert_usage(interpret(&args(&["rnotify"])), "rnotify");
    assert_usage(
        interpret(&args(&["rnotify", "-t", "x", "-d", "5", "-i", "y"])),
        "rnotify",
    );
    assert_usage(interpret(&args(&["rnotify", "--delay", "abc"])), "rnotify");
}

#[test]
fn help_gives_usage_even_with_message() {
    assert_usage(interpret(&args(&["rn", "--help"])), "rn");
    assert_usage(interpret(&args(&["rn", "--help", "--message", "hi"])), "rn");
    assert_usage(interpret(&args(&["rn", "-m", "hi", "-h"])), "rn");
}

#[test]
fn bad_delay_is_an_argument_error() {
    let r = interpret(&args(&["rnotify", "--message", "hi", "--delay", "abc"]));
    assert_eq!(r, Err(ArgumentError::BadDelay("abc".to_string())));
    let r = interpret(&args(&["rnotify", "-m", "hi", "-d", "-3"]));
    assert_eq!(r, Err(ArgumentError::BadDelay("-3".to_string())));
}

#[test]
fn malformed_flags_are_argument_errors() {
    let r = interpret(&args(&["rnotify", "--message", "hi", "--delay"]));
    assert_eq!(
        r,
        Err(ArgumentError::Malformed(ParseFailure::ArgumentMissing("delay".to_string())))
    );
    let r = interpret(&args(&["rnotify", "--message", "hi", "--colour", "red"]));
    assert_eq!(
        r,
        Err(ArgumentError::Malformed(ParseFailure::UnrecognizedOption("colour".to_string())))
    );
    let r = interpret(&args(&["rnotify", "-m", "a", "-m", "b"]));
    assert_eq!(
        r,
        Err(ArgumentError::Malformed(ParseFailure::OptionDuplicated("message".to_string())))
    );
    let r = interpret(&args(&["rnotify", "-m", "a", "--help=yes"]));
    assert_eq!(
        r,
        Err(ArgumentError::Malformed(ParseFailure::UnexpectedArgument("help".to_string())))
    );
}

#[test]
fn usage_lists_every_option() {
    let text = usage_text(&recognised_options(), "rnotify");
    assert!(text.starts_with("Usage: rnotify [options]"));
    assert!(text.len() > "Usage: rnotify [options]".len());
    for flag in ["-h", "-d", "-t", "-m", "-i", "--help", "--delay SECONDS", "--title TITLE", "--message MESSAGE", "--icon ICON"] {
        assert!(text.contains(flag), "{} missing from {}", flag, text);
    }
}

#[test]
fn decide_on_plain_values() {
    let v = OptionValues {
        help: false,
        delay: Some("+10".to_string()),
        title: None,
        message: Some("m".to_string()),
        icon: Some("i".to_string()),
    };
    assert_eq!(decide(v), Ok(Some(request(10, "", "m", "i"))));
    let v = OptionValues { help: true, delay: None, title: None, message: Some("m".to_string()), icon: None };
    assert_eq!(decide(v), Ok(None));
    let v = OptionValues { help: false, delay: Some("x".to_string()), title: None, message: None, icon: None };
    assert_eq!(decide(v), Ok(None));
    let v = OptionValues {
        help: false,
        delay: Some("x".to_string()),
        title: None,
        message: Some(String::new()),
        icon: None,
    };
    assert_eq!(decide(v), Ok(None));
}
