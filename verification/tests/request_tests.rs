use bearobot::pattern::{compile, with_message};
use bearobot::request::{
    authorize, has_manage_messages, resolve_channel, resolve_duration, PurgeRequest,
    DEFAULT_DURATION_MINUTES, MANAGE_MESSAGES, MAX_DURATION_MINUTES,
};
use serenity::model::permissions::Permissions;

const DURATION_ERROR: &str = "Duration must be between 1 minute and 1 week (10080 minutes)";
const PERMISSION_ERROR: &str = "You need the 'Manage Messages' permission to use this command";

#[test]
fn duration_defaults_to_an_hour() {
    assert_eq!(DEFAULT_DURATION_MINUTES, 60);
    assert_eq!(resolve_duration(None).unwrap(), 60);
}

#[test]
fn duration_bounds_are_accepted() {
    assert_eq!(MAX_DURATION_MINUTES, 10080);
    assert_eq!(resolve_duration(Some(1)).unwrap(), 1);
    assert_eq!(resolve_duration(Some(10080)).unwrap(), 10080);
    assert_eq!(resolve_duration(Some(60)).unwrap(), 60);
}

#[test]
fn duration_zero_is_rejected() {
    let error = resolve_duration(Some(0)).unwrap_err();
    assert_eq!(error.message(), DURATION_ERROR);
}

#[test]
fn duration_negative_is_rejected() {
    assert_eq!(resolve_duration(Some(-1)).unwrap_err().message(), DURATION_ERROR);
    assert_eq!(resolve_duration(Some(-60)).unwrap_err().message(), DURATION_ERROR);
    assert_eq!(resolve_duration(Some(i64::MIN)).unwrap_err().message(), DURATION_ERROR);
}

#[test]
fn duration_above_a_week_is_rejected() {
    assert_eq!(resolve_duration(Some(10081)).unwrap_err().message(), DURATION_ERROR);
    assert_eq!(resolve_duration(Some(i64::MAX)).unwrap_err().message(), DURATION_ERROR);
}

#[test]
fn manage_messages_is_the_platform_bit() {
    assert_eq!(MANAGE_MESSAGES, 1 << 13);
    assert_eq!(MANAGE_MESSAGES, Permissions::MANAGE_MESSAGES.bits());
}

#[test]
fn has_manage_messages_agrees_with_serenity() {
    let sets: [u64; 6] = [0, 1 << 13, (1 << 13) - 1, u64::MAX, 0x2008, 0x4000];
    for bits in sets {
        let theirs = Permissions::from_bits_retain(bits).contains(Permissions::MANAGE_MESSAGES);
        assert_eq!(has_manage_messages(bits), theirs);
    }
}

#[test]
fn authorize_outside_a_guild() {
    assert!(authorize(None).is_ok());
}

#[test]
fn authorize_with_the_permission() {
    assert!(authorize(Some(MANAGE_MESSAGES)).is_ok());
    assert!(authorize(Some(u64::MAX)).is_ok());
}

#[test]
fn authorize_without_the_permission() {
    assert_eq!(authorize(Some(0)).unwrap_err().message(), PERMISSION_ERROR);
    assert_eq!(authorize(Some(!MANAGE_MESSAGES)).unwrap_err().message(), PERMISSION_ERROR);
}

#[test]
fn resolve_channel_prefers_the_named_one() {
    assert_eq!(resolve_channel(Some(7), 9), 7);
    assert_eq!(resolve_channel(None, 9), 9);
}

#[test]
fn new_keeps_pattern_channel_and_window() {
    let request = PurgeRequest::new("sp[a4]m+", 42, Some(90)).unwrap();
    assert_eq!(request.pattern_text(), "sp[a4]m+");
    assert_eq!(request.channel(), 42);
    assert_eq!(request.duration_minutes(), 90);
    assert!(request.regex().is_match("more spamm here"));
    assert!(!request.regex().is_match("ham"));
}

#[test]
fn new_defaults_the_window() {
    let request = PurgeRequest::new("x", 1, None).unwrap();
    assert_eq!(request.duration_minutes(), 60);
}

#[test]
fn new_rejects_an_invalid_pattern() {
    let error = PurgeRequest::new("foo(bar", 1, Some(60)).err().unwrap();
    assert!(error.message().starts_with("Invalid regex pattern: "));
    let detail = regex::Regex::new("foo(bar").unwrap_err().to_string();
    assert_eq!(error.message(), format!("Invalid regex pattern: {}", detail));
}

#[test]
fn new_rejects_a_pattern_that_compiles_too_big() {
    let error = PurgeRequest::new(r"\w{1000}{1000}", 1, Some(60)).err().unwrap();
    assert!(error.message().starts_with("Invalid regex pattern: "));
}

#[test]
fn new_checks_the_window_before_the_pattern() {
    let error = PurgeRequest::new("foo(bar", 1, Some(0)).err().unwrap();
    assert_eq!(error.message(), DURATION_ERROR);
    let error = PurgeRequest::new("spam", 1, Some(10081)).err().unwrap();
    assert_eq!(error.message(), DURATION_ERROR);
}

#[test]
fn new_accepts_the_bounds() {
    assert!(PurgeRequest::new("spam", 1, Some(1)).is_ok());
    assert!(PurgeRequest::new("spam", 1, Some(10080)).is_ok());
}

#[test]
fn from_compiled_with_a_compiled_pattern() {
    let request = PurgeRequest::from_compiled(compile("a+b"), 5, Some(10)).unwrap();
    assert_eq!(request.pattern_text(), "a+b");
    assert_eq!(request.channel(), 5);
    assert_eq!(request.duration_minutes(), 10);
}

#[test]
fn from_compiled_with_a_compiler_message() {
    let error =
        PurgeRequest::from_compiled(Err("unclosed group".to_string()), 5, Some(10)).err().unwrap();
    assert_eq!(error.message(), "Invalid regex pattern: unclosed group");
}

#[test]
fn from_compiled_reports_the_window_first() {
    let error =
        PurgeRequest::from_compiled(Err("unclosed group".to_string()), 5, Some(-3)).err().unwrap();
    assert_eq!(error.message(), DURATION_ERROR);
    let error = PurgeRequest::from_compiled(compile("ok"), 5, Some(20000)).err().unwrap();
    assert_eq!(error.message(), DURATION_ERROR);
}

#[test]
fn compile_hands_back_the_compiler_message() {
    let ours = compile("a{2,1}").unwrap_err();
    let theirs = regex::Regex::new("a{2,1}").unwrap_err().to_string();
    assert_eq!(ours, theirs);
    assert_ne!(ours, "a{2,1}");
}

#[test]
fn with_message_keeps_a_compiled_pattern() {
    let kept = with_message(regex::Regex::new("a+b")).unwrap();
    assert_eq!(kept.as_str(), "a+b");
    assert!(kept.is_match("xaab"));
    assert!(!kept.is_match("b"));
}

#[test]
fn with_message_renders_the_error() {
    let theirs = regex::Regex::new("foo(bar").unwrap_err();
    let shown = theirs.to_string();
    assert_eq!(with_message(Err(theirs)).unwrap_err(), shown);
    let too_big = regex::Error::CompiledTooBig(10);
    assert_eq!(
        with_message(Err(too_big)).unwrap_err(),
        "Compiled regex exceeds size limit of 10 bytes."
    );
}

#[test]
fn compile_keeps_a_pattern_that_compiles() {
    let kept = compile(r"^\d{3}$").unwrap();
    assert_eq!(kept.as_str(), r"^\d{3}$");
    assert!(kept.is_match("123"));
    assert!(!kept.is_match("1234"));
}
