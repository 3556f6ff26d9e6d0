use bearobot::error::{bot_error, BotError};

#[test]
fn new_keeps_the_message() {
    let error = BotError::new("Song name cannot be empty");
    assert_eq!(error.message(), "Song name cannot be empty");
    assert_eq!(error.to_string(), "Song name cannot be empty");
}

#[test]
fn new_accepts_an_empty_message() {
    let error = BotError::new("");
    assert_eq!(error.message(), "");
    assert_eq!(error.to_string(), String::new());
}

#[test]
fn bot_error_is_new() {
    let short = bot_error("Duration must be between 1 minute and 1 week (10080 minutes)");
    let long = BotError::new("Duration must be between 1 minute and 1 week (10080 minutes)");
    assert_eq!(short.message(), long.message());
}

#[test]
fn message_keeps_non_ascii_text() {
    let error = bot_error("pas trouvé: 🎵");
    assert_eq!(error.to_string(), "pas trouvé: 🎵");
}

#[test]
fn debug_shows_the_message() {
    let error = bot_error("boom");
    let shown = format!("{:?}", error);
    assert!(shown.contains("boom"));
}
