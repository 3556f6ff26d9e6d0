use bearobot::storage::{database_url, has_prefix};

#[test]
fn a_bare_path_gets_the_scheme() {
    assert_eq!(database_url("./db/bearobot.sqlite"), "sqlite://./db/bearobot.sqlite");
    assert_eq!(database_url(""), "sqlite://");
    assert_eq!(database_url("sqlite:"), "sqlite://sqlite:");
}

#[test]
fn an_address_with_the_scheme_is_kept() {
    assert_eq!(database_url("sqlite://data.db"), "sqlite://data.db");
    assert_eq!(database_url("sqlite://"), "sqlite://");
}

#[test]
fn the_scheme_is_only_looked_for_at_the_start() {
    assert_eq!(database_url("x sqlite://data.db"), "sqlite://x sqlite://data.db");
    assert_eq!(database_url("SQLITE://data.db"), "sqlite://SQLITE://data.db");
    assert_eq!(database_url("sqlite:memory:"), "sqlite://sqlite:memory:");
}

#[test]
fn has_prefix_agrees_with_starts_with() {
    let texts = ["", "a", "ab", "abc", "é", "éa", "ée", "sqlite://x", "日本語"];
    for text in texts {
        for prefix in texts {
            assert_eq!(has_prefix(text, prefix), text.starts_with(prefix));
        }
    }
}
