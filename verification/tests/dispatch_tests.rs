use hypr_gestures::config::{Config, GestureCommands, GestureConfig, ScrollConfig, ScrollRule};
use hypr_gestures::context::{
    extract_window_class, is_noop_command, EventHandler, EventOutcome, HandlerError,
};
use hypr_gestures::input::{InputEvent, SwipeDirection};

fn commands(tap: &str, left: &str, right: &str, up: &str, down: &str) -> GestureCommands {
    GestureCommands {
        tap: tap.to_owned(),
        swipe_left: left.to_owned(),
        swipe_right: right.to_owned(),
        swipe_up: up.to_owned(),
        swipe_down: down.to_owned(),
    }
}

fn rule(pattern: &str, right: &[&str], left: &[&str]) -> ScrollRule {
    ScrollRule {
        window_class_regex: pattern.to_owned(),
        scroll_right_commands: right.iter().map(|c| (*c).to_owned()).collect(),
        scroll_left_commands: left.iter().map(|c| (*c).to_owned()).collect(),
    }
}

fn test_config(rules: Vec<ScrollRule>) -> Config {
    Config {
        gesture: GestureConfig {
            tap_timeout_ms: 200,
            movement_threshold: 30,
            commands: commands("run-tap", "run-left", "run-right", "", "   "),
        },
        scroll: ScrollConfig {
            focus_poll_ms: 100,
            rules,
        },
    }
}

fn strings(v: &[&str]) -> Vec<String> {
    v.iter().map(|c| (*c).to_owned()).collect()
}

#[test]
fn scroll_right_runs_the_matched_rules_right_list_in_order() {
    let config = test_config(vec![rule(
        "spotify",
        &["vol-up-1", "vol-up-2"],
        &["vol-down"],
    )]);
    let mut handler = EventHandler::new(&config).unwrap();
    let ran = handler.resolve_scroll(5, "spotify.Spotify".to_owned(), 1000);
    assert_eq!(ran, strings(&["vol-up-1", "vol-up-2"]));
}

#[test]
fn scroll_left_runs_the_left_list() {
    let config = test_config(vec![rule("spotify", &["vol-up"], &["vol-down"])]);
    let mut handler = EventHandler::new(&config).unwrap();
    let ran = handler.resolve_scroll(-5, "spotify.Spotify".to_owned(), 1000);
    assert_eq!(ran, strings(&["vol-down"]));
}

#[test]
fn zero_delta_selects_the_left_list() {
    let config = test_config(vec![rule("spotify", &["vol-up"], &["vol-down"])]);
    let mut handler = EventHandler::new(&config).unwrap();
    let ran = handler.resolve_scroll(0, "spotify.Spotify".to_owned(), 1000);
    assert_eq!(ran, strings(&["vol-down"]));
}

#[test]
fn unmatched_class_runs_nothing() {
    let config = test_config(vec![rule("spotify", &["vol-up"], &["vol-down"])]);
    let mut handler = EventHandler::new(&config).unwrap();
    let ran = handler.resolve_scroll(5, "firefox".to_owned(), 1000);
    assert_eq!(ran, Vec::<String>::new());
}

#[test]
fn first_matching_rule_wins() {
    let config = test_config(vec![
        rule("spot", &["first-right"], &["first-left"]),
        rule("spotify", &["second-right"], &["second-left"]),
    ]);
    let mut handler = EventHandler::new(&config).unwrap();
    let ran = handler.resolve_scroll(5, "spotify.Spotify".to_owned(), 1000);
    assert_eq!(ran, strings(&["first-right"]));
}

#[test]
fn tap_runs_its_slot_command() {
    let config = test_config(vec![]);
    let handler = EventHandler::new(&config).unwrap();
    let outcome = handler.handle_event(InputEvent::GestureTap, 10);
    assert_eq!(outcome, EventOutcome::Commands(strings(&["run-tap"])));
}

#[test]
fn swipe_slots_are_direction_specific() {
    let config = test_config(vec![]);
    let handler = EventHandler::new(&config).unwrap();
    assert_eq!(
        handler.handle_event(InputEvent::GestureSwipe(SwipeDirection::Left), 10),
        EventOutcome::Commands(strings(&["run-left"]))
    );
    assert_eq!(
        handler.handle_event(InputEvent::GestureSwipe(SwipeDirection::Right), 10),
        EventOutcome::Commands(strings(&["run-right"]))
    );
}

#[test]
fn blank_slot_commands_run_nothing() {
    let config = test_config(vec![]);
    let handler = EventHandler::new(&config).unwrap();
    assert_eq!(
        handler.handle_event(InputEvent::GestureSwipe(SwipeDirection::Up), 10),
        EventOutcome::Commands(Vec::new())
    );
    assert_eq!(
        handler.handle_event(InputEvent::GestureSwipe(SwipeDirection::Down), 10),
        EventOutcome::Commands(Vec::new())
    );
}

#[test]
fn fresh_cache_answers_scrolls_without_a_query() {
    let config = test_config(vec![rule("spotify", &["vol-up"], &["vol-down"])]);
    let mut handler = EventHandler::new(&config).unwrap();
    // The cache starts stale, so the first scroll asks for a query.
    assert_eq!(
        handler.handle_event(InputEvent::HorizontalScroll(5), 1000),
        EventOutcome::NeedsFocusQuery
    );
    handler.resolve_scroll(5, "spotify.Spotify".to_owned(), 1000);
    // Less than focus_poll_ms later: answered from the cache, twice.
    assert_eq!(
        handler.handle_event(InputEvent::HorizontalScroll(5), 1050),
        EventOutcome::Commands(strings(&["vol-up"]))
    );
    assert_eq!(
        handler.handle_event(InputEvent::HorizontalScroll(-5), 1099),
        EventOutcome::Commands(strings(&["vol-down"]))
    );
    // At the poll interval the cache is stale again.
    assert_eq!(
        handler.handle_event(InputEvent::HorizontalScroll(5), 1100),
        EventOutcome::NeedsFocusQuery
    );
}

#[test]
fn cache_starts_stale_at_every_time() {
    // focus_poll_ms is 100: even scrolls arriving within the first poll
    // interval of the process's life must query, never serve the unqueried
    // empty class.
    let config = test_config(vec![rule("spotify", &["vol-up"], &["vol-down"])]);
    let handler = EventHandler::new(&config).unwrap();
    assert_eq!(
        handler.handle_event(InputEvent::HorizontalScroll(5), 0),
        EventOutcome::NeedsFocusQuery
    );
    assert_eq!(
        handler.handle_event(InputEvent::HorizontalScroll(5), 50),
        EventOutcome::NeedsFocusQuery
    );
    assert_eq!(
        handler.handle_event(InputEvent::HorizontalScroll(5), 5000),
        EventOutcome::NeedsFocusQuery
    );
}

#[test]
fn invalid_pattern_reports_its_position() {
    let config = test_config(vec![
        rule("spotify", &["a"], &["b"]),
        rule("(", &["c"], &["d"]),
    ]);
    let err = match EventHandler::new(&config) {
        Err(e) => e,
        Ok(_) => panic!("expected an invalid pattern error"),
    };
    assert_eq!(err, HandlerError::InvalidScrollPattern { index: 1 });
}

#[test]
fn noop_commands_are_blank_strings() {
    assert!(is_noop_command(""));
    assert!(is_noop_command("   \t\n"));
    assert!(!is_noop_command("  wpctl  "));
}

#[test]
fn window_class_is_read_from_the_query_response() {
    let bytes = br#"{"class":"spotify.Spotify","title":"x"}"#.to_vec();
    assert_eq!(extract_window_class(Some(bytes)), "spotify.Spotify");
}

#[test]
fn failed_or_malformed_queries_degrade_to_the_empty_class() {
    assert_eq!(extract_window_class(None), "");
    assert_eq!(extract_window_class(Some(b"not json".to_vec())), "");
    assert_eq!(extract_window_class(Some(br#"{"title":"x"}"#.to_vec())), "");
    assert_eq!(extract_window_class(Some(br#"{"class":7}"#.to_vec())), "");
}

#[test]
fn default_config_is_the_documented_one() {
    let config = Config::default();
    assert_eq!(config.gesture.tap_timeout_ms, 200);
    assert_eq!(config.gesture.movement_threshold, 30);
    assert_eq!(config.gesture.commands.tap, "hyprctl dispatch exec wofi");
    assert_eq!(config.scroll.focus_poll_ms, 100);
    assert_eq!(config.scroll.rules.len(), 2);
    assert_eq!(config.scroll.rules[0].window_class_regex, "spotify");
    assert_eq!(
        config.scroll.rules[0].scroll_right_commands,
        strings(&["wpctl set-volume @DEFAULT_AUDIO_SINK@ +5%"])
    );
    assert_eq!(config.scroll.rules[1].window_class_regex, "gimp");
    assert_eq!(
        config.scroll.rules[1].scroll_left_commands,
        strings(&["xdotool key ctrl+minus"])
    );
}
