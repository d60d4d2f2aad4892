//! Configuration data: the gesture command slots, the scroll rules and the
//! timing parameters the recognizer and the dispatcher are built from.
//! Reading a configuration file and filling these structs is the driver
//! program's job; the library only consumes the plain values.

use vstd::prelude::*;

verus! {

#[derive(Debug, Clone)]
pub struct Config {
    pub gesture: GestureConfig,
    pub scroll: ScrollConfig,
}

#[derive(Debug, Clone)]
pub struct GestureConfig {
    pub tap_timeout_ms: u64,
    pub movement_threshold: i32,
    pub commands: GestureCommands,
}

/// One external command string per gesture slot; an empty or whitespace-only
/// string is the "do nothing" sentinel.
#[derive(Debug, Clone)]
pub struct GestureCommands {
    pub tap: String,
    pub swipe_left: String,
    pub swipe_right: String,
    pub swipe_up: String,
    pub swipe_down: String,
}

#[derive(Debug, Clone)]
pub struct ScrollConfig {
    pub focus_poll_ms: u64,
    pub rules: Vec<ScrollRule>,
}

/// A window-class pattern with the command lists to run for scrolls to the
/// right (positive delta) and to the left (zero or negative delta).
#[derive(Debug, Clone)]
pub struct ScrollRule {
    pub window_class_regex: String,
    pub scroll_right_commands: Vec<String>,
    pub scroll_left_commands: Vec<String>,
}

impl Default for Config {
    /// The built-in configuration: wofi on tap, workspace switching on swipes,
    /// volume control for spotify and zoom for gimp on horizontal scroll.
    fn default() -> (r: Config)
        ensures
            r.gesture.tap_timeout_ms == 200,
            r.gesture.movement_threshold == 30,
            r.gesture.commands.tap@ == "hyprctl dispatch exec wofi"@,
            r.gesture.commands.swipe_left@ == "hyprctl dispatch workspace -1"@,
            r.gesture.commands.swipe_right@ == "hyprctl dispatch workspace +1"@,
            r.gesture.commands.swipe_up@ == "hyprctl dispatch movetoworkspace -1"@,
            r.gesture.commands.swipe_down@ == "hyprctl dispatch movetoworkspace +1"@,
            r.scroll.focus_poll_ms == 100,
            r.scroll.rules@.len() == 2,
            r.scroll.rules@[0].window_class_regex@ == "spotify"@,
            r.scroll.rules@[0].scroll_right_commands@.len() == 1,
            r.scroll.rules@[0].scroll_right_commands@[0]@ == "wpctl set-volume @DEFAULT_AUDIO_SINK@ +5%"@,
            r.scroll.rules@[0].scroll_left_commands@.len() == 1,
            r.scroll.rules@[0].scroll_left_commands@[0]@ == "wpctl set-volume @DEFAULT_AUDIO_SINK@ -5%"@,
            r.scroll.rules@[1].window_class_regex@ == "gimp"@,
            r.scroll.rules@[1].scroll_right_commands@.len() == 1,
            r.scroll.rules@[1].scroll_right_commands@[0]@ == "xdotool key ctrl+plus"@,
            r.scroll.rules@[1].scroll_left_commands@.len() == 1,
            r.scroll.rules@[1].scroll_left_commands@[0]@ == "xdotool key ctrl+minus"@,
    {
        Config {
            gesture: GestureConfig {
                tap_timeout_ms: 200,
                movement_threshold: 30,
                commands: GestureCommands {
                    tap: "hyprctl dispatch exec wofi".to_owned(),
                    swipe_left: "hyprctl dispatch workspace -1".to_owned(),
                    swipe_right: "hyprctl dispatch workspace +1".to_owned(),
                    swipe_up: "hyprctl dispatch movetoworkspace -1".to_owned(),
                    swipe_down: "hyprctl dispatch movetoworkspace +1".to_owned(),
                },
            },
            scroll: ScrollConfig {
                focus_poll_ms: 100,
                rules: vec![
                    ScrollRule {
                        window_class_regex: "spotify".to_owned(),
                        scroll_right_commands: vec!["wpctl set-volume @DEFAULT_AUDIO_SINK@ +5%".to_owned()],
                        scroll_left_commands: vec!["wpctl set-volume @DEFAULT_AUDIO_SINK@ -5%".to_owned()],
                    },
                    ScrollRule {
                        window_class_regex: "gimp".to_owned(),
                        scroll_right_commands: vec!["xdotool key ctrl+plus".to_owned()],
                        scroll_left_commands: vec!["xdotool key ctrl+minus".to_owned()],
                    },
                ],
            },
        }
    }
}

} // verus!
