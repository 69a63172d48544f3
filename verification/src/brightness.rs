//! The two backlights.

use crate::action::{Action, ActionView};
use crate::text::{decimal, decimal_string, parse_i32, parsed_i32, trim, trimmed};
use vstd::prelude::*;

verus! {

pub const BACKLIGHT_COOL_NODE_W: &'static str = "/sys/class/backlight/backlight_cool/brightness";

pub const BACKLIGHT_WARM_NODE_W: &'static str = "/sys/class/backlight/backlight_warm/brightness";

pub const BACKLIGHT_COOL_NODE_R: &'static str =
    "/sys/class/backlight/backlight_cool/actual_brightness";

pub const BACKLIGHT_WARM_NODE_R: &'static str =
    "/sys/class/backlight/backlight_warm/actual_brightness";

/// Pause after each step of a change of brightness, in milliseconds.
pub const DELAY_MILLIS: u64 = 1;

pub const MAX_BRIGHTNESS: i32 = 255;

/// The two backlights.
#[derive(Debug, Clone, Copy, PartialEq, Eq, Structural)]
pub enum Mode {
    Cool,
    Warm,
}

/// Where the brightness of a backlight is set.
pub open spec fn write_node(mode: Mode) -> Seq<char> {
    match mode {
        Mode::Cool => BACKLIGHT_COOL_NODE_W@,
        Mode::Warm => BACKLIGHT_WARM_NODE_W@,
    }
}

/// Where the brightness of a backlight is read.
pub open spec fn read_node(mode: Mode) -> Seq<char> {
    match mode {
        Mode::Cool => BACKLIGHT_COOL_NODE_R@,
        Mode::Warm => BACKLIGHT_WARM_NODE_R@,
    }
}

/// Model of [`set_brightness_`].
pub open spec fn brightness_action(level: int, mode: Mode) -> ActionView {
    ActionView::WriteFile { path: write_node(mode), contents: decimal(level) }
}

/// Sets the brightness of a backlight in one go.
pub fn set_brightness_(level: i32, mode: &Mode) -> (action: Action)
    ensures
        action@ == brightness_action(level as int, *mode),
{
    let node = match mode {
        Mode::Cool => BACKLIGHT_COOL_NODE_W,
        Mode::Warm => BACKLIGHT_WARM_NODE_W,
    };
    Action::WriteFile { path: String::from_str(node), contents: decimal_string(level as i64) }
}

/// Where the brightness of a backlight is read.
pub fn brightness_node(mode: &Mode) -> (node: &'static str)
    ensures
        node@ == read_node(*mode),
{
    match mode {
        Mode::Cool => BACKLIGHT_COOL_NODE_R,
        Mode::Warm => BACKLIGHT_WARM_NODE_R,
    }
}

/// The brightness that a backlight reports in `contents`, if that is a
/// number.
pub fn get_brightness(contents: &str) -> (level: Option<i32>)
    ensures
        level == parsed_i32(trimmed(contents@)),
{
    parse_i32(trim(contents))
}

/// The level that follows `current_level` on the way to `level_to_set`.
pub open spec fn next_level(level_to_set: int, current_level: int) -> int {
    if current_level < level_to_set {
        current_level + 1
    } else if current_level > level_to_set {
        current_level - 1
    } else {
        current_level
    }
}

/// One step of a gradual change of brightness: the next level, one nearer
/// to `level_to_set` than `current_level`, with the action that sets it;
/// `None` when the level is reached. A pause of [`DELAY_MILLIS`] follows
/// each step.
pub fn set_brightness(level_to_set: i32, mode: &Mode, current_level: i32) -> (step: Option<
    (i32, Action),
>)
    ensures
        match step {
            Some((level, action)) => current_level != level_to_set && level == next_level(
                level_to_set as int,
                current_level as int,
            ) && action@ == brightness_action(level as int, *mode),
            None => current_level == level_to_set,
        },
{
    if current_level == level_to_set {
        None
    } else {
        let level = if current_level < level_to_set {
            current_level + 1
        } else {
            current_level - 1
        };
        Some((level, set_brightness_(level, mode)))
    }
}

/// Distance between two levels.
pub open spec fn distance(a: int, b: int) -> int {
    if a < b {
        b - a
    } else {
        a - b
    }
}

/// A gradual change comes to its end: each step lessens the distance to the
/// level that is to be set by one.
pub proof fn lemma_steps_approach(level_to_set: int, current_level: int)
    requires
        current_level != level_to_set,
    ensures
        distance(next_level(level_to_set, current_level), level_to_set) == distance(
            current_level,
            level_to_set,
        ) - 1,
{
}

} // verus!
