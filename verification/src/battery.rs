//! The battery: its level, its charger and its icon.

use crate::text::{contains, decimal, parse_i32, parsed_i32, push_decimal, str_contains, trim, trimmed};
use vstd::prelude::*;

verus! {

/// Where the charger says whether it is plugged in.
pub const CHARGER_ONLINE_PATH: &'static str = "/sys/class/power_supply/rk817-charger/online";

/// Where the battery says how full it is, in percent.
pub const LEVEL_PATH: &'static str = "/sys/class/power_supply/rk817-battery/capacity";

/// Width of the bar in the icon of a full battery.
pub const MAX_BAR_WIDTH: i32 = 540;

/// The icon up to the width of its bar.
pub const BATTERY_BASE_B: &'static str =
    r##"<svg xmlns="http://www.w3.org/2000/svg" height="24px" viewBox="0 -960 960 960" width="24px" fill="#000000"><path d="M160-240q-50 0-85-35t-35-85v-240q0-50 35-85t85-35h540q50 0 85 35t35 85v240q0 50-35 85t-85 35H160Zm0-80h540q17 0 28.5-11.5T740-360v-240q0-17-11.5-28.5T700-640H160q-17 0-28.5 11.5T120-600v240q0 17 11.5 28.5T160-320Zm700-60v-200h20q17 0 28.5 11.5T920-540v120q0 17-11.5 28.5T880-380h-20Zm-700 20v-240h"##;

/// The icon from the width of its bar on.
pub const BATTERY_BASE_E: &'static str = r##"v240h-80Z"/></svg>"##;

#[derive(Debug, Clone, Copy, PartialEq, Eq, Structural)]
pub enum BatteryState {
    Charging,
    NotCharging,
    Critical,
}

/// `value * by / over`, rounded towards zero.
pub open spec fn scaled(value: int, by: int, over: int) -> int {
    if value >= 0 {
        value * by / over
    } else {
        -((-value) * by / over)
    }
}

/// `value * by / over`, rounded towards zero.
pub fn scale(value: i32, by: u16, over: u16) -> (share: i64)
    requires
        over > 0,
    ensures
        share == scaled(value as int, by as int, over as int),
{
    let wide: i64 = value as i64;
    let factor: i64 = by as i64;
    let divisor: i64 = over as i64;
    if wide >= 0 {
        assert(wide * factor <= 0x7fff_ffff * 0xffff) by (nonlinear_arith)
            requires
                0 <= wide <= 0x7fff_ffff,
                0 <= factor <= 0xffff,
        ;
        assert(0 <= wide * factor) by (nonlinear_arith)
            requires
                0 <= wide,
                0 <= factor,
        ;
        wide * factor / divisor
    } else {
        let magnitude: i64 = -wide;
        assert(magnitude * factor <= 0x8000_0000 * 0xffff) by (nonlinear_arith)
            requires
                0 <= magnitude <= 0x8000_0000,
                0 <= factor <= 0xffff,
        ;
        assert(0 <= magnitude * factor) by (nonlinear_arith)
            requires
                0 <= magnitude,
                0 <= factor,
        ;
        let scaled: i64 = magnitude * factor;
        -(scaled / divisor)
    }
}

/// Width of the bar at `level` percent: the share of the full width,
/// rounded towards zero.
pub open spec fn bar_width(level: int) -> int {
    scaled(level, MAX_BAR_WIDTH as int, 100)
}

/// The icon of a battery at `level` percent, as SVG text.
pub fn generate_svg_from_level(level: i32) -> (svg: String)
    ensures
        svg@ == BATTERY_BASE_B@ + decimal(bar_width(level as int)) + BATTERY_BASE_E@,
{
    let mut svg = String::from_str(BATTERY_BASE_B);
    push_decimal(&mut svg, scale(level, MAX_BAR_WIDTH as u16, 100));
    svg.append(BATTERY_BASE_E);
    svg
}

/// The level that the battery reports in `contents`, if that is a number.
pub fn get_level(contents: &str) -> (level: Option<i32>)
    ensures
        level == parsed_i32(trimmed(contents@)),
{
    parse_i32(trim(contents))
}

/// Whether the charger reports in `contents` that it is plugged in.
pub fn charger_plugged_in(contents: &str) -> (plugged: bool)
    ensures
        plugged == contains(contents@, "1"@),
{
    str_contains(contents, "1")
}

} // verus!
