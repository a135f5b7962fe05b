//! The battery widget: what it shows for a charge level and a charging state.

use vstd::prelude::*;
use crate::text::{
    append_signed, parse_i32, parsed_signed, same_text, signed_decimal, trim, trimmed,
};

verus! {

/// The glyph for a charge level in percent: one of five, from full to empty.
pub open spec fn battery_glyph(capacity: int) -> Seq<char> {
    if capacity > 90 {
        "\u{f240}"@
    } else if capacity > 60 {
        "\u{f241}"@
    } else if capacity > 40 {
        "\u{f242}"@
    } else if capacity > 20 {
        "\u{f243}"@
    } else {
        "\u{f244}"@
    }
}

/// The glyph for a charge level in percent.
pub fn battery_icon(capacity: i32) -> (r: &'static str)
    ensures
        r@ == battery_glyph(capacity as int),
{
    if capacity > 90 {
        "\u{f240}"
    } else if capacity > 60 {
        "\u{f241}"
    } else if capacity > 40 {
        "\u{f242}"
    } else if capacity > 20 {
        "\u{f243}"
    } else {
        "\u{f244}"
    }
}

/// The charge level that the capacity file states. A file that could not be
/// read, or that holds no number, counts as zero.
pub open spec fn capacity_of(text: Option<&str>) -> int {
    match text {
        Some(t) => match parsed_signed(trimmed(t@), i32::MIN as int, i32::MAX as int) {
            Some(v) => v,
            None => 0,
        },
        None => 0,
    }
}

/// The charge level that the capacity file states.
pub fn read_capacity(text: Option<&str>) -> (r: i32)
    ensures
        r == capacity_of(text),
{
    match text {
        Some(t) => match parse_i32(trim(t)) {
            Some(v) => v,
            None => 0,
        },
        None => 0,
    }
}

/// Whether the status file says that the battery is charging.
pub fn is_charging(status: Option<&str>) -> (r: bool)
    ensures
        r == (status matches Some(s) && trimmed(s@) == "Charging"@),
{
    match status {
        Some(s) => same_text(trim(s), "Charging"),
        None => false,
    }
}

/// Whether the level is critical: five percent or less, and not charging.
pub fn is_critical(capacity: i32, charging: bool) -> (r: bool)
    ensures
        r == (capacity <= 5 && !charging),
{
    capacity <= 5 && !charging
}

/// The text of the widget: the glyph, two blanks, the level and a percent
/// sign.
pub fn battery_label(capacity: i32) -> (r: String)
    ensures
        r@ == battery_glyph(capacity as int) + "  "@ + signed_decimal(capacity as int) + "%"@,
{
    let mut out = String::from_str(battery_icon(capacity));
    out.append("  ");
    append_signed(&mut out, capacity as i64);
    out.append("%");
    out
}

} // verus!
