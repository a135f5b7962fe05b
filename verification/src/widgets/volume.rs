//! The volume widget: what it shows for a level and a mute switch.

use vstd::prelude::*;
use crate::text::{append_signed, signed_decimal};

verus! {

/// The glyph of the widget: a crossed speaker when the sink is muted, a
/// speaker when it is not.
pub open spec fn volume_glyph(muted: bool) -> Seq<char> {
    if muted {
        "\u{f6a9}"@
    } else {
        "\u{f028}"@
    }
}

/// The text of the widget: the glyph, two blanks, the level in percent and a
/// percent sign.
pub fn volume_label(muted: bool, percent: i32) -> (r: String)
    ensures
        r@ == volume_glyph(muted) + "  "@ + signed_decimal(percent as int) + "%"@,
{
    let icon = if muted {
        "\u{f6a9}"
    } else {
        "\u{f028}"
    };
    let mut out = String::from_str(icon);
    out.append("  ");
    append_signed(&mut out, percent as i64);
    out.append("%");
    out
}

} // verus!
