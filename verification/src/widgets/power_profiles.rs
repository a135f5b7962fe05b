//! The power-profile widget: the glyph of a profile and the profile a click
//! switches to.

use vstd::prelude::*;
use crate::text::same_text;

verus! {

/// The glyph for a profile. A profile that is not known looks balanced.
pub open spec fn profile_glyph(profile: Seq<char>) -> Seq<char> {
    if profile == "performance"@ {
        "\u{f0e7}"@
    } else if profile == "balanced"@ {
        "\u{f24e}"@
    } else if profile == "power-saver"@ {
        "\u{f06c}"@
    } else {
        "\u{f24e}"@
    }
}

/// The glyph for a profile.
pub fn profile_icon(profile: &str) -> (r: &'static str)
    ensures
        r@ == profile_glyph(profile@),
{
    if same_text(profile, "performance") {
        "\u{f0e7}"
    } else if same_text(profile, "balanced") {
        "\u{f24e}"
    } else if same_text(profile, "power-saver") {
        "\u{f06c}"
    } else {
        "\u{f24e}"
    }
}

/// The profile that follows `current` when the widget is clicked: balanced,
/// performance, power-saver and round again. From a profile that is not known
/// the round starts at balanced.
pub open spec fn profile_after(current: Seq<char>) -> Seq<char> {
    if current == "balanced"@ {
        "performance"@
    } else if current == "performance"@ {
        "power-saver"@
    } else {
        "balanced"@
    }
}

/// The profile that a click switches to.
pub fn next_profile(current: &str) -> (r: &'static str)
    ensures
        r@ == profile_after(current@),
{
    if same_text(current, "balanced") {
        "performance"
    } else if same_text(current, "performance") {
        "power-saver"
    } else {
        "balanced"
    }
}

} // verus!
