//! The media widget: what it shows for the active player.

use vstd::prelude::*;
use crate::text::{join, joined, texts};

verus! {

/// What a player is doing.
#[derive(Clone, Copy, Debug, PartialEq, Eq, Structural)]
pub enum Playback {
    Playing,
    Paused,
    Stopped,
}

/// The glyph for what a player is doing.
pub open spec fn playback_glyph(state: Playback) -> Seq<char> {
    match state {
        Playback::Playing => "\u{f04b}"@,
        Playback::Paused => "\u{f04c}"@,
        Playback::Stopped => "\u{23f9}"@,
    }
}

/// The glyph for what a player is doing.
pub fn playback_icon(state: Playback) -> (r: &'static str)
    ensures
        r@ == playback_glyph(state),
{
    match state {
        Playback::Playing => "\u{f04b}",
        Playback::Paused => "\u{f04c}",
        Playback::Stopped => "\u{23f9}",
    }
}

/// The text of the widget: the glyph, two blanks, the artists with commas
/// between them, a dash, and the title.
pub fn now_playing(state: Playback, artists: &Vec<String>, title: &str) -> (r: String)
    ensures
        r@ == playback_glyph(state) + "  "@ + joined(texts(artists@), ", "@) + " - "@ + title@,
{
    let mut out = String::from_str(playback_icon(state));
    out.append("  ");
    let names = join(artists, ", ");
    out.append(names.as_str());
    out.append(" - ");
    out.append(title);
    out
}

} // verus!
