//! The workspace buttons: the glyph of a workspace, its name, and the command
//! that focuses it.

use vstd::prelude::*;
use crate::text::{append_decimal, decimal, same_text};

verus! {

/// The glyph of the workspace called `name`: the workspaces `1` to `7` have
/// their own, every other one shows a dot.
pub open spec fn workspace_glyph(name: Seq<char>) -> Seq<char> {
    if name == "1"@ {
        "\u{f120}"@
    } else if name == "2"@ {
        "\u{f269}"@
    } else if name == "3"@ {
        "\u{f121}"@
    } else if name == "4"@ {
        "\u{f187}"@
    } else if name == "5"@ {
        "\u{f1de}"@
    } else if name == "6"@ {
        "\u{f025}"@
    } else if name == "7"@ {
        "\u{f2b6}"@
    } else {
        "\u{f111}"@
    }
}

/// The glyph of a workspace.
pub fn get_workspace_icon(name: &str) -> (r: String)
    ensures
        r@ == workspace_glyph(name@),
{
    let glyph = if same_text(name, "1") {
        "\u{f120}"
    } else if same_text(name, "2") {
        "\u{f269}"
    } else if same_text(name, "3") {
        "\u{f121}"
    } else if same_text(name, "4") {
        "\u{f187}"
    } else if same_text(name, "5") {
        "\u{f1de}"
    } else if same_text(name, "6") {
        "\u{f025}"
    } else if same_text(name, "7") {
        "\u{f2b6}"
    } else {
        "\u{f111}"
    };
    String::from_str(glyph)
}

/// What a workspace goes by: its name, or its number where it has no name.
pub fn workspace_name(name: Option<String>, id: u64) -> (r: String)
    ensures
        r@ == match name {
            Some(n) => n@,
            None => decimal(id as nat),
        },
{
    match name {
        Some(n) => n,
        None => {
            let mut out = String::new();
            append_decimal(&mut out, id);
            out
        },
    }
}

/// The command that asks the window manager to show the workspace `name`.
pub fn focus_command(name: &str) -> (r: String)
    ensures
        r@ == "workspace \""@ + name@ + "\""@,
{
    let mut out = String::from_str("workspace \"");
    out.append(name);
    out.append("\"");
    out
}

} // verus!
