//! Activation intents and the protocol calls they turn into.

use vstd::prelude::*;

verus! {

/// What a user gesture asks for.
#[derive(Clone, Debug, PartialEq, Eq)]
pub enum TrayAction {
    /// Primary activation of item `id` at a screen coordinate.
    Activate { id: String, x: i32, y: i32 },
    /// Invocation of the node `item_id` of the menu that item `id` publishes
    /// under `menu_path`.
    MenuAction { id: String, menu_path: String, item_id: i32 },
}

/// One call on the protocol client.
#[derive(Clone, Debug, PartialEq, Eq)]
pub enum ActivateCall {
    Default { address: String, x: i32, y: i32 },
    MenuItem { address: String, menu_path: String, submenu_id: i32 },
}

impl TrayAction {
    /// The protocol call that carries out this intent. The identity given when
    /// the intent was made is used as it is: it is not checked against the
    /// replica again.
    pub fn into_call(self) -> (c: ActivateCall)
        ensures
            match self {
                TrayAction::Activate { id, x, y } => c == (ActivateCall::Default {
                    address: id,
                    x,
                    y,
                }),
                TrayAction::MenuAction { id, menu_path, item_id } => c == (ActivateCall::MenuItem {
                    address: id,
                    menu_path,
                    submenu_id: item_id,
                }),
            },
    {
        match self {
            TrayAction::Activate { id, x, y } => ActivateCall::Default { address: id, x, y },
            TrayAction::MenuAction { id, menu_path, item_id } => ActivateCall::MenuItem {
                address: id,
                menu_path,
                submenu_id: item_id,
            },
        }
    }
}

} // verus!
