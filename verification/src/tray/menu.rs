//! Context menus: the tree an item publishes and the rows a consumer lays out.

use vstd::prelude::*;
use crate::tray::item::{copy_text, text_view};
use crate::tray::router::TrayAction;

verus! {

/// What sort of element a menu node is.
#[derive(Clone, Copy, Debug, PartialEq, Eq, Structural)]
pub enum MenuKind {
    Normal,
    Separator,
    Checkbox,
    Radio,
}

/// How a menu entry can be toggled, as the protocol reports it.
#[derive(Clone, Copy, Debug, PartialEq, Eq, Structural)]
pub enum Toggle {
    Checkmark,
    Radio,
    CannotBeToggled,
}

/// The kind of an element that the protocol reports as a separator or not,
/// with a way of toggling: a separator is a separator whatever its toggle
/// says; of the others a checkmark makes a checkbox and a radio mark a radio
/// entry.
pub open spec fn kind_of(separator: bool, toggle: Toggle) -> MenuKind {
    if separator {
        MenuKind::Separator
    } else {
        match toggle {
            Toggle::Checkmark => MenuKind::Checkbox,
            Toggle::Radio => MenuKind::Radio,
            Toggle::CannotBeToggled => MenuKind::Normal,
        }
    }
}

impl MenuKind {
    /// The kind of an element as the protocol reports it.
    pub fn of(separator: bool, toggle: Toggle) -> (kind: MenuKind)
        ensures
            kind == kind_of(separator, toggle),
    {
        if separator {
            MenuKind::Separator
        } else {
            match toggle {
                Toggle::Checkmark => MenuKind::Checkbox,
                Toggle::Radio => MenuKind::Radio,
                Toggle::CannotBeToggled => MenuKind::Normal,
            }
        }
    }
}

/// One element of a menu tree. `id` names the node within its menu and is what
/// an activation carries back; `children` is the sub-menu, in delivery order.
#[derive(Debug, PartialEq, Eq)]
pub struct MenuNode {
    pub id: i32,
    pub kind: MenuKind,
    pub label: Option<String>,
    pub enabled: bool,
    pub visible: bool,
    pub children: Vec<MenuNode>,
}

/// Mathematical value of a [`MenuNode`].
pub struct MenuNodeView {
    pub id: i32,
    pub kind: MenuKind,
    pub label: Option<Seq<char>>,
    pub enabled: bool,
    pub visible: bool,
    pub children: Seq<MenuNodeView>,
}

/// The value of a node: its own fields and, recursively, the values of its
/// children in order.
pub open spec fn node_view(n: MenuNode) -> MenuNodeView
    decreases n,
{
    MenuNodeView {
        id: n.id,
        kind: n.kind,
        label: text_view(n.label),
        enabled: n.enabled,
        visible: n.visible,
        children: Seq::new(
            n.children.len() as nat,
            |i: int|
                if 0 <= i < n.children.len() {
                    node_view(n.children[i])
                } else {
                    arbitrary()
                },
        ),
    }
}

impl View for MenuNode {
    type V = MenuNodeView;

    open spec fn view(&self) -> MenuNodeView {
        node_view(*self)
    }
}

/// Views of a list of nodes, in order.
pub open spec fn nodes_view(v: Seq<MenuNode>) -> Seq<MenuNodeView> {
    Seq::new(v.len(), |i: int| v[i]@)
}

/// View of an optional menu tree.
pub open spec fn tree_view(t: Option<Vec<MenuNode>>) -> Option<Seq<MenuNodeView>> {
    match t {
        Some(v) => Some(nodes_view(v@)),
        None => None,
    }
}

/// The children of a node, seen through [`nodes_view`].
pub proof fn lemma_children_view(n: MenuNode)
    ensures
        n@.children == nodes_view(n.children@),
{
}

impl MenuNode {
    /// A deep copy of the node and everything below it.
    pub fn snapshot(&self) -> (r: MenuNode)
        ensures
            r@ == self@,
        decreases self,
    {
        let mut children: Vec<MenuNode> = Vec::new();
        let mut i: usize = 0;
        while i < self.children.len()
            invariant
                i <= self.children.len(),
                children.len() == i,
                forall|k: int| 0 <= k < i ==> children[k]@ == self.children[k]@,
            decreases self.children.len() - i,
        {
            children.push(self.children[i].snapshot());
            i = i + 1;
        }
        let r = MenuNode {
            id: self.id,
            kind: self.kind,
            label: copy_text(&self.label),
            enabled: self.enabled,
            visible: self.visible,
            children,
        };
        proof {
            lemma_children_view(r);
            lemma_children_view(*self);
            assert(nodes_view(r.children@) =~= nodes_view(self.children@));
        }
        r
    }
}

/// Deep copy of an optional menu tree.
pub fn copy_tree(t: &Option<Vec<MenuNode>>) -> (r: Option<Vec<MenuNode>>)
    ensures
        tree_view(r) == tree_view(*t),
{
    match t {
        Some(v) => {
            let mut out: Vec<MenuNode> = Vec::new();
            let mut i: usize = 0;
            while i < v.len()
                invariant
                    i <= v.len(),
                    out.len() == i,
                    forall|k: int| 0 <= k < i ==> out[k]@ == v[k]@,
                decreases v.len() - i,
            {
                out.push(v[i].snapshot());
                i = i + 1;
            }
            Some(out)
        },
        None => None,
    }
}

/// What the engine knows of one item's menu: where the menu lives, and the
/// tree if one has been delivered. No tree means the content is unknown, not
/// that the menu is empty.
#[derive(Debug, PartialEq, Eq)]
pub struct MenuState {
    pub menu_path: String,
    pub menu: Option<Vec<MenuNode>>,
}

/// Mathematical value of a [`MenuState`].
pub struct MenuStateView {
    pub menu_path: Seq<char>,
    pub menu: Option<Seq<MenuNodeView>>,
}

impl View for MenuState {
    type V = MenuStateView;

    open spec fn view(&self) -> MenuStateView {
        MenuStateView { menu_path: self.menu_path@, menu: tree_view(self.menu) }
    }
}

impl MenuState {
    /// A menu at the empty path whose content is unknown.
    pub fn blank() -> (r: MenuState)
        ensures
            r@ == (MenuStateView { menu_path: Seq::empty(), menu: None }),
    {
        MenuState { menu_path: String::new(), menu: None }
    }

    /// A deep copy of the path and of the cached tree.
    pub fn snapshot(&self) -> (r: MenuState)
        ensures
            r@ == self@,
    {
        MenuState { menu_path: self.menu_path.clone(), menu: copy_tree(&self.menu) }
    }
}

/// One row of a menu as a consumer lays it out.
#[derive(Clone, Debug, PartialEq, Eq)]
pub enum MenuRow {
    /// A dividing line.
    Separator,
    /// An entry that opens the sub-menu of the node at `position` of the level
    /// that was laid out.
    Submenu { label: Option<String>, enabled: bool, position: usize },
    /// An entry that invokes the node `item_id`.
    Action { label: Option<String>, enabled: bool, item_id: i32 },
}

/// Mathematical value of a [`MenuRow`].
pub enum RowView {
    Separator,
    Submenu { label: Option<Seq<char>>, enabled: bool, position: int },
    Action { label: Option<Seq<char>>, enabled: bool, item_id: i32 },
}

impl View for MenuRow {
    type V = RowView;

    open spec fn view(&self) -> RowView {
        match self {
            MenuRow::Separator => RowView::Separator,
            MenuRow::Submenu { label, enabled, position } => RowView::Submenu {
                label: text_view(*label),
                enabled: *enabled,
                position: *position as int,
            },
            MenuRow::Action { label, enabled, item_id } => RowView::Action {
                label: text_view(*label),
                enabled: *enabled,
                item_id: *item_id,
            },
        }
    }
}

/// Views of a list of rows, in order.
pub open spec fn rows_view(v: Seq<MenuRow>) -> Seq<RowView> {
    Seq::new(v.len(), |i: int| v[i]@)
}

/// The row for the node `n` at `position` of its level. A hidden node has
/// none. A separator is a dividing line whatever else it carries; a node with
/// children opens them; any other node is invoked.
pub open spec fn row_of(n: MenuNodeView, position: int) -> Option<RowView> {
    if !n.visible {
        None
    } else if n.kind is Separator {
        Some(RowView::Separator)
    } else if n.children.len() > 0 {
        Some(RowView::Submenu { label: n.label, enabled: n.enabled, position })
    } else {
        Some(RowView::Action { label: n.label, enabled: n.enabled, item_id: n.id })
    }
}

/// The rows of one menu level: the rows of its visible nodes, in delivery
/// order.
pub open spec fn rows_of(nodes: Seq<MenuNodeView>) -> Seq<RowView>
    decreases nodes.len(),
{
    if nodes.len() == 0 {
        Seq::empty()
    } else {
        let before = rows_of(nodes.drop_last());
        match row_of(nodes.last(), nodes.len() - 1) {
            Some(row) => before.push(row),
            None => before,
        }
    }
}

/// Lays out one level of a menu.
pub fn menu_rows(nodes: &Vec<MenuNode>) -> (rows: Vec<MenuRow>)
    ensures
        rows_view(rows@) == rows_of(nodes_view(nodes@)),
{
    let ghost all = nodes_view(nodes@);
    let mut rows: Vec<MenuRow> = Vec::new();
    let mut i: usize = 0;
    while i < nodes.len()
        invariant
            i <= nodes.len(),
            all == nodes_view(nodes@),
            rows_view(rows@) == rows_of(all.take(i as int)),
        decreases nodes.len() - i,
    {
        let node = &nodes[i];
        proof {
            assert(all.take(i + 1).drop_last() =~= all.take(i as int));
            lemma_children_view(*node);
        }
        if node.visible {
            let row = if node.kind == MenuKind::Separator {
                MenuRow::Separator
            } else if node.children.len() > 0 {
                MenuRow::Submenu {
                    label: copy_text(&node.label),
                    enabled: node.enabled,
                    position: i,
                }
            } else {
                MenuRow::Action {
                    label: copy_text(&node.label),
                    enabled: node.enabled,
                    item_id: node.id,
                }
            };
            rows.push(row);
        }
        i = i + 1;
    }
    assert(all.take(nodes.len() as int) =~= all);
    rows
}

impl MenuRow {
    /// The intent that a click on this row of the menu that item `id`
    /// publishes under `menu_path` stands for. Only an enabled action row
    /// stands for one.
    pub fn intent(&self, id: &str, menu_path: &str) -> (r: Option<TrayAction>)
        ensures
            match r {
                Some(TrayAction::MenuAction { id: to, menu_path: under, item_id }) => {
                    &&& self@ matches RowView::Action { enabled, item_id: node, .. }
                    &&& enabled
                    &&& node == item_id
                    &&& to@ == id@
                    &&& under@ == menu_path@
                },
                Some(_) => false,
                None => !(self@ matches RowView::Action { enabled, .. } && enabled),
            },
    {
        match self {
            MenuRow::Action { enabled, item_id, .. } => {
                if *enabled {
                    Some(
                        TrayAction::MenuAction {
                            id: id.to_owned(),
                            menu_path: menu_path.to_owned(),
                            item_id: *item_id,
                        },
                    )
                } else {
                    None
                }
            },
            _ => None,
        }
    }
}

} // verus!
