//! Protocol events, the notifications they produce, and the rules by which an
//! event changes the replica.

use vstd::prelude::*;
use crate::tray::item::{icons_view, text_view, IconPixmap, ItemView, Status, TrayItemInfo};
use crate::tray::menu::{nodes_view, MenuNode, MenuStateView};

verus! {

/// What an `Add` event says of a new item: its full state and, if it has a
/// menu, where that menu lives.
#[derive(Debug, PartialEq, Eq)]
pub struct ItemDescriptor {
    pub info: TrayItemInfo,
    pub menu_path: Option<String>,
}

/// A change to an item that is already published.
#[derive(Debug, PartialEq, Eq)]
pub enum TrayUpdate {
    /// The status changed.
    Status(Status),
    /// The icon changed. Only the fields that are present replace the stored
    /// ones.
    Icon { icon_name: Option<String>, icon_pixmap: Option<Vec<IconPixmap>> },
    /// The whole menu tree was delivered.
    Menu(Vec<MenuNode>),
    /// The menu moved to another path.
    MenuPath(String),
    /// Any other change; the engine does not track it.
    Other,
}

/// One event of the tray protocol, keyed by the identity of the item.
#[derive(Debug, PartialEq, Eq)]
pub enum TrayEvent {
    Add(String, ItemDescriptor),
    Update(String, TrayUpdate),
    Remove(String),
}

/// What consumers are told after a change: the identity and either the full
/// current state of the item, or nothing when the item is gone.
#[derive(Clone, Debug, PartialEq, Eq)]
pub struct Notification {
    pub id: String,
    pub item: Option<TrayItemInfo>,
}

/// Mathematical value of a [`Notification`].
pub struct NotificationView {
    pub id: Seq<char>,
    pub item: Option<ItemView>,
}

impl View for Notification {
    type V = NotificationView;

    open spec fn view(&self) -> NotificationView {
        NotificationView {
            id: self.id@,
            item: match self.item {
                Some(info) => Some(info@),
                None => None,
            },
        }
    }
}

/// Views of a list of notifications, in order.
pub open spec fn notes_view(v: Seq<Notification>) -> Seq<NotificationView> {
    Seq::new(v.len(), |i: int| v[i]@)
}

/// The replica: every published item and every known menu, by identity.
pub struct TrayState {
    pub items: Map<Seq<char>, ItemView>,
    pub menus: Map<Seq<char>, MenuStateView>,
}

impl TrayState {
    /// The replica before any event.
    pub open spec fn empty() -> TrayState {
        TrayState { items: Map::empty(), menus: Map::empty() }
    }
}

impl TrayEvent {
    /// The identity the event is about.
    pub open spec fn id(self) -> Seq<char> {
        match self {
            TrayEvent::Add(id, _) => id@,
            TrayEvent::Update(id, _) => id@,
            TrayEvent::Remove(id) => id@,
        }
    }
}

/// The item that results from merging an icon change into `cur`: a field that
/// the change carries replaces the stored one, an absent field leaves it.
pub open spec fn merge_icon(
    cur: ItemView,
    icon_name: Option<Seq<char>>,
    icon_pixmap: Option<Seq<crate::tray::item::PixmapView>>,
) -> ItemView {
    ItemView {
        icon_name: if icon_name is Some {
            icon_name
        } else {
            cur.icon_name
        },
        icon_pixmap: if icon_pixmap is Some {
            icon_pixmap
        } else {
            cur.icon_pixmap
        },
        ..cur
    }
}

/// The items after `e`.
pub open spec fn step_items(items: Map<Seq<char>, ItemView>, e: TrayEvent) -> Map<
    Seq<char>,
    ItemView,
> {
    match e {
        TrayEvent::Add(id, d) => items.insert(id@, d.info@),
        TrayEvent::Update(id, TrayUpdate::Status(status)) => if items.contains_key(id@) {
            items.insert(id@, ItemView { status, ..items[id@] })
        } else {
            items
        },
        TrayEvent::Update(id, TrayUpdate::Icon { icon_name, icon_pixmap }) => if items.contains_key(
            id@,
        ) {
            items.insert(id@, merge_icon(items[id@], text_view(icon_name), icons_view(icon_pixmap)))
        } else {
            items
        },
        TrayEvent::Update(_, _) => items,
        TrayEvent::Remove(id) => items.remove(id@),
    }
}

/// The menus after `e`.
pub open spec fn step_menus(menus: Map<Seq<char>, MenuStateView>, e: TrayEvent) -> Map<
    Seq<char>,
    MenuStateView,
> {
    match e {
        TrayEvent::Add(id, d) => match d.menu_path {
            Some(path) => menus.insert(id@, MenuStateView { menu_path: path@, menu: None }),
            None => menus,
        },
        TrayEvent::Update(id, TrayUpdate::Menu(tree)) => if menus.contains_key(id@) {
            menus.insert(
                id@,
                MenuStateView { menu_path: menus[id@].menu_path, menu: Some(nodes_view(tree@)) },
            )
        } else {
            menus
        },
        TrayEvent::Update(id, TrayUpdate::MenuPath(path)) => menus.insert(
            id@,
            MenuStateView {
                menu_path: path@,
                menu: if menus.contains_key(id@) {
                    menus[id@].menu
                } else {
                    None
                },
            },
        ),
        TrayEvent::Update(_, _) => menus,
        TrayEvent::Remove(id) => menus.remove(id@),
    }
}

/// The replica after `e`.
pub open spec fn step(s: TrayState, e: TrayEvent) -> TrayState {
    TrayState { items: step_items(s.items, e), menus: step_menus(s.menus, e) }
}

/// What `e` makes the engine tell its consumers, if anything. An addition and
/// a status or icon change of a published item carry the item's full new
/// state; the removal of a published item carries none. Menu events, events
/// about an unpublished identity and untracked changes tell nothing.
pub open spec fn emitted(s: TrayState, e: TrayEvent) -> Option<NotificationView> {
    match e {
        TrayEvent::Add(id, _) => Some(
            NotificationView { id: id@, item: Some(step_items(s.items, e)[id@]) },
        ),
        TrayEvent::Update(id, TrayUpdate::Status(_)) | TrayEvent::Update(
            id,
            TrayUpdate::Icon { .. },
        ) => if s.items.contains_key(id@) {
            Some(NotificationView { id: id@, item: Some(step_items(s.items, e)[id@]) })
        } else {
            None
        },
        TrayEvent::Update(_, _) => None,
        TrayEvent::Remove(id) => if s.items.contains_key(id@) {
            Some(NotificationView { id: id@, item: None })
        } else {
            None
        },
    }
}

/// The replica after the events of `es`, taken first to last.
pub open spec fn run(s: TrayState, es: Seq<TrayEvent>) -> TrayState
    decreases es.len(),
{
    if es.len() == 0 {
        s
    } else {
        step(run(s, es.drop_last()), es.last())
    }
}

/// Everything the engine tells its consumers while it takes the events of
/// `es` first to last, in that order.
pub open spec fn published(s: TrayState, es: Seq<TrayEvent>) -> Seq<NotificationView>
    decreases es.len(),
{
    if es.len() == 0 {
        Seq::empty()
    } else {
        let before = published(s, es.drop_last());
        match emitted(run(s, es.drop_last()), es.last()) {
            Some(n) => before.push(n),
            None => before,
        }
    }
}

} // verus!
