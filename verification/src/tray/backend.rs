//! The engine: the authoritative replica and the one place that changes it.

use vstd::prelude::*;
use tokio::sync::{broadcast, mpsc};
use crate::tray::channel::{
    broadcast_send, broadcast_subscribe, handed, listens, open_broadcast, open_queue, queue_send,
    submitted,
};
use crate::tray::consumer::init;
use crate::tray::event::{
    emitted, notes_view, published, run, step, ItemDescriptor, Notification, NotificationView,
    TrayEvent, TrayState, TrayUpdate,
};
use crate::tray::idmap::IdMap;
use crate::tray::item::TrayItemInfo;
use crate::tray::menu::{copy_tree, nodes_view, MenuNode, MenuState};
use crate::tray::router::TrayAction;

verus! {

/// How many notifications the broadcast channel is asked to retain.
pub const NOTIFICATION_CAPACITY: usize = 128;

/// What became of the notification of one ingested event.
#[derive(Clone, Copy, Debug, PartialEq, Eq, Structural)]
pub enum Published {
    /// The event calls for no notification.
    Nothing,
    /// A notification was due, and nobody was subscribed.
    Dropped,
    /// The notification was queued for this many subscribers.
    Sent(usize),
}

/// View of an optional notification.
pub open spec fn note_view(n: Option<Notification>) -> Option<NotificationView> {
    match n {
        Some(n) => Some(n@),
        None => None,
    }
}

/// The synchronisation engine. It owns the item store and the menu store,
/// applies protocol events to them one at a time, and publishes a notification
/// for each change of an item.
pub struct TrayBackend {
    items: IdMap<TrayItemInfo>,
    menus: IdMap<MenuState>,
    tx_ui: broadcast::Sender<Notification>,
    tx_activate: mpsc::UnboundedSender<TrayAction>,
}

impl View for TrayBackend {
    type V = TrayState;

    closed spec fn view(&self) -> TrayState {
        TrayState { items: self.items@, menus: self.menus@ }
    }
}

impl TrayBackend {
    /// Every notification that the engine has handed to its channel so far, in
    /// the order in which it did.
    pub closed spec fn offered(&self) -> Seq<NotificationView> {
        handed(self.tx_ui)
    }

    /// Whether the receiver is subscribed to the channel of this engine.
    pub closed spec fn feeds(&self, rx: broadcast::Receiver<Notification>) -> bool {
        listens(self.tx_ui, rx)
    }

    /// Every intent that the engine has handed to its queue so far, in the
    /// order in which they were submitted.
    pub closed spec fn intents(&self) -> Seq<TrayAction> {
        submitted(self.tx_activate)
    }

    /// Whether this engine has the subscribers that `before` had: no more and
    /// no fewer receivers are subscribed to its channel.
    pub open spec fn keeps_subscribers(&self, before: &TrayBackend) -> bool {
        forall|rx: broadcast::Receiver<Notification>| #[trigger]
            self.feeds(rx) == before.feeds(rx)
    }

    /// The identities of the published items, in the order in which the store
    /// hands them out.
    pub closed spec fn item_ids(&self) -> Seq<Seq<char>> {
        self.items.ids()
    }

    /// An engine whose replica is what the events of `seed` leave behind, with
    /// a notification channel of [`NOTIFICATION_CAPACITY`]. Seeding publishes
    /// nothing. The second value is the receiving end of the intent queue.
    pub fn new(seed: Vec<TrayEvent>) -> (r: (TrayBackend, mpsc::UnboundedReceiver<TrayAction>))
        ensures
            r.0@ == run(TrayState::empty(), seed@),
            r.0.offered() == Seq::<NotificationView>::empty(),
            r.0.intents() == Seq::<TrayAction>::empty(),
    {
        Self::build(NOTIFICATION_CAPACITY, seed)
    }

    /// As [`TrayBackend::new`], with a channel that retains `capacity`
    /// notifications. There is no such channel for a capacity of zero or above
    /// half of `usize::MAX`.
    pub fn with_capacity(capacity: usize, seed: Vec<TrayEvent>) -> (r: Option<
        (TrayBackend, mpsc::UnboundedReceiver<TrayAction>),
    >)
        ensures
            r is Some <==> 0 < capacity <= usize::MAX / 2,
            r matches Some(pair) ==> pair.0@ == run(TrayState::empty(), seed@)
                && pair.0.offered() == Seq::<NotificationView>::empty() && pair.0.intents()
                == Seq::<TrayAction>::empty(),
    {
        if capacity == 0 || capacity > usize::MAX / 2 {
            None
        } else {
            Some(Self::build(capacity, seed))
        }
    }

    fn build(capacity: usize, seed: Vec<TrayEvent>) -> (r: (
        TrayBackend,
        mpsc::UnboundedReceiver<TrayAction>,
    ))
        requires
            0 < capacity <= usize::MAX / 2,
        ensures
            r.0@ == run(TrayState::empty(), seed@),
            r.0.offered() == Seq::<NotificationView>::empty(),
            r.0.intents() == Seq::<TrayAction>::empty(),
    {
        let tx_ui = open_broadcast(capacity);
        let (tx_activate, rx_activate) = open_queue();
        let mut backend = TrayBackend {
            items: IdMap::new(),
            menus: IdMap::new(),
            tx_ui,
            tx_activate,
        };
        let _ = backend.apply_all(seed);
        (backend, rx_activate)
    }

    /// Applies one event to the replica and returns the notification it calls
    /// for. Nothing is published.
    pub fn apply(&mut self, event: TrayEvent) -> (note: Option<Notification>)
        ensures
            final(self)@ == step(old(self)@, event),
            note_view(note) == emitted(old(self)@, event),
            final(self).offered() == old(self).offered(),
            final(self).intents() == old(self).intents(),
            final(self).keeps_subscribers(old(self)),
    {
        match event {
            TrayEvent::Add(id, descriptor) => {
                let ItemDescriptor { info, menu_path } = descriptor;
                let snapshot = info.snapshot();
                if let Some(path) = menu_path {
                    self.menus.insert(id.clone(), MenuState { menu_path: path, menu: None });
                }
                self.items.insert(id.clone(), info);
                Some(Notification { id, item: Some(snapshot) })
            },
            TrayEvent::Update(id, TrayUpdate::Status(status)) => {
                match self.items.find(&id) {
                    Some(i) => {
                        // The item is taken out, changed and put back in its
                        // place; nobody can look at the store in between.
                        let mut cur = self.items.swap_value(i, TrayItemInfo::blank());
                        cur.status = status;
                        let snapshot = cur.snapshot();
                        let _ = self.items.swap_value(i, cur);
                        assert(self.items@ =~= old(self).items@.insert(id@, snapshot@));
                        Some(Notification { id, item: Some(snapshot) })
                    },
                    None => None,
                }
            },
            TrayEvent::Update(id, TrayUpdate::Icon { icon_name, icon_pixmap }) => {
                match self.items.find(&id) {
                    Some(i) => {
                        let mut cur = self.items.swap_value(i, TrayItemInfo::blank());
                        if let Some(name) = icon_name {
                            cur.icon_name = Some(name);
                        }
                        if let Some(pixmap) = icon_pixmap {
                            cur.icon_pixmap = Some(pixmap);
                        }
                        let snapshot = cur.snapshot();
                        let _ = self.items.swap_value(i, cur);
                        assert(self.items@ =~= old(self).items@.insert(id@, snapshot@));
                        Some(Notification { id, item: Some(snapshot) })
                    },
                    None => None,
                }
            },
            TrayEvent::Update(id, TrayUpdate::Menu(tree)) => {
                match self.menus.find(&id) {
                    Some(i) => {
                        let mut cur = self.menus.swap_value(i, MenuState::blank());
                        cur.menu = Some(tree);
                        let ghost next = cur@;
                        let _ = self.menus.swap_value(i, cur);
                        assert(self.menus@ =~= old(self).menus@.insert(id@, next));
                    },
                    None => {},
                }
                None
            },
            TrayEvent::Update(id, TrayUpdate::MenuPath(path)) => {
                match self.menus.find(&id) {
                    Some(i) => {
                        let mut cur = self.menus.swap_value(i, MenuState::blank());
                        cur.menu_path = path;
                        let ghost next = cur@;
                        let _ = self.menus.swap_value(i, cur);
                        assert(self.menus@ =~= old(self).menus@.insert(id@, next));
                    },
                    None => {
                        self.menus.insert(id, MenuState { menu_path: path, menu: None });
                    },
                }
                None
            },
            TrayEvent::Update(_, TrayUpdate::Other) => None,
            TrayEvent::Remove(id) => {
                let _ = self.menus.remove(&id);
                match self.items.remove(&id) {
                    Some(_) => Some(Notification { id, item: None }),
                    None => None,
                }
            },
        }
    }

    /// Applies the events of a batch, first to last, and returns the
    /// notifications they call for in that order. Nothing is published.
    pub fn apply_all(&mut self, events: Vec<TrayEvent>) -> (notes: Vec<Notification>)
        ensures
            final(self)@ == run(old(self)@, events@),
            notes_view(notes@) == published(old(self)@, events@),
            final(self).offered() == old(self).offered(),
            final(self).intents() == old(self).intents(),
            final(self).keeps_subscribers(old(self)),
    {
        let ghost all = events@;
        let ghost start = self@;
        let mut notes: Vec<Notification> = Vec::new();
        for event in it: events
            invariant
                it.seq() == all,
                self.offered() == old(self).offered(),
                self.intents() == old(self).intents(),
                self.keeps_subscribers(old(self)),
                self@ == run(start, all.take(it.index() as int)),
                notes_view(notes@) == published(start, all.take(it.index() as int)),
        {
            let ghost i = it.index() as int;
            assert(all.take(i + 1).drop_last() =~= all.take(i));
            match self.apply(event) {
                Some(note) => {
                    notes.push(note);
                },
                None => {},
            }
        }
        assert(all.take(all.len() as int) =~= all);
        notes
    }

    /// Applies one event to the replica and hands the notification it calls
    /// for, if it calls for one, to the channel. The outcome says whether the
    /// channel had anyone to queue it for.
    pub fn ingest(&mut self, event: TrayEvent) -> (outcome: Published)
        ensures
            final(self)@ == step(old(self)@, event),
            final(self).offered() == match emitted(old(self)@, event) {
                Some(note) => old(self).offered().push(note),
                None => old(self).offered(),
            },
            final(self).intents() == old(self).intents(),
            final(self).keeps_subscribers(old(self)),
            outcome is Nothing <==> emitted(old(self)@, event) is None,
            outcome matches Published::Sent(receivers) ==> receivers >= 1,
    {
        match self.apply(event) {
            Some(note) => {
                let ghost applied = *self;
                let sent = broadcast_send(&mut self.tx_ui, note);
                assert forall|rx: broadcast::Receiver<Notification>| #[trigger]
                    self.feeds(rx) == old(self).feeds(rx) by {
                    assert(applied.feeds(rx) == old(self).feeds(rx));
                }
                match sent {
                    Some(receivers) => Published::Sent(receivers),
                    None => Published::Dropped,
                }
            },
            None => Published::Nothing,
        }
    }

    /// The ingestion loop over a batch: takes the events in first to last,
    /// handing each due notification to the channel before the next event is
    /// looked at. Returns how many notifications were due.
    pub fn ingest_all(&mut self, events: Vec<TrayEvent>) -> (due: usize)
        ensures
            final(self)@ == run(old(self)@, events@),
            final(self).offered() == old(self).offered() + published(old(self)@, events@),
            final(self).intents() == old(self).intents(),
            final(self).keeps_subscribers(old(self)),
            due == published(old(self)@, events@).len(),
    {
        let ghost all = events@;
        let ghost start = self@;
        let ghost before = self.offered();
        let total = events.len();
        let mut due: usize = 0;
        for event in it: events
            invariant
                it.seq() == all,
                self@ == run(start, all.take(it.index() as int)),
                self.offered() == before + published(start, all.take(it.index() as int)),
                self.intents() == old(self).intents(),
                self.keeps_subscribers(old(self)),
                due == published(start, all.take(it.index() as int)).len(),
                due <= it.index(),
                all.len() == total,
        {
            let ghost i = it.index() as int;
            assert(all.take(i + 1).drop_last() =~= all.take(i));
            match self.ingest(event) {
                Published::Nothing => {},
                _ => {
                    due = due + 1;
                },
            }
        }
        assert(all.take(all.len() as int) =~= all);
        due
    }

    /// A new subscription to the notifications that this engine publishes from
    /// now on.
    pub fn subscribe(&self) -> (rx: broadcast::Receiver<Notification>)
        ensures
            self.feeds(rx),
    {
        broadcast_subscribe(&self.tx_ui)
    }

    /// The item store, to read.
    pub fn items(&self) -> (store: &IdMap<TrayItemInfo>)
        ensures
            store@ == self@.items,
            store.ids() == self.item_ids(),
    {
        &self.items
    }

    /// A copy of every published item, in the order of the store: what a
    /// consumer that attaches now starts from.
    pub fn snapshot_items(&self) -> (copy: IdMap<TrayItemInfo>)
        ensures
            copy@ == self@.items,
            copy.ids() == self.item_ids(),
    {
        let (view, _) = init(&self.items);
        view.into_items()
    }

    /// What is known of the menu of `id`: a copy of its path and of the tree,
    /// if one was delivered.
    pub fn get_menu(&self, id: &str) -> (r: Option<MenuState>)
        ensures
            match r {
                Some(state) => self@.menus.contains_key(id@) && state@ == self@.menus[id@],
                None => !self@.menus.contains_key(id@),
            },
    {
        let key = id.to_owned();
        match self.menus.get(&key) {
            Some(state) => Some(state.snapshot()),
            None => None,
        }
    }

    /// The menu to show for `id`: its path and a copy of its tree. There is
    /// one only when a tree has been delivered; a menu whose content is
    /// unknown is not shown as empty.
    pub fn open_menu(&self, id: &str) -> (r: Option<(String, Vec<MenuNode>)>)
        ensures
            match r {
                Some((path, tree)) => {
                    &&& self@.menus.contains_key(id@)
                    &&& self@.menus[id@].menu_path == path@
                    &&& self@.menus[id@].menu == Some(nodes_view(tree@))
                },
                None => !self@.menus.contains_key(id@) || self@.menus[id@].menu is None,
            },
    {
        let key = id.to_owned();
        match self.menus.get(&key) {
            Some(state) => match copy_tree(&state.menu) {
                Some(tree) => Some((state.menu_path.clone(), tree)),
                None => None,
            },
            None => None,
        }
    }

    /// Queues an intent for the task that talks to the protocol client, without
    /// waiting: the intent is handed to the queue behind those submitted
    /// before it, and nothing else of the engine changes. The caller need not
    /// look at the result: the intent comes back only when that task is gone.
    pub fn submit_intent(&mut self, intent: TrayAction) -> (r: Result<(), TrayAction>)
        ensures
            final(self).intents() == old(self).intents().push(intent),
            final(self)@ == old(self)@,
            final(self).offered() == old(self).offered(),
            final(self).keeps_subscribers(old(self)),
            r matches Err(back) ==> back == intent,
    {
        queue_send(&mut self.tx_activate, intent)
    }
}

} // verus!
