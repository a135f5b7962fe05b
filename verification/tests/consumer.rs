use tokio::sync::broadcast::error::TryRecvError;
use tokio::sync::broadcast::Receiver;
use vibebar::tray::backend::{Published, TrayBackend};
use vibebar::tray::consumer::{init, Delivery, SubscriberPhase, TrayView, ViewChange};
use vibebar::tray::event::{ItemDescriptor, Notification, TrayEvent, TrayUpdate};
use vibebar::tray::idmap::IdMap;
use vibebar::tray::item::{Status, TrayItemInfo};

fn item(icon: &str, status: Status) -> TrayItemInfo {
    TrayItemInfo {
        icon_name: Some(icon.to_string()),
        icon_theme_path: None,
        icon_pixmap: None,
        status,
    }
}

fn added(id: &str, info: TrayItemInfo) -> TrayEvent {
    TrayEvent::Add(id.to_string(), ItemDescriptor { info, menu_path: None })
}

fn note(id: &str, state: Option<TrayItemInfo>) -> Notification {
    Notification { id: id.to_string(), item: state }
}

fn same_items(view: &TrayView, store: &IdMap<TrayItemInfo>) -> bool {
    let cached = view.items();
    if cached.len() != store.len() {
        return false;
    }
    for i in 0..store.len() {
        if cached.get(store.key_at(i)) != Some(store.value_at(i)) {
            return false;
        }
    }
    true
}

/// Receives until the channel is empty or closed; returns how many
/// notifications and how many gaps were seen.
fn drain(
    view: &mut TrayView,
    rx: &mut Receiver<Notification>,
    backend: &TrayBackend,
) -> (usize, usize) {
    let mut received = 0;
    let mut gaps = 0;
    loop {
        match rx.try_recv() {
            Ok(n) => {
                received += 1;
                let _ = view.on_delivery(Delivery::Received(n));
            }
            Err(TryRecvError::Lagged(skipped)) => {
                gaps += 1;
                assert_eq!(view.on_delivery(Delivery::Lagged(skipped)), None);
                assert_eq!(view.phase(), SubscriberPhase::Lagged);
                let _ = view.reconcile(backend.items());
                assert_eq!(view.phase(), SubscriberPhase::Streaming);
                assert!(same_items(view, backend.items()));
            }
            Err(TryRecvError::Empty) => return (received, gaps),
            Err(TryRecvError::Closed) => {
                let _ = view.on_delivery(Delivery::Closed);
                return (received, gaps);
            }
        }
    }
}

#[test]
fn stalled_consumer_sees_one_gap_and_ends_equal_to_the_store() {
    let (mut backend, _intents) =
        TrayBackend::with_capacity(16, Vec::new()).expect("sixteen is a valid bound");
    let mut fast_rx = backend.subscribe();
    let mut slow_rx = backend.subscribe();
    let (mut fast, _) = init(backend.items());
    let (mut slow, _) = init(backend.items());

    let mut fast_received = 0;
    for round in 0..50 {
        let id = format!("item{}", round % 7);
        let event = if round % 3 == 2 {
            TrayEvent::Remove(format!("item{}", (round - 2) % 7))
        } else {
            added(&id, item(&format!("icon{round}"), Status::Active))
        };
        assert_eq!(backend.ingest(event), Published::Sent(2));
        let (received, gaps) = drain(&mut fast, &mut fast_rx, &backend);
        assert_eq!(gaps, 0);
        assert_eq!(received, 1);
        fast_received += received;
        assert!(same_items(&fast, backend.items()));
    }
    assert_eq!(fast_received, 50);

    let (received, gaps) = drain(&mut slow, &mut slow_rx, &backend);
    assert_eq!(gaps, 1);
    assert_eq!(received, 16);
    assert_eq!(slow.phase(), SubscriberPhase::Streaming);
    assert!(same_items(&slow, backend.items()));
    assert!(same_items(&fast, backend.items()));
    assert!(backend.items().len() > 0);
}

#[test]
fn subscriber_without_gap_receives_every_notification_once_and_in_order() {
    let (mut backend, _intents) = TrayBackend::new(Vec::new());
    let mut rx = backend.subscribe();
    let events = vec![
        added("a", item("one", Status::Active)),
        added("b", item("two", Status::Passive)),
        TrayEvent::Update("a".to_string(), TrayUpdate::Status(Status::NeedsAttention)),
        TrayEvent::Update("ghost".to_string(), TrayUpdate::Status(Status::Active)),
        TrayEvent::Remove("b".to_string()),
        TrayEvent::Remove("b".to_string()),
    ];
    for event in events {
        let _ = backend.ingest(event);
    }
    let mut seen = Vec::new();
    while let Ok(n) = rx.try_recv() {
        seen.push(n);
    }
    assert_eq!(
        seen,
        vec![
            note("a", Some(item("one", Status::Active))),
            note("b", Some(item("two", Status::Passive))),
            note("a", Some(item("one", Status::NeedsAttention))),
            note("b", None),
        ]
    );
}

#[test]
fn view_that_takes_in_every_notification_equals_the_store() {
    let (mut backend, _intents) = TrayBackend::new(vec![added("seed", item("s", Status::Active))]);
    let (mut view, _) = init(backend.items());
    let notes = backend.apply_all(vec![
        added("a", item("one", Status::Active)),
        TrayEvent::Remove("seed".to_string()),
        TrayEvent::Update(
            "a".to_string(),
            TrayUpdate::Icon { icon_name: Some("two".to_string()), icon_pixmap: None },
        ),
    ]);
    for n in notes {
        let _ = view.apply(n);
    }
    assert!(same_items(&view, backend.items()));
    assert_eq!(view.items().len(), 1);
    assert_eq!(view.items().get(&"a".to_string()), Some(&item("two", Status::Active)));
}

#[test]
fn stale_notifications_after_reconcile_do_no_lasting_harm() {
    let (mut backend, _intents) = TrayBackend::new(vec![added("a", item("v0", Status::Active))]);
    let mut view = TrayView::new();
    let seen = backend.apply_all(vec![
        TrayEvent::Update("a".to_string(), TrayUpdate::Status(Status::Passive)),
        added("b", item("b0", Status::Active)),
        TrayEvent::Remove("a".to_string()),
    ]);
    let _ = view.reconcile(backend.items());
    assert!(same_items(&view, backend.items()));
    let later = backend.apply_all(vec![
        added("c", item("c0", Status::Active)),
        TrayEvent::Remove("b".to_string()),
    ]);
    for n in seen.into_iter().chain(later) {
        let _ = view.apply(n);
    }
    assert!(same_items(&view, backend.items()));
    assert_eq!(view.items().len(), 1);
    assert_eq!(view.items().key_at(0), "c");
}

#[test]
fn reconcile_matches_identity_set_of_the_store() {
    let (backend, _intents) = TrayBackend::new(vec![
        added("keep", item("fresh", Status::Active)),
        added("new", item("n", Status::NeedsAttention)),
    ]);
    let mut view = TrayView::new();
    let _ = view.apply(note("gone-1", Some(item("x", Status::Active))));
    let _ = view.apply(note("keep", Some(item("stale", Status::Passive))));
    let _ = view.apply(note("gone-2", Some(item("y", Status::Active))));
    let _ = view.on_delivery(Delivery::Lagged(3));

    let changes = view.reconcile(backend.items());
    assert_eq!(
        changes,
        vec![
            ViewChange::Removed("gone-1".to_string()),
            ViewChange::Removed("gone-2".to_string()),
            ViewChange::Updated("keep".to_string()),
            ViewChange::Created("new".to_string()),
        ]
    );
    assert_eq!(view.items().len(), 2);
    assert_eq!(view.items().key_at(0), "keep");
    assert_eq!(view.items().key_at(1), "new");
    assert_eq!(view.items().get(&"keep".to_string()), Some(&item("fresh", Status::Active)));
    assert_eq!(view.items().get(&"gone-1".to_string()), None);
    assert_eq!(view.phase(), SubscriberPhase::Streaming);
}

#[test]
fn reconcile_leaves_up_to_date_items_alone() {
    let (backend, _intents) = TrayBackend::new(vec![
        added("same", item("s", Status::Active)),
        added("other-status", item("o", Status::Active)),
        added("other-icon", item("new", Status::Passive)),
    ]);
    let mut view = TrayView::new();
    let _ = view.apply(note("other-icon", Some(item("old", Status::Passive))));
    let _ = view.apply(note("same", Some(item("s", Status::Active))));
    let _ = view.apply(note("other-status", Some(item("o", Status::NeedsAttention))));

    assert_eq!(
        view.reconcile(backend.items()),
        vec![
            ViewChange::Updated("other-status".to_string()),
            ViewChange::Updated("other-icon".to_string()),
        ]
    );
    assert!(same_items(&view, backend.items()));
    assert_eq!(view.items().key_at(0), "other-icon");
    assert_eq!(view.items().key_at(1), "same");
    assert_eq!(view.items().key_at(2), "other-status");
    assert_eq!(view.reconcile(backend.items()), Vec::<ViewChange>::new());
}

#[test]
fn reconcile_against_empty_store_removes_everything() {
    let (backend, _intents) = TrayBackend::new(Vec::new());
    let mut view = TrayView::new();
    let _ = view.apply(note("a", Some(item("x", Status::Active))));
    let _ = view.apply(note("b", Some(item("y", Status::Active))));
    assert_eq!(
        view.reconcile(backend.items()),
        vec![ViewChange::Removed("a".to_string()), ViewChange::Removed("b".to_string())]
    );
    assert_eq!(view.items().len(), 0);
}

#[test]
fn init_creates_every_stored_item_in_store_order() {
    let (backend, _intents) = TrayBackend::new(vec![
        added("z", item("1", Status::Active)),
        added("a", item("2", Status::Passive)),
    ]);
    let (view, changes) = init(backend.items());
    assert_eq!(
        changes,
        vec![ViewChange::Created("z".to_string()), ViewChange::Created("a".to_string())]
    );
    assert_eq!(view.phase(), SubscriberPhase::Streaming);
    assert!(same_items(&view, backend.items()));
}

#[test]
fn notification_creates_updates_and_removes() {
    let mut view = TrayView::new();
    assert_eq!(
        view.apply(note("a", Some(item("x", Status::Active)))),
        Some(ViewChange::Created("a".to_string()))
    );
    assert_eq!(
        view.apply(note("a", Some(item("y", Status::Passive)))),
        Some(ViewChange::Updated("a".to_string()))
    );
    assert_eq!(view.items().get(&"a".to_string()), Some(&item("y", Status::Passive)));
    assert_eq!(view.apply(note("a", None)), Some(ViewChange::Removed("a".to_string())));
    assert_eq!(view.apply(note("a", None)), None);
    assert_eq!(view.items().len(), 0);
}

#[test]
fn deliveries_keep_the_order_of_the_view() {
    let mut view = TrayView::new();
    let _ = view.apply(note("b", Some(item("1", Status::Active))));
    let _ = view.apply(note("a", Some(item("2", Status::Active))));
    let _ = view.apply(note("c", Some(item("3", Status::Active))));
    let order = |v: &TrayView| -> Vec<String> {
        (0..v.items().len()).map(|i| v.items().key_at(i).clone()).collect()
    };
    assert_eq!(order(&view), ["b", "a", "c"]);
    let _ = view.on_delivery(Delivery::Received(note("a", Some(item("4", Status::Passive)))));
    assert_eq!(order(&view), ["b", "a", "c"]);
    let _ = view.on_delivery(Delivery::Received(note("zz", None)));
    assert_eq!(order(&view), ["b", "a", "c"]);
    let _ = view.on_delivery(Delivery::Lagged(2));
    assert_eq!(order(&view), ["b", "a", "c"]);
    let _ = view.on_delivery(Delivery::Received(note("b", None)));
    assert_eq!(order(&view), ["a", "c"]);
    let _ = view.on_delivery(Delivery::Received(note("b", Some(item("5", Status::Active)))));
    assert_eq!(order(&view), ["a", "c", "b"]);
    let _ = view.on_delivery(Delivery::Closed);
    assert_eq!(order(&view), ["a", "c", "b"]);
    let _ = view.on_delivery(Delivery::Received(note("a", None)));
    assert_eq!(order(&view), ["a", "c", "b"]);
}

#[test]
fn closed_subscriber_keeps_its_last_state() {
    let mut view = TrayView::new();
    let _ = view.on_delivery(Delivery::Received(note("a", Some(item("x", Status::Active)))));
    assert_eq!(view.on_delivery(Delivery::Closed), None);
    assert_eq!(view.phase(), SubscriberPhase::Closed);
    assert_eq!(
        view.on_delivery(Delivery::Received(note("b", Some(item("y", Status::Active))))),
        None
    );
    assert_eq!(view.on_delivery(Delivery::Lagged(1)), None);
    assert_eq!(view.phase(), SubscriberPhase::Closed);
    assert_eq!(view.items().len(), 1);
    assert_eq!(view.items().get(&"a".to_string()), Some(&item("x", Status::Active)));
}

#[test]
fn lagged_subscriber_streams_again_after_reconcile() {
    let (backend, _intents) = TrayBackend::new(vec![added("a", item("x", Status::Active))]);
    let mut view = TrayView::new();
    assert_eq!(view.phase(), SubscriberPhase::Streaming);
    assert_eq!(view.on_delivery(Delivery::Lagged(9)), None);
    assert_eq!(view.phase(), SubscriberPhase::Lagged);
    assert_eq!(view.items().len(), 0);
    assert_eq!(
        view.on_delivery(Delivery::Received(note("b", Some(item("y", Status::Active))))),
        Some(ViewChange::Created("b".to_string()))
    );
    assert_eq!(view.phase(), SubscriberPhase::Lagged);
    let _ = view.reconcile(backend.items());
    assert_eq!(view.phase(), SubscriberPhase::Streaming);
    assert!(same_items(&view, backend.items()));
}

#[test]
fn reconcile_does_not_reopen_a_closed_subscriber() {
    let (backend, _intents) = TrayBackend::new(vec![added("a", item("x", Status::Active))]);
    let mut view = TrayView::new();
    let _ = view.on_delivery(Delivery::Closed);
    let _ = view.reconcile(backend.items());
    assert_eq!(view.phase(), SubscriberPhase::Closed);
    assert!(same_items(&view, backend.items()));
}
