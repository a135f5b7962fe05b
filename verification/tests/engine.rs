use tokio::sync::broadcast::error::TryRecvError;
use vibebar::tray::backend::{Published, TrayBackend, NOTIFICATION_CAPACITY};
use vibebar::tray::event::{ItemDescriptor, Notification, TrayEvent, TrayUpdate};
use vibebar::tray::item::{IconPixmap, Status, TrayItemInfo};
use vibebar::tray::menu::{MenuKind, MenuNode, MenuState};
use vibebar::tray::router::{ActivateCall, TrayAction};

fn named(icon: &str, status: Status) -> TrayItemInfo {
    TrayItemInfo {
        icon_name: Some(icon.to_string()),
        icon_theme_path: None,
        icon_pixmap: None,
        status,
    }
}

fn add(id: &str, info: TrayItemInfo) -> TrayEvent {
    TrayEvent::Add(id.to_string(), ItemDescriptor { info, menu_path: None })
}

fn add_with_menu(id: &str, info: TrayItemInfo, path: &str) -> TrayEvent {
    TrayEvent::Add(id.to_string(), ItemDescriptor { info, menu_path: Some(path.to_string()) })
}

fn update(id: &str, change: TrayUpdate) -> TrayEvent {
    TrayEvent::Update(id.to_string(), change)
}

fn remove(id: &str) -> TrayEvent {
    TrayEvent::Remove(id.to_string())
}

fn leaf(id: i32, label: &str) -> MenuNode {
    MenuNode {
        id,
        kind: MenuKind::Normal,
        label: Some(label.to_string()),
        enabled: true,
        visible: true,
        children: Vec::new(),
    }
}

fn pixmap(width: i32, fill: u8) -> IconPixmap {
    IconPixmap { width, height: width, pixels: vec![fill; 8] }
}

fn stored(backend: &TrayBackend, id: &str) -> Option<TrayItemInfo> {
    backend.items().get(&id.to_string()).cloned()
}

#[test]
fn add_update_remove_publishes_three_notifications_in_order() {
    let (mut backend, _intents) = TrayBackend::new(Vec::new());
    let mut rx = backend.subscribe();

    assert_eq!(backend.ingest(add("a", named("foo", Status::Active))), Published::Sent(1));
    assert_eq!(
        backend.ingest(update("a", TrayUpdate::Status(Status::NeedsAttention))),
        Published::Sent(1)
    );
    assert_eq!(backend.ingest(remove("a")), Published::Sent(1));

    assert_eq!(
        rx.try_recv(),
        Ok(Notification { id: "a".to_string(), item: Some(named("foo", Status::Active)) })
    );
    assert_eq!(
        rx.try_recv(),
        Ok(Notification {
            id: "a".to_string(),
            item: Some(named("foo", Status::NeedsAttention))
        })
    );
    assert_eq!(rx.try_recv(), Ok(Notification { id: "a".to_string(), item: None }));
    assert_eq!(rx.try_recv(), Err(TryRecvError::Empty));
    assert_eq!(backend.items().len(), 0);
    assert_eq!(backend.snapshot_items().len(), 0);
}

#[test]
fn apply_all_returns_the_same_notifications_without_publishing() {
    let (mut backend, _intents) = TrayBackend::new(Vec::new());
    let mut rx = backend.subscribe();
    let notes = backend.apply_all(vec![
        add("a", named("foo", Status::Active)),
        update("a", TrayUpdate::Status(Status::NeedsAttention)),
        remove("a"),
    ]);
    assert_eq!(
        notes,
        vec![
            Notification { id: "a".to_string(), item: Some(named("foo", Status::Active)) },
            Notification {
                id: "a".to_string(),
                item: Some(named("foo", Status::NeedsAttention))
            },
            Notification { id: "a".to_string(), item: None },
        ]
    );
    assert_eq!(rx.try_recv(), Err(TryRecvError::Empty));
    assert_eq!(backend.items().len(), 0);
}

#[test]
fn ingest_all_publishes_each_due_notification_in_order() {
    let (mut backend, _intents) = TrayBackend::new(Vec::new());
    let mut rx = backend.subscribe();
    let due = backend.ingest_all(vec![
        add("a", named("foo", Status::Active)),
        update("missing", TrayUpdate::Status(Status::Active)),
        update("a", TrayUpdate::Menu(Vec::new())),
        update("a", TrayUpdate::Status(Status::Passive)),
        remove("a"),
        remove("a"),
    ]);
    assert_eq!(due, 3);
    assert_eq!(
        rx.try_recv(),
        Ok(Notification { id: "a".to_string(), item: Some(named("foo", Status::Active)) })
    );
    assert_eq!(
        rx.try_recv(),
        Ok(Notification { id: "a".to_string(), item: Some(named("foo", Status::Passive)) })
    );
    assert_eq!(rx.try_recv(), Ok(Notification { id: "a".to_string(), item: None }));
    assert_eq!(rx.try_recv(), Err(TryRecvError::Empty));
    assert_eq!(backend.ingest_all(Vec::new()), 0);
}

#[test]
fn batch_and_single_steps_converge_on_the_same_store() {
    let events = || {
        vec![
            add("a", named("one", Status::Passive)),
            add("b", named("two", Status::Active)),
            update("a", TrayUpdate::Status(Status::Active)),
            remove("b"),
            update("b", TrayUpdate::Status(Status::NeedsAttention)),
            add("c", named("three", Status::NeedsAttention)),
            update(
                "c",
                TrayUpdate::Icon { icon_name: Some("four".to_string()), icon_pixmap: None },
            ),
            remove("zz"),
        ]
    };
    let (mut batch, _q1) = TrayBackend::new(Vec::new());
    let _ = batch.apply_all(events());
    let (mut single, _q2) = TrayBackend::new(Vec::new());
    for event in events() {
        let _ = single.ingest(event);
    }
    let (seeded, _q3) = TrayBackend::new(events());
    let (mut looped, _q4) = TrayBackend::new(Vec::new());
    assert_eq!(looped.ingest_all(events()), 6);

    for backend in [&batch, &single, &seeded, &looped] {
        assert_eq!(backend.items().len(), 2);
        assert_eq!(stored(backend, "a"), Some(named("one", Status::Active)));
        assert_eq!(stored(backend, "b"), None);
        assert_eq!(stored(backend, "c"), Some(named("four", Status::NeedsAttention)));
    }
}

#[test]
fn seeding_publishes_nothing_and_keeps_insertion_order() {
    let (backend, _intents) = TrayBackend::new(vec![
        add("b", named("two", Status::Active)),
        add("a", named("one", Status::Passive)),
        update("b", TrayUpdate::Status(Status::Passive)),
    ]);
    let mut rx = backend.subscribe();
    assert_eq!(rx.try_recv(), Err(TryRecvError::Empty));
    let copy = backend.snapshot_items();
    assert_eq!(copy.len(), 2);
    assert_eq!(copy.key_at(0), "b");
    assert_eq!(copy.key_at(1), "a");
    assert_eq!(copy.value_at(0), &named("two", Status::Passive));
    assert_eq!(copy.value_at(1), &named("one", Status::Passive));
}

#[test]
fn remove_of_unpublished_identity_is_a_no_op() {
    let (mut backend, _intents) = TrayBackend::new(vec![add("a", named("foo", Status::Active))]);
    let mut rx = backend.subscribe();
    assert_eq!(backend.ingest(remove("ghost")), Published::Nothing);
    assert_eq!(backend.apply(remove("ghost")), None);
    assert_eq!(rx.try_recv(), Err(TryRecvError::Empty));
    assert_eq!(backend.items().len(), 1);
    assert_eq!(stored(&backend, "a"), Some(named("foo", Status::Active)));
}

#[test]
fn remove_drops_a_menu_that_has_no_item_and_tells_nobody() {
    let (mut backend, _intents) = TrayBackend::new(Vec::new());
    let mut rx = backend.subscribe();
    assert_eq!(
        backend.ingest(update("x", TrayUpdate::MenuPath("/m".to_string()))),
        Published::Nothing
    );
    assert!(backend.get_menu("x").is_some());
    assert_eq!(backend.ingest(remove("x")), Published::Nothing);
    assert_eq!(backend.get_menu("x"), None);
    assert_eq!(rx.try_recv(), Err(TryRecvError::Empty));
}

#[test]
fn remove_deletes_item_and_menu_together() {
    let (mut backend, _intents) =
        TrayBackend::new(vec![add_with_menu("a", named("foo", Status::Active), "/menu")]);
    assert!(backend.get_menu("a").is_some());
    assert_eq!(
        backend.apply(remove("a")),
        Some(Notification { id: "a".to_string(), item: None })
    );
    assert_eq!(backend.items().len(), 0);
    assert_eq!(backend.get_menu("a"), None);
}

#[test]
fn status_of_unknown_identity_is_ignored() {
    let (mut backend, _intents) = TrayBackend::new(Vec::new());
    let mut rx = backend.subscribe();
    assert_eq!(
        backend.ingest(update("nobody", TrayUpdate::Status(Status::Active))),
        Published::Nothing
    );
    assert_eq!(
        backend.ingest(update(
            "nobody",
            TrayUpdate::Icon { icon_name: Some("x".to_string()), icon_pixmap: None }
        )),
        Published::Nothing
    );
    assert_eq!(backend.ingest(update("nobody", TrayUpdate::Other)), Published::Nothing);
    assert_eq!(backend.items().len(), 0);
    assert_eq!(rx.try_recv(), Err(TryRecvError::Empty));
}

#[test]
fn untracked_update_of_published_item_changes_nothing() {
    let (mut backend, _intents) = TrayBackend::new(vec![add("a", named("foo", Status::Active))]);
    assert_eq!(backend.apply(update("a", TrayUpdate::Other)), None);
    assert_eq!(stored(&backend, "a"), Some(named("foo", Status::Active)));
}

#[test]
fn icon_name_alone_leaves_pixmap_untouched() {
    let start = TrayItemInfo {
        icon_name: Some("old".to_string()),
        icon_theme_path: Some("/icons".to_string()),
        icon_pixmap: Some(vec![pixmap(2, 7)]),
        status: Status::Active,
    };
    let (mut backend, _intents) = TrayBackend::new(vec![add("a", start)]);
    let note = backend.apply(update(
        "a",
        TrayUpdate::Icon { icon_name: Some("new".to_string()), icon_pixmap: None },
    ));
    let expected = TrayItemInfo {
        icon_name: Some("new".to_string()),
        icon_theme_path: Some("/icons".to_string()),
        icon_pixmap: Some(vec![pixmap(2, 7)]),
        status: Status::Active,
    };
    assert_eq!(note, Some(Notification { id: "a".to_string(), item: Some(expected.clone()) }));
    assert_eq!(stored(&backend, "a"), Some(expected));
}

#[test]
fn icon_pixmap_alone_leaves_name_untouched() {
    let start = TrayItemInfo {
        icon_name: Some("old".to_string()),
        icon_theme_path: None,
        icon_pixmap: Some(vec![pixmap(2, 7)]),
        status: Status::Passive,
    };
    let (mut backend, _intents) = TrayBackend::new(vec![add("a", start)]);
    let note = backend.apply(update(
        "a",
        TrayUpdate::Icon { icon_name: None, icon_pixmap: Some(vec![pixmap(4, 9), pixmap(1, 1)]) },
    ));
    let expected = TrayItemInfo {
        icon_name: Some("old".to_string()),
        icon_theme_path: None,
        icon_pixmap: Some(vec![pixmap(4, 9), pixmap(1, 1)]),
        status: Status::Passive,
    };
    assert_eq!(note, Some(Notification { id: "a".to_string(), item: Some(expected.clone()) }));
    assert_eq!(stored(&backend, "a"), Some(expected));
}

#[test]
fn icon_change_with_no_field_still_publishes_the_snapshot() {
    let (mut backend, _intents) = TrayBackend::new(vec![add("a", named("foo", Status::Active))]);
    let note =
        backend.apply(update("a", TrayUpdate::Icon { icon_name: None, icon_pixmap: None }));
    assert_eq!(
        note,
        Some(Notification { id: "a".to_string(), item: Some(named("foo", Status::Active)) })
    );
}

#[test]
fn add_replaces_a_published_item() {
    let (mut backend, _intents) = TrayBackend::new(vec![
        add("a", named("foo", Status::Active)),
        add("b", named("bar", Status::Active)),
    ]);
    let note = backend.apply(add("a", named("baz", Status::Passive)));
    assert_eq!(
        note,
        Some(Notification { id: "a".to_string(), item: Some(named("baz", Status::Passive)) })
    );
    assert_eq!(backend.items().len(), 2);
    assert_eq!(backend.items().key_at(0), "a");
    assert_eq!(stored(&backend, "a"), Some(named("baz", Status::Passive)));
}

#[test]
fn add_with_menu_locator_creates_menu_state_without_tree() {
    let (backend, _intents) =
        TrayBackend::new(vec![add_with_menu("a", named("foo", Status::Active), "/MenuBar")]);
    assert_eq!(
        backend.get_menu("a"),
        Some(MenuState { menu_path: "/MenuBar".to_string(), menu: None })
    );
    assert_eq!(backend.open_menu("a"), None);
}

#[test]
fn add_without_menu_locator_creates_no_menu_state() {
    let (backend, _intents) = TrayBackend::new(vec![add("a", named("foo", Status::Active))]);
    assert_eq!(backend.get_menu("a"), None);
    assert_eq!(backend.open_menu("a"), None);
}

#[test]
fn second_add_with_menu_forgets_the_cached_tree() {
    let (backend, _intents) = TrayBackend::new(vec![
        add_with_menu("a", named("foo", Status::Active), "/one"),
        update("a", TrayUpdate::Menu(vec![leaf(1, "Quit")])),
        add_with_menu("a", named("foo", Status::Active), "/two"),
    ]);
    assert_eq!(
        backend.get_menu("a"),
        Some(MenuState { menu_path: "/two".to_string(), menu: None })
    );
}

#[test]
fn second_add_without_menu_keeps_the_menu_state() {
    let (backend, _intents) = TrayBackend::new(vec![
        add_with_menu("a", named("foo", Status::Active), "/one"),
        update("a", TrayUpdate::Menu(vec![leaf(1, "Quit")])),
        add("a", named("bar", Status::Active)),
    ]);
    assert_eq!(
        backend.get_menu("a"),
        Some(MenuState { menu_path: "/one".to_string(), menu: Some(vec![leaf(1, "Quit")]) })
    );
}

#[test]
fn menu_tree_is_stored_and_not_announced() {
    let (mut backend, _intents) =
        TrayBackend::new(vec![add_with_menu("a", named("foo", Status::Active), "/menu")]);
    let mut rx = backend.subscribe();
    let tree = || {
        vec![
            leaf(1, "Open"),
            MenuNode {
                id: 2,
                kind: MenuKind::Normal,
                label: Some("More".to_string()),
                enabled: true,
                visible: true,
                children: vec![leaf(3, "Deep")],
            },
        ]
    };
    assert_eq!(backend.ingest(update("a", TrayUpdate::Menu(tree()))), Published::Nothing);
    assert_eq!(rx.try_recv(), Err(TryRecvError::Empty));
    assert_eq!(
        backend.get_menu("a"),
        Some(MenuState { menu_path: "/menu".to_string(), menu: Some(tree()) })
    );
    assert_eq!(backend.open_menu("a"), Some(("/menu".to_string(), tree())));
}

#[test]
fn empty_menu_tree_is_known_and_empty() {
    let (backend, _intents) = TrayBackend::new(vec![
        add_with_menu("a", named("foo", Status::Active), "/menu"),
        update("a", TrayUpdate::Menu(Vec::new())),
    ]);
    assert_eq!(backend.open_menu("a"), Some(("/menu".to_string(), Vec::new())));
}

#[test]
fn menu_tree_for_identity_without_menu_state_is_dropped() {
    let (mut backend, _intents) = TrayBackend::new(vec![add("a", named("foo", Status::Active))]);
    assert_eq!(backend.apply(update("a", TrayUpdate::Menu(vec![leaf(1, "Quit")]))), None);
    assert_eq!(backend.get_menu("a"), None);
}

#[test]
fn menu_path_change_keeps_the_cached_tree() {
    let (mut backend, _intents) = TrayBackend::new(vec![
        add_with_menu("a", named("foo", Status::Active), "/one"),
        update("a", TrayUpdate::Menu(vec![leaf(1, "Quit")])),
    ]);
    assert_eq!(backend.apply(update("a", TrayUpdate::MenuPath("/two".to_string()))), None);
    assert_eq!(
        backend.get_menu("a"),
        Some(MenuState { menu_path: "/two".to_string(), menu: Some(vec![leaf(1, "Quit")]) })
    );
}

#[test]
fn menu_path_change_creates_missing_menu_state() {
    let (mut backend, _intents) = TrayBackend::new(vec![add("a", named("foo", Status::Active))]);
    assert_eq!(backend.apply(update("a", TrayUpdate::MenuPath("/late".to_string()))), None);
    assert_eq!(
        backend.get_menu("a"),
        Some(MenuState { menu_path: "/late".to_string(), menu: None })
    );
}

#[test]
fn notification_is_dropped_when_nobody_subscribed() {
    let (mut backend, _intents) = TrayBackend::new(Vec::new());
    assert_eq!(backend.ingest(add("a", named("foo", Status::Active))), Published::Dropped);
    assert_eq!(stored(&backend, "a"), Some(named("foo", Status::Active)));
}

#[test]
fn ingest_reports_how_many_subscribers_were_reached() {
    let (mut backend, _intents) = TrayBackend::new(Vec::new());
    let mut first = backend.subscribe();
    let mut second = backend.subscribe();
    assert_eq!(backend.ingest(add("a", named("foo", Status::Active))), Published::Sent(2));
    let expected = Notification { id: "a".to_string(), item: Some(named("foo", Status::Active)) };
    assert_eq!(first.try_recv(), Ok(expected.clone()));
    assert_eq!(second.try_recv(), Ok(expected));
    drop(second);
    assert_eq!(backend.ingest(remove("a")), Published::Sent(1));
}

#[test]
fn subscription_sees_only_what_is_published_after_it() {
    let (mut backend, _intents) = TrayBackend::new(Vec::new());
    let _keep = backend.subscribe();
    let _ = backend.ingest(add("a", named("foo", Status::Active)));
    let mut late = backend.subscribe();
    assert_eq!(late.try_recv(), Err(TryRecvError::Empty));
    let _ = backend.ingest(remove("a"));
    assert_eq!(late.try_recv(), Ok(Notification { id: "a".to_string(), item: None }));
}

#[test]
fn channel_closes_when_the_engine_is_dropped() {
    let (backend, _intents) = TrayBackend::new(Vec::new());
    let mut rx = backend.subscribe();
    drop(backend);
    assert_eq!(rx.try_recv(), Err(TryRecvError::Closed));
}

#[test]
fn default_channel_retains_the_stated_capacity() {
    assert_eq!(NOTIFICATION_CAPACITY, 128);
    let (mut backend, _intents) = TrayBackend::new(Vec::new());
    let mut rx = backend.subscribe();
    for i in 0..128 {
        let _ = backend.ingest(add(&format!("item{i}"), named("x", Status::Active)));
    }
    assert!(matches!(rx.try_recv(), Ok(Notification { .. })));
    let _ = backend.ingest(add("one-more", named("x", Status::Active)));
    let _ = backend.ingest(add("and-another", named("x", Status::Active)));
    assert!(matches!(rx.try_recv(), Err(TryRecvError::Lagged(_))));
}

#[test]
fn with_capacity_rejects_zero_and_oversized_bounds() {
    assert!(TrayBackend::with_capacity(0, Vec::new()).is_none());
    assert!(TrayBackend::with_capacity(usize::MAX / 2 + 1, Vec::new()).is_none());
    assert!(TrayBackend::with_capacity(usize::MAX, Vec::new()).is_none());
    let built = TrayBackend::with_capacity(1, vec![add("a", named("foo", Status::Active))]);
    let (backend, _intents) = built.expect("a capacity of one is served");
    assert_eq!(backend.items().len(), 1);
}

fn shareable<T: Send + Sync>(_: &T) {}

#[test]
fn engine_behind_a_lock_can_be_shared_between_tasks() {
    let (backend, intents) = TrayBackend::new(vec![add("a", named("foo", Status::Active))]);
    let rx = backend.subscribe();
    let shared = std::sync::Arc::new(std::sync::Mutex::new(backend));
    shareable(&shared);
    shareable(&rx);
    shareable(&intents);
    let writer = shared.clone();
    assert_eq!(writer.lock().unwrap().ingest(remove("a")), Published::Sent(1));
    assert_eq!(shared.lock().unwrap().items().len(), 0);
    let intent = TrayAction::Activate { id: "a".to_string(), x: 0, y: 0 };
    assert_eq!(shared.lock().unwrap().submit_intent(intent), Ok(()));
}

#[test]
fn submitting_an_intent_leaves_the_replica_alone() {
    let (mut backend, mut intents) =
        TrayBackend::new(vec![add_with_menu("a", named("foo", Status::Active), "/menu")]);
    let mut rx = backend.subscribe();
    let intent = TrayAction::MenuAction {
        id: "a".to_string(),
        menu_path: "/menu".to_string(),
        item_id: 3,
    };
    assert_eq!(backend.submit_intent(intent.clone()), Ok(()));
    assert_eq!(intents.try_recv().ok(), Some(intent));
    assert_eq!(rx.try_recv(), Err(TryRecvError::Empty));
    assert_eq!(backend.items().len(), 1);
    assert_eq!(stored(&backend, "a"), Some(named("foo", Status::Active)));
    assert!(backend.get_menu("a").is_some());
}

#[test]
fn intents_are_drained_in_submission_order() {
    let (mut backend, mut intents) = TrayBackend::new(Vec::new());
    let first = TrayAction::Activate { id: "a".to_string(), x: 10, y: 20 };
    let second = TrayAction::MenuAction {
        id: "a".to_string(),
        menu_path: "/menu".to_string(),
        item_id: 7,
    };
    let third = TrayAction::Activate { id: "gone".to_string(), x: -1, y: 0 };
    assert_eq!(backend.submit_intent(first.clone()), Ok(()));
    assert_eq!(backend.submit_intent(second.clone()), Ok(()));
    assert_eq!(backend.submit_intent(third.clone()), Ok(()));
    assert_eq!(intents.try_recv().ok(), Some(first));
    assert_eq!(intents.try_recv().ok(), Some(second));
    assert_eq!(intents.try_recv().ok(), Some(third));
    assert!(intents.try_recv().is_err());
}

#[test]
fn intent_comes_back_when_the_drain_is_gone() {
    let (mut backend, intents) = TrayBackend::new(Vec::new());
    drop(intents);
    let intent = TrayAction::Activate { id: "a".to_string(), x: 1, y: 2 };
    assert_eq!(backend.submit_intent(intent.clone()), Err(intent));
}

#[test]
fn intent_turns_into_the_matching_protocol_call() {
    let activate = TrayAction::Activate { id: "a".to_string(), x: 3, y: -4 };
    assert_eq!(
        activate.into_call(),
        ActivateCall::Default { address: "a".to_string(), x: 3, y: -4 }
    );
    let menu = TrayAction::MenuAction {
        id: "b".to_string(),
        menu_path: "/MenuBar".to_string(),
        item_id: 42,
    };
    assert_eq!(
        menu.into_call(),
        ActivateCall::MenuItem {
            address: "b".to_string(),
            menu_path: "/MenuBar".to_string(),
            submenu_id: 42
        }
    );
}
