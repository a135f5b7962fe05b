use vibebar::tray::item::{IconPixmap, ReportedStatus, Status, TrayItemInfo};
use vibebar::tray::menu::{menu_rows, MenuKind, MenuNode, MenuRow, Toggle};
use vibebar::tray::render::{
    argb_to_rgba, choose_icon, is_visible, search_path_to_add, widest, IconSource,
};
use vibebar::tray::router::TrayAction;

fn image(width: i32, height: i32, pixels: Vec<u8>) -> IconPixmap {
    IconPixmap { width, height, pixels }
}

fn node(id: i32, kind: MenuKind, label: Option<&str>, visible: bool, enabled: bool) -> MenuNode {
    MenuNode {
        id,
        kind,
        label: label.map(|l| l.to_string()),
        enabled,
        visible,
        children: Vec::new(),
    }
}

#[test]
fn undefined_status_counts_as_passive() {
    assert_eq!(Status::of(ReportedStatus::Unknown), Status::Passive);
    assert_eq!(Status::of(ReportedStatus::Passive), Status::Passive);
    assert_eq!(Status::of(ReportedStatus::Active), Status::Active);
    assert_eq!(Status::of(ReportedStatus::NeedsAttention), Status::NeedsAttention);
    assert!(!is_visible(Status::of(ReportedStatus::Unknown)));
}

#[test]
fn separator_goes_before_the_toggle() {
    assert_eq!(MenuKind::of(true, Toggle::Checkmark), MenuKind::Separator);
    assert_eq!(MenuKind::of(true, Toggle::Radio), MenuKind::Separator);
    assert_eq!(MenuKind::of(true, Toggle::CannotBeToggled), MenuKind::Separator);
    assert_eq!(MenuKind::of(false, Toggle::Checkmark), MenuKind::Checkbox);
    assert_eq!(MenuKind::of(false, Toggle::Radio), MenuKind::Radio);
    assert_eq!(MenuKind::of(false, Toggle::CannotBeToggled), MenuKind::Normal);
}

#[test]
fn passive_items_are_hidden() {
    assert!(!is_visible(Status::Passive));
    assert!(is_visible(Status::Active));
    assert!(is_visible(Status::NeedsAttention));
}

#[test]
fn argb_bytes_are_rotated_per_pixel() {
    assert_eq!(argb_to_rgba(&vec![0xAA, 1, 2, 3]), vec![1, 2, 3, 0xAA]);
    assert_eq!(
        argb_to_rgba(&vec![10, 11, 12, 13, 20, 21, 22, 23]),
        vec![11, 12, 13, 10, 21, 22, 23, 20]
    );
}

#[test]
fn argb_leftover_bytes_are_dropped() {
    assert_eq!(argb_to_rgba(&Vec::new()), Vec::<u8>::new());
    assert_eq!(argb_to_rgba(&vec![1, 2, 3]), Vec::<u8>::new());
    assert_eq!(argb_to_rgba(&vec![1, 2, 3, 4, 5, 6, 7]), vec![2, 3, 4, 1]);
}

#[test]
fn widest_image_wins_and_ties_go_to_the_last() {
    assert_eq!(widest(&Vec::new()), None);
    assert_eq!(widest(&vec![image(16, 16, vec![])]), Some(0));
    let images = vec![
        image(16, 16, vec![]),
        image(48, 48, vec![]),
        image(22, 22, vec![]),
        image(48, 10, vec![]),
        image(-3, 1, vec![]),
    ];
    assert_eq!(widest(&images), Some(3));
}

#[test]
fn icon_name_goes_before_images() {
    let info = TrayItemInfo {
        icon_name: Some("firefox".to_string()),
        icon_theme_path: None,
        icon_pixmap: Some(vec![image(1, 1, vec![9, 8, 7, 6])]),
        status: Status::Active,
    };
    assert_eq!(choose_icon(&info), IconSource::Named("firefox".to_string()));
}

#[test]
fn widest_image_is_converted_for_display() {
    let info = TrayItemInfo {
        icon_name: None,
        icon_theme_path: None,
        icon_pixmap: Some(vec![
            image(1, 1, vec![1, 2, 3, 4]),
            image(2, 1, vec![255, 10, 20, 30, 128, 40, 50, 60]),
        ]),
        status: Status::Active,
    };
    assert_eq!(
        choose_icon(&info),
        IconSource::Pixels { width: 2, height: 1, rgba: vec![10, 20, 30, 255, 40, 50, 60, 128] }
    );
}

#[test]
fn empty_image_list_leaves_the_picture_alone() {
    let info = TrayItemInfo {
        icon_name: None,
        icon_theme_path: None,
        icon_pixmap: Some(Vec::new()),
        status: Status::Active,
    };
    assert_eq!(choose_icon(&info), IconSource::Unchanged);
}

#[test]
fn item_without_icon_shows_the_stand_in() {
    assert_eq!(choose_icon(&TrayItemInfo::blank()), IconSource::Missing);
}

#[test]
fn theme_path_is_added_once() {
    let mut info = TrayItemInfo::blank();
    let known = vec!["/usr/share/icons".to_string(), "/opt/app/icons".to_string()];
    assert_eq!(search_path_to_add(&info, &known), None);
    info.icon_theme_path = Some("/opt/app/icons".to_string());
    assert_eq!(search_path_to_add(&info, &known), None);
    info.icon_theme_path = Some("/home/me/icons".to_string());
    assert_eq!(search_path_to_add(&info, &known), Some(&"/home/me/icons".to_string()));
    assert_eq!(search_path_to_add(&info, &Vec::new()), Some(&"/home/me/icons".to_string()));
}

#[test]
fn menu_rows_follow_delivery_order_and_skip_hidden_nodes() {
    let mut parent = node(5, MenuKind::Normal, Some("More"), true, true);
    parent.children = vec![node(6, MenuKind::Normal, Some("Deep"), true, true)];
    let mut hidden_parent = node(8, MenuKind::Normal, Some("Secret"), false, true);
    hidden_parent.children = vec![node(9, MenuKind::Normal, Some("x"), true, true)];
    let nodes = vec![
        node(3, MenuKind::Normal, Some("Open"), true, true),
        node(1, MenuKind::Normal, Some("Hidden"), false, true),
        node(4, MenuKind::Separator, None, true, true),
        parent,
        node(2, MenuKind::Checkbox, Some("Mute"), true, false),
        hidden_parent,
        node(7, MenuKind::Radio, None, true, true),
    ];
    assert_eq!(
        menu_rows(&nodes),
        vec![
            MenuRow::Action { label: Some("Open".to_string()), enabled: true, item_id: 3 },
            MenuRow::Separator,
            MenuRow::Submenu { label: Some("More".to_string()), enabled: true, position: 3 },
            MenuRow::Action { label: Some("Mute".to_string()), enabled: false, item_id: 2 },
            MenuRow::Action { label: None, enabled: true, item_id: 7 },
        ]
    );
    assert_eq!(menu_rows(&Vec::new()), Vec::<MenuRow>::new());
}

#[test]
fn separator_with_children_is_still_a_line() {
    let mut line = node(1, MenuKind::Separator, Some("odd"), true, true);
    line.children = vec![node(2, MenuKind::Normal, Some("x"), true, true)];
    assert_eq!(menu_rows(&vec![line]), vec![MenuRow::Separator]);
}

#[test]
fn only_enabled_action_rows_carry_an_intent() {
    let action = MenuRow::Action { label: Some("Quit".to_string()), enabled: true, item_id: 12 };
    assert_eq!(
        action.intent("app", "/MenuBar"),
        Some(TrayAction::MenuAction {
            id: "app".to_string(),
            menu_path: "/MenuBar".to_string(),
            item_id: 12
        })
    );
    let disabled = MenuRow::Action { label: None, enabled: false, item_id: 12 };
    assert_eq!(disabled.intent("app", "/MenuBar"), None);
    let submenu = MenuRow::Submenu { label: None, enabled: true, position: 0 };
    assert_eq!(submenu.intent("app", "/MenuBar"), None);
    assert_eq!(MenuRow::Separator.intent("app", "/MenuBar"), None);
}

#[test]
fn item_states_are_compared_field_by_field() {
    let base = TrayItemInfo {
        icon_name: Some("n".to_string()),
        icon_theme_path: Some("/p".to_string()),
        icon_pixmap: Some(vec![image(1, 2, vec![1, 2, 3, 4]), image(3, 4, vec![])]),
        status: Status::Active,
    };
    assert!(base.same_as(&base.snapshot()));
    let mut other = base.snapshot();
    other.status = Status::Passive;
    assert!(!base.same_as(&other));
    let mut other = base.snapshot();
    other.icon_name = None;
    assert!(!base.same_as(&other));
    let mut other = base.snapshot();
    other.icon_theme_path = Some("/q".to_string());
    assert!(!base.same_as(&other));
    let mut other = base.snapshot();
    other.icon_pixmap = Some(vec![image(1, 2, vec![1, 2, 3, 4])]);
    assert!(!base.same_as(&other));
    let mut other = base.snapshot();
    other.icon_pixmap = Some(vec![image(1, 2, vec![1, 2, 3, 5]), image(3, 4, vec![])]);
    assert!(!base.same_as(&other));
    let mut other = base.snapshot();
    other.icon_pixmap = Some(vec![image(1, 2, vec![1, 2, 3, 4]), image(3, 5, vec![])]);
    assert!(!base.same_as(&other));
    let mut other = base.snapshot();
    other.icon_pixmap = None;
    assert!(!base.same_as(&other));
    assert!(TrayItemInfo::blank().same_as(&TrayItemInfo::blank()));
}

#[test]
fn snapshots_are_equal_to_their_source() {
    let info = TrayItemInfo {
        icon_name: Some("n".to_string()),
        icon_theme_path: Some("/p".to_string()),
        icon_pixmap: Some(vec![image(1, 2, vec![1, 2, 3, 4, 5, 6, 7, 8])]),
        status: Status::NeedsAttention,
    };
    assert_eq!(info.snapshot(), info);
    let mut tree = node(1, MenuKind::Normal, Some("a"), true, true);
    let mut middle = node(2, MenuKind::Radio, None, false, false);
    middle.children = vec![node(3, MenuKind::Separator, None, true, true)];
    tree.children = vec![middle, node(4, MenuKind::Checkbox, Some("b"), true, false)];
    assert_eq!(tree.snapshot(), tree);
}
