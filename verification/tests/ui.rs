use map_editor::ui::{
    describe_ui, menu_bar, Menu, MenuItem, SizeCondition, UiFlags, UiInput, WindowRequest,
    EDIT_WINDOW_HEIGHT, EDIT_WINDOW_WIDTH, FONT_PIXEL_SIZE,
};

const CLOSED: UiFlags = UiFlags { edit_window_opened: false };
const OPEN: UiFlags = UiFlags { edit_window_opened: true };

fn quiet() -> UiInput {
    UiInput { activated: None, close_clicked: false }
}

fn pick(item: MenuItem) -> UiInput {
    UiInput { activated: Some(item), close_clicked: false }
}

fn edit_window() -> WindowRequest {
    WindowRequest {
        title: "EDIT",
        width: 500,
        height: 200,
        size_condition: SizeCondition::FirstUseEver,
        closable: true,
    }
}

#[test]
fn constants_match_the_layout() {
    assert_eq!(EDIT_WINDOW_WIDTH, 500);
    assert_eq!(EDIT_WINDOW_HEIGHT, 200);
    assert_eq!(FONT_PIXEL_SIZE, 20);
}

#[test]
fn menu_bar_lists_six_menus_in_order() {
    assert_eq!(
        menu_bar(),
        vec![Menu::File, Menu::Edit, Menu::View, Menu::Tools, Menu::Layer, Menu::Window]
    );
}

#[test]
fn menu_labels() {
    let labels: Vec<&str> = menu_bar().iter().map(|m| m.label()).collect();
    assert_eq!(labels, vec!["FILE", "EDIT", "VIEW", "TOOLS", "LAYER", "WINDOW"]);
}

#[test]
fn menu_entries_per_menu() {
    assert_eq!(Menu::File.items(), vec![MenuItem::Save, MenuItem::Load]);
    assert_eq!(Menu::Edit.items(), vec![MenuItem::NewMap]);
    assert_eq!(Menu::View.items(), vec![MenuItem::Config]);
    assert_eq!(Menu::Tools.items(), Vec::<MenuItem>::new());
    assert_eq!(Menu::Layer.items(), Vec::<MenuItem>::new());
    assert_eq!(Menu::Window.items(), Vec::<MenuItem>::new());
}

#[test]
fn item_labels() {
    assert_eq!(MenuItem::Save.label(), "save");
    assert_eq!(MenuItem::Load.label(), "load");
    assert_eq!(MenuItem::NewMap.label(), "new-map");
    assert_eq!(MenuItem::Config.label(), "config");
}

#[test]
fn labels_are_never_empty() {
    for menu in menu_bar() {
        assert!(!menu.label().is_empty());
        assert_ne!(menu.label().chars().next(), Some('\0'));
        for item in menu.items() {
            assert!(!item.label().is_empty());
            assert_ne!(item.label().chars().next(), Some('\0'));
        }
    }
}

#[test]
fn flags_start_closed() {
    assert_eq!(UiFlags::new(), CLOSED);
}

#[test]
fn new_map_opens_the_edit_window() {
    assert_eq!(CLOSED.after_menu(Some(MenuItem::NewMap)), OPEN);
    assert_eq!(OPEN.after_menu(Some(MenuItem::NewMap)), OPEN);
}

#[test]
fn other_entries_are_inert() {
    for item in [MenuItem::Save, MenuItem::Load, MenuItem::Config] {
        assert_eq!(CLOSED.after_menu(Some(item)), CLOSED);
        assert_eq!(OPEN.after_menu(Some(item)), OPEN);
    }
    assert_eq!(CLOSED.after_menu(None), CLOSED);
    assert_eq!(OPEN.after_menu(None), OPEN);
}

#[test]
fn closed_window_is_not_declared() {
    assert_eq!(CLOSED.edit_window(), None);
}

#[test]
fn open_window_is_declared_with_first_use_size() {
    assert_eq!(OPEN.edit_window(), Some(edit_window()));
}

#[test]
fn close_button_closes() {
    assert_eq!(OPEN.after_window(true), CLOSED);
    assert_eq!(OPEN.after_window(false), OPEN);
    assert_eq!(CLOSED.after_window(true), CLOSED);
    assert_eq!(CLOSED.after_window(false), CLOSED);
}

#[test]
fn frame_with_new_map_shows_window_at_once() {
    let frame = describe_ui(CLOSED, pick(MenuItem::NewMap));
    assert_eq!(frame.menus, menu_bar());
    assert_eq!(frame.window, Some(edit_window()));
    assert_eq!(frame.flags, OPEN);
}

#[test]
fn quiet_frame_keeps_flags() {
    let closed = describe_ui(CLOSED, quiet());
    assert_eq!(closed.window, None);
    assert_eq!(closed.flags, CLOSED);
    let open = describe_ui(OPEN, quiet());
    assert_eq!(open.window, Some(edit_window()));
    assert_eq!(open.flags, OPEN);
}

#[test]
fn closing_frame_still_shows_window_but_clears_flag() {
    let frame = describe_ui(OPEN, UiInput { activated: None, close_clicked: true });
    assert_eq!(frame.window, Some(edit_window()));
    assert_eq!(frame.flags, CLOSED);
}

#[test]
fn window_stays_open_across_other_menu_interactions() {
    let mut flags = describe_ui(CLOSED, pick(MenuItem::NewMap)).flags;
    for input in [quiet(), pick(MenuItem::Save), pick(MenuItem::Config), pick(MenuItem::Load), quiet()] {
        let frame = describe_ui(flags, input);
        assert_eq!(frame.window, Some(edit_window()));
        flags = frame.flags;
        assert!(flags.edit_window_opened);
    }
    flags = describe_ui(flags, UiInput { activated: Some(MenuItem::Save), close_clicked: true }).flags;
    assert!(!flags.edit_window_opened);
}

#[test]
fn closed_window_is_not_forced_open_again() {
    let mut flags = describe_ui(OPEN, UiInput { activated: None, close_clicked: true }).flags;
    for input in [quiet(), pick(MenuItem::Save), pick(MenuItem::Config), quiet()] {
        let frame = describe_ui(flags, input);
        assert_eq!(frame.window, None);
        flags = frame.flags;
        assert_eq!(flags, CLOSED);
    }
}

#[test]
fn every_frame_asks_for_the_first_use_size_only() {
    let mut flags = OPEN;
    for _ in 0..5 {
        let frame = describe_ui(flags, quiet());
        let window = frame.window.unwrap();
        assert_eq!((window.width, window.height), (500, 200));
        assert_eq!(window.size_condition, SizeCondition::FirstUseEver);
        assert_ne!(window.size_condition, SizeCondition::Always);
        flags = frame.flags;
    }
}
