use map_editor::menu_pass::{
    activated_entry, bar_choice, describe_frame, show_main_tab, MenuPass,
};
use map_editor::frame_loop::FrameInput;
use map_editor::ui::{MenuItem, SizeCondition, UiFlags, UiInput, WindowRequest};

const CLOSED: UiFlags = UiFlags { edit_window_opened: false };
const OPEN: UiFlags = UiFlags { edit_window_opened: true };

fn context() -> imgui::Context {
    let mut context = imgui::Context::create();
    context.set_ini_filename(None);
    context.io_mut().display_size = [1280.0, 800.0];
    context.io_mut().delta_time = 1.0 / 60.0;
    context.fonts().build_rgba32_texture();
    context
}

fn pass(context: &mut imgui::Context, mouse: [f32; 2], down: bool, flags: UiFlags) -> MenuPass {
    context.io_mut().add_mouse_pos_event(mouse);
    context.io_mut().add_mouse_button_event(imgui::MouseButton::Left, down);
    let result = {
        let ui = context.new_frame();
        describe_frame(ui, flags)
    };
    context.render();
    result
}

/// Clicks the bar at `x`, then the drop-down at height `y`, and returns what
/// got activated on the way, with the flags that came out.
fn click_through(context: &mut imgui::Context, x: f32, y: f32) -> (Option<MenuItem>, UiFlags) {
    let script = [
        ([x, 10.0], false),
        ([x, 10.0], true),
        ([x, 10.0], false),
        ([x, y], false),
        ([x, y], false),
        ([x, y], true),
        ([x, y], false),
        ([x, y], false),
        ([1000.0, 700.0], false),
        ([1000.0, 700.0], true),
        ([1000.0, 700.0], false),
        ([1000.0, 700.0], false),
    ];
    let mut activated = None;
    let mut flags = CLOSED;
    for (mouse, down) in script {
        let result = pass(context, mouse, down, flags);
        assert_eq!(result.flags.edit_window_opened, result.window.is_some());
        if result.activated.is_some() {
            assert_eq!(activated, None);
            activated = result.activated;
            assert_eq!(
                result.flags.edit_window_opened,
                result.activated == Some(MenuItem::NewMap)
            );
        } else {
            assert_eq!(result.flags, flags);
        }
        flags = result.flags;
    }
    (activated, flags)
}

#[test]
fn no_answer_activates_nothing() {
    let entries = vec![MenuItem::Save, MenuItem::Load];
    assert_eq!(activated_entry(&entries, &vec![false, false]), None);
    assert_eq!(activated_entry(&Vec::new(), &Vec::new()), None);
}

#[test]
fn answered_entry_is_activated() {
    let entries = vec![MenuItem::Save, MenuItem::Load];
    assert_eq!(activated_entry(&entries, &vec![true, false]), Some(MenuItem::Save));
    assert_eq!(activated_entry(&entries, &vec![false, true]), Some(MenuItem::Load));
    assert_eq!(activated_entry(&vec![MenuItem::NewMap], &vec![true]), Some(MenuItem::NewMap));
}

#[test]
fn last_answered_entry_wins() {
    let entries = vec![MenuItem::Save, MenuItem::Load];
    assert_eq!(activated_entry(&entries, &vec![true, true]), Some(MenuItem::Load));
}

#[test]
fn new_map_is_reported_whatever_else_was_answered() {
    let entries = vec![MenuItem::NewMap, MenuItem::Config];
    assert_eq!(activated_entry(&entries, &vec![true, true]), Some(MenuItem::NewMap));
    assert_eq!(activated_entry(&entries, &vec![true, false]), Some(MenuItem::NewMap));
    assert_eq!(activated_entry(&entries, &vec![false, true]), Some(MenuItem::Config));
    let entries = vec![MenuItem::Save, MenuItem::NewMap, MenuItem::Load];
    assert_eq!(activated_entry(&entries, &vec![true, true, true]), Some(MenuItem::NewMap));
    assert_eq!(activated_entry(&entries, &vec![true, false, true]), Some(MenuItem::Load));
}

#[test]
fn inert_entries_do_not_change_what_new_map_does() {
    let closed = UiFlags { edit_window_opened: false };
    let alone = bar_choice(&vec![None, Some(MenuItem::NewMap), None, None, None, None]);
    let with_config =
        bar_choice(&vec![None, Some(MenuItem::NewMap), Some(MenuItem::Config), None, None, None]);
    let with_both = bar_choice(&vec![
        Some(MenuItem::Load),
        Some(MenuItem::NewMap),
        Some(MenuItem::Config),
        None,
        None,
        None,
    ]);
    assert_eq!(alone, Some(MenuItem::NewMap));
    assert_eq!(with_config, Some(MenuItem::NewMap));
    assert_eq!(with_both, Some(MenuItem::NewMap));
    for choice in [alone, with_config, with_both] {
        assert!(closed.after_menu(choice).edit_window_opened);
    }
    let without =
        bar_choice(&vec![Some(MenuItem::Save), None, Some(MenuItem::Config), None, None, None]);
    assert_eq!(without, Some(MenuItem::Config));
    assert!(!closed.after_menu(without).edit_window_opened);
}

#[test]
fn answers_that_do_not_match_the_entries_activate_nothing() {
    let entries = vec![MenuItem::Save, MenuItem::Load];
    assert_eq!(activated_entry(&entries, &vec![true]), None);
    assert_eq!(activated_entry(&entries, &vec![true, true, true]), None);
    assert_eq!(activated_entry(&entries, &Vec::new()), None);
}

#[test]
fn bar_takes_the_choice_of_the_last_menu_that_made_one() {
    assert_eq!(bar_choice(&Vec::new()), None);
    assert_eq!(bar_choice(&vec![None, None, None, None, None, None]), None);
    assert_eq!(
        bar_choice(&vec![None, Some(MenuItem::NewMap), None, None, None, None]),
        Some(MenuItem::NewMap)
    );
    assert_eq!(
        bar_choice(&vec![Some(MenuItem::Save), Some(MenuItem::NewMap), None]),
        Some(MenuItem::NewMap)
    );
    assert_eq!(
        bar_choice(&vec![Some(MenuItem::Load), None, Some(MenuItem::Config), None]),
        Some(MenuItem::Config)
    );
}

#[test]
fn finished_pass_reports_the_frame() {
    let window = WindowRequest {
        title: "EDIT",
        width: 500,
        height: 200,
        size_condition: SizeCondition::FirstUseEver,
        closable: true,
    };
    let shown = MenuPass {
        escape_pressed: true,
        activated: Some(MenuItem::NewMap),
        flags: OPEN,
        window: Some(window),
    };
    assert_eq!(
        shown.finish(true),
        FrameInput {
            escape_pressed: true,
            ui: UiInput { activated: Some(MenuItem::NewMap), close_clicked: true },
        }
    );
    assert_eq!(
        shown.finish(false),
        FrameInput {
            escape_pressed: true,
            ui: UiInput { activated: Some(MenuItem::NewMap), close_clicked: false },
        }
    );
    let hidden = MenuPass {
        escape_pressed: false,
        activated: Some(MenuItem::Save),
        flags: CLOSED,
        window: None,
    };
    assert_eq!(
        hidden.finish(true),
        FrameInput {
            escape_pressed: false,
            ui: UiInput { activated: Some(MenuItem::Save), close_clicked: false },
        }
    );
}

#[test]
fn toolkit_frames() {
    let mut context = context();

    // Nothing is touched: nothing is activated, the flags stay.
    for _ in 0..3 {
        let quiet = pass(&mut context, [1000.0, 700.0], false, CLOSED);
        assert_eq!(
            quiet,
            MenuPass { escape_pressed: false, activated: None, flags: CLOSED, window: None }
        );
    }
    let open = pass(&mut context, [1000.0, 700.0], false, OPEN);
    assert_eq!(open.activated, None);
    assert_eq!(open.flags, OPEN);
    assert_eq!(
        open.window,
        Some(WindowRequest {
            title: "EDIT",
            width: 500,
            height: 200,
            size_condition: SizeCondition::FirstUseEver,
            closable: true,
        })
    );

    // The exit key is seen in the frame in which it goes down.
    context.io_mut().add_key_event(imgui::Key::Escape, true);
    let pressed = pass(&mut context, [1000.0, 700.0], false, CLOSED);
    assert!(pressed.escape_pressed);
    assert_eq!(pressed.activated, None);
    context.io_mut().add_key_event(imgui::Key::Escape, false);
    let released = pass(&mut context, [1000.0, 700.0], false, CLOSED);
    assert!(!released.escape_pressed);

    // Sweep the bar and the drop-downs with clicks and note where each entry
    // is first hit.
    let mut found: Vec<(MenuItem, i32, i32)> = Vec::new();
    for column in 0..40 {
        for row in 0..12 {
            let x = 6 + column * 4;
            let y = 22 + row * 4;
            let (activated, flags) = click_through(&mut context, x as f32, y as f32);
            assert_eq!(flags.edit_window_opened, activated == Some(MenuItem::NewMap));
            if let Some(item) = activated {
                if !found.iter().any(|(seen, _, _)| *seen == item) {
                    found.push((item, x, y));
                }
            }
        }
    }
    let place = |item: MenuItem| {
        found
            .iter()
            .find(|(seen, _, _)| *seen == item)
            .map(|(_, x, y)| (*x, *y))
            .unwrap()
    };
    let (save_x, save_y) = place(MenuItem::Save);
    let (load_x, load_y) = place(MenuItem::Load);
    let (new_map_x, _) = place(MenuItem::NewMap);
    let (config_x, _) = place(MenuItem::Config);
    assert_eq!(found.len(), 4);
    assert_eq!(save_x, load_x);
    assert!(save_y < load_y);
    assert!(save_x < new_map_x);
    assert!(new_map_x < config_x);

    // The bar alone: it opens the window on new-map and never closes it.
    let mut flags = OPEN;
    context.io_mut().add_mouse_pos_event([1000.0, 700.0]);
    let activated = {
        let ui = context.new_frame();
        show_main_tab(ui, &mut flags)
    };
    context.render();
    assert_eq!(activated, None);
    assert_eq!(flags, OPEN);
}
