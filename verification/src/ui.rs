//! The declarative description of the user interface: a menu bar and one
//! floating edit window. The description is rebuilt every frame; the only
//! thing that lives from one frame to the next is whether the edit window is
//! open.

use vstd::prelude::*;

verus! {

/// Width of the edit window when it first appears, in logical units.
pub const EDIT_WINDOW_WIDTH: u16 = 500;

/// Height of the edit window when it first appears, in logical units.
pub const EDIT_WINDOW_HEIGHT: u16 = 200;

/// Nominal pixel size of the embedded font, before any display scaling.
pub const FONT_PIXEL_SIZE: u32 = 20;

/// A top-level menu of the menu bar.
#[derive(Clone, Copy, Debug, PartialEq, Eq)]
pub enum Menu {
    File,
    Edit,
    View,
    Tools,
    Layer,
    Window,
}

/// An entry of a menu.
#[derive(Clone, Copy, Debug, PartialEq, Eq)]
pub enum MenuItem {
    Save,
    Load,
    NewMap,
    Config,
}

/// A key of the keyboard that the interface asks about.
#[derive(Clone, Copy, Debug, PartialEq, Eq)]
pub enum Key {
    Escape,
    Enter,
    Space,
    Tab,
}

/// When a requested window size is applied.
#[derive(Clone, Copy, Debug, PartialEq, Eq)]
pub enum SizeCondition {
    /// In every frame, overriding what the user did.
    Always,
    /// Only when the window has never been shown before.
    FirstUseEver,
}

/// A floating window to be declared in the current frame.
#[derive(Clone, Copy, Debug, PartialEq, Eq)]
pub struct WindowRequest {
    pub title: &'static str,
    pub width: u16,
    pub height: u16,
    pub size_condition: SizeCondition,
    /// Whether the window shows a close button.
    pub closable: bool,
}

/// The interface state that survives from frame to frame.
#[derive(Clone, Copy, Debug, PartialEq, Eq)]
pub struct UiFlags {
    pub edit_window_opened: bool,
}

/// What the user did to the interface during one frame.
#[derive(Clone, Copy, Debug, PartialEq, Eq)]
pub struct UiInput {
    /// The menu entry that was activated in this frame, if any. Should the
    /// toolkit report several, this is the new-map entry if it is among
    /// them: it is the only one with an effect.
    pub activated: Option<MenuItem>,
    /// Whether the edit window's close button was used in this frame. It has
    /// no meaning in a frame in which the window is not shown.
    pub close_clicked: bool,
}

/// The interface of one frame and the flags to carry into the next.
#[derive(Debug, PartialEq, Eq)]
pub struct UiFrame {
    pub menus: Vec<Menu>,
    pub window: Option<WindowRequest>,
    pub flags: UiFlags,
}

/// The menus of the menu bar, left to right.
pub open spec fn menu_bar_layout() -> Seq<Menu> {
    seq![Menu::File, Menu::Edit, Menu::View, Menu::Tools, Menu::Layer, Menu::Window]
}

/// The entries of a menu, top to bottom.
pub open spec fn menu_entries(menu: Menu) -> Seq<MenuItem> {
    match menu {
        Menu::File => seq![MenuItem::Save, MenuItem::Load],
        Menu::Edit => seq![MenuItem::NewMap],
        Menu::View => seq![MenuItem::Config],
        Menu::Tools => Seq::empty(),
        Menu::Layer => Seq::empty(),
        Menu::Window => Seq::empty(),
    }
}

/// The text shown for a menu.
pub open spec fn menu_label(menu: Menu) -> Seq<char> {
    match menu {
        Menu::File => "FILE"@,
        Menu::Edit => "EDIT"@,
        Menu::View => "VIEW"@,
        Menu::Tools => "TOOLS"@,
        Menu::Layer => "LAYER"@,
        Menu::Window => "WINDOW"@,
    }
}

/// The text shown for a menu entry.
pub open spec fn item_label(item: MenuItem) -> Seq<char> {
    match item {
        MenuItem::Save => "save"@,
        MenuItem::Load => "load"@,
        MenuItem::NewMap => "new-map"@,
        MenuItem::Config => "config"@,
    }
}

/// The flags after the menu bar was declared and `activated` was chosen in
/// it. Only the new-map entry has an effect: it opens the edit window.
pub open spec fn flags_after_menu(flags: UiFlags, activated: Option<MenuItem>) -> UiFlags {
    UiFlags {
        edit_window_opened: flags.edit_window_opened || activated == Some(MenuItem::NewMap),
    }
}

/// The edit window as it is declared while the flags say that it is open.
pub open spec fn edit_window_request() -> WindowRequest {
    WindowRequest {
        title: "EDIT",
        width: EDIT_WINDOW_WIDTH,
        height: EDIT_WINDOW_HEIGHT,
        size_condition: SizeCondition::FirstUseEver,
        closable: true,
    }
}

/// The window that the flags call for: the edit window while it is open,
/// nothing otherwise.
pub open spec fn window_for(flags: UiFlags) -> Option<WindowRequest> {
    if flags.edit_window_opened {
        Some(edit_window_request())
    } else {
        None
    }
}

/// The flags after the edit window was declared. A window that is not open
/// cannot be closed, and closing never opens one.
pub open spec fn flags_after_window(flags: UiFlags, close_clicked: bool) -> UiFlags {
    UiFlags { edit_window_opened: flags.edit_window_opened && !close_clicked }
}

/// The flags at the end of a frame that began with `flags` and in which the
/// user did `input`: first the menu bar takes effect, then the edit window.
pub open spec fn flags_after_frame(flags: UiFlags, input: UiInput) -> UiFlags {
    flags_after_window(flags_after_menu(flags, input.activated), input.close_clicked)
}

/// The flags after a run of frames, one input per frame, oldest first.
pub open spec fn flags_after_frames(flags: UiFlags, inputs: Seq<UiInput>) -> UiFlags
    decreases inputs.len(),
{
    if inputs.len() == 0 {
        flags
    } else {
        flags_after_frame(flags_after_frames(flags, inputs.drop_last()), inputs.last())
    }
}

impl Menu {
    /// The text shown for this menu. It is never empty and does not begin
    /// with a NUL character.
    pub fn label(&self) -> (text: &'static str)
        ensures
            text@ == menu_label(*self),
            text@.len() > 0,
            text@[0] != '\0',
    {
        proof {
            reveal_strlit("FILE");
            reveal_strlit("EDIT");
            reveal_strlit("VIEW");
            reveal_strlit("TOOLS");
            reveal_strlit("LAYER");
            reveal_strlit("WINDOW");
        }
        match self {
            Menu::File => "FILE",
            Menu::Edit => "EDIT",
            Menu::View => "VIEW",
            Menu::Tools => "TOOLS",
            Menu::Layer => "LAYER",
            Menu::Window => "WINDOW",
        }
    }

    /// The entries of this menu, top to bottom.
    pub fn items(&self) -> (entries: Vec<MenuItem>)
        ensures
            entries@ == menu_entries(*self),
    {
        let mut entries: Vec<MenuItem> = Vec::new();
        match self {
            Menu::File => {
                entries.push(MenuItem::Save);
                entries.push(MenuItem::Load);
            },
            Menu::Edit => {
                entries.push(MenuItem::NewMap);
            },
            Menu::View => {
                entries.push(MenuItem::Config);
            },
            Menu::Tools => {},
            Menu::Layer => {},
            Menu::Window => {},
        }
        assert(entries@ =~= menu_entries(*self));
        entries
    }
}

impl MenuItem {
    /// The text shown for this entry. It is never empty and does not begin
    /// with a NUL character.
    pub fn label(&self) -> (text: &'static str)
        ensures
            text@ == item_label(*self),
            text@.len() > 0,
            text@[0] != '\0',
    {
        proof {
            reveal_strlit("save");
            reveal_strlit("load");
            reveal_strlit("new-map");
            reveal_strlit("config");
        }
        match self {
            MenuItem::Save => "save",
            MenuItem::Load => "load",
            MenuItem::NewMap => "new-map",
            MenuItem::Config => "config",
        }
    }
}

/// The menus of the menu bar, left to right.
pub fn menu_bar() -> (menus: Vec<Menu>)
    ensures
        menus@ == menu_bar_layout(),
{
    let mut menus: Vec<Menu> = Vec::new();
    menus.push(Menu::File);
    menus.push(Menu::Edit);
    menus.push(Menu::View);
    menus.push(Menu::Tools);
    menus.push(Menu::Layer);
    menus.push(Menu::Window);
    assert(menus@ =~= menu_bar_layout());
    menus
}

impl UiFlags {
    /// The flags at start-up: the edit window is closed.
    pub fn new() -> (flags: UiFlags)
        ensures
            !flags.edit_window_opened,
    {
        UiFlags { edit_window_opened: false }
    }

    /// Applies what the user chose in the menu bar.
    pub fn after_menu(self, activated: Option<MenuItem>) -> (flags: UiFlags)
        ensures
            flags == flags_after_menu(self, activated),
    {
        let opens: bool = match activated {
            Some(MenuItem::NewMap) => true,
            _ => false,
        };
        UiFlags { edit_window_opened: self.edit_window_opened || opens }
    }

    /// The window to declare in this frame, if any. The requested size is only
    /// ever a first-appearance size, so a size the user gave the window is
    /// never overridden.
    pub fn edit_window(self) -> (window: Option<WindowRequest>)
        ensures
            window == window_for(self),
            window matches Some(w) ==> w.width == 500 && w.height == 200 && w.size_condition
                == SizeCondition::FirstUseEver,
    {
        if self.edit_window_opened {
            Some(
                WindowRequest {
                    title: "EDIT",
                    width: EDIT_WINDOW_WIDTH,
                    height: EDIT_WINDOW_HEIGHT,
                    size_condition: SizeCondition::FirstUseEver,
                    closable: true,
                },
            )
        } else {
            None
        }
    }

    /// Applies what the user did to the edit window's close button.
    pub fn after_window(self, close_clicked: bool) -> (flags: UiFlags)
        ensures
            flags == flags_after_window(self, close_clicked),
    {
        UiFlags { edit_window_opened: self.edit_window_opened && !close_clicked }
    }
}

/// Describes the interface of one frame from the flags of the frame before
/// and what the user did. Nothing but the returned flags is kept for the next
/// frame.
pub fn describe_ui(flags: UiFlags, input: UiInput) -> (frame: UiFrame)
    ensures
        frame.menus@ == menu_bar_layout(),
        frame.window == window_for(flags_after_menu(flags, input.activated)),
        frame.flags == flags_after_frame(flags, input),
{
    let shown: UiFlags = flags.after_menu(input.activated);
    UiFrame {
        menus: menu_bar(),
        window: shown.edit_window(),
        flags: shown.after_window(input.close_clicked),
    }
}

/// Activating the new-map entry opens the edit window, and an open window
/// stays open through any run of frames in which its close button is not
/// used, whatever else is chosen in the menus.
pub proof fn lemma_edit_window_stays_open(flags: UiFlags, inputs: Seq<UiInput>)
    requires
        flags.edit_window_opened,
        forall|i: int| 0 <= i < inputs.len() ==> !(#[trigger] inputs[i]).close_clicked,
    ensures
        flags_after_frames(flags, inputs).edit_window_opened,
        forall|before: UiFlags| #[trigger]
            flags_after_menu(before, Some(MenuItem::NewMap)).edit_window_opened,
    decreases inputs.len(),
{
    if inputs.len() > 0 {
        lemma_edit_window_stays_open(flags, inputs.drop_last());
    }
}

/// Using the close button closes the edit window, and a closed window stays
/// closed through any run of frames in which the new-map entry is not
/// activated: nothing else opens it again.
pub proof fn lemma_edit_window_stays_closed(flags: UiFlags, inputs: Seq<UiInput>)
    requires
        !flags.edit_window_opened,
        forall|i: int|
            0 <= i < inputs.len() ==> (#[trigger] inputs[i]).activated != Some(MenuItem::NewMap),
    ensures
        !flags_after_frames(flags, inputs).edit_window_opened,
        forall|before: UiFlags| !(#[trigger] flags_after_window(before, true)).edit_window_opened,
    decreases inputs.len(),
{
    if inputs.len() > 0 {
        lemma_edit_window_stays_closed(flags, inputs.drop_last());
    }
}

/// Whenever a frame declares the edit window, it asks for 500 by 200 units as
/// a first-appearance size only: no frame ever forces a size on a window that
/// has been shown before.
pub proof fn lemma_window_size_is_never_forced(flags: UiFlags, input: UiInput)
    ensures
        window_for(flags_after_menu(flags, input.activated)) matches Some(window) ==> {
            &&& window.width == 500
            &&& window.height == 200
            &&& window.size_condition == SizeCondition::FirstUseEver
        },
        window_for(flags_after_menu(flags, input.activated)) is Some <==> flags.edit_window_opened
            || input.activated == Some(MenuItem::NewMap),
{
}

} // verus!
