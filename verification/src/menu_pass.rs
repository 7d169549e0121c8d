//! Declaring the menu bar through the immediate-mode toolkit. The toolkit
//! draws and tells, in the same call, whether an entry was activated; the
//! walk over the menus and what an activation means is decided here.

use vstd::prelude::*;
use crate::frame_loop::FrameInput;
use crate::ui::Key;
use crate::ui::Menu;
use crate::ui::MenuItem;
use crate::ui::UiFlags;
use crate::ui::UiInput;
use crate::ui::WindowRequest;
use crate::ui::flags_after_menu;
use crate::ui::menu_bar;
use crate::ui::menu_bar_layout;
use crate::ui::menu_entries;
use crate::ui::window_for;

verus! {

/// The toolkit's handle for describing one frame.
#[verifier::external_type_specification]
#[verifier::external_body]
pub struct ExUi(imgui::Ui);

/// The toolkit's token for an open main menu bar; the bar ends when the token
/// is given back.
#[verifier::external_type_specification]
#[verifier::external_body]
pub struct ExMainMenuBarToken<'a>(imgui::MainMenuBarToken<'a>);

/// The toolkit's token for an open menu; the menu ends when the token is
/// given back.
#[verifier::external_type_specification]
#[verifier::external_body]
pub struct ExMenuToken<'a>(imgui::MenuToken<'a>);

/// `imgui::Ui::begin_main_menu_bar`: opens the bar along the top of the
/// screen. Whether the bar is shown, and so whether a token comes back, is
/// the toolkit's decision; nothing is claimed of it.
#[verifier::external_body]
fn begin_main_menu_bar<'a>(ui: &'a imgui::Ui) -> (token: Option<imgui::MainMenuBarToken<'a>>) {
    ui.begin_main_menu_bar()
}

/// `imgui::MainMenuBarToken::end`: closes the bar.
#[verifier::external_body]
fn end_main_menu_bar<'a>(token: imgui::MainMenuBarToken<'a>) {
    token.end()
}

/// `imgui::Ui::begin_menu`: declares a menu with the given label. A token
/// comes back while the user has the menu open; nothing is claimed of it.
/// The toolkit makes the menu's id from the label up to its first NUL
/// character; with nothing there the menu gets the id of what holds it, and
/// outside a menu bar the toolkit asserts that it does not. Such labels are
/// left out.
#[verifier::external_body]
fn begin_menu<'a>(ui: &'a imgui::Ui, label: &str) -> (token: Option<imgui::MenuToken<'a>>)
    requires
        label@.len() > 0,
        label@[0] != '\0',
{
    ui.begin_menu(label)
}

/// `imgui::MenuToken::end`: closes the menu.
#[verifier::external_body]
fn end_menu<'a>(token: imgui::MenuToken<'a>) {
    token.end()
}

/// `imgui::Ui::menu_item`: declares an entry with the given label and tells
/// whether the user activated it in this frame; nothing is claimed of the
/// answer. The toolkit makes the entry's id from the label up to its first
/// NUL character; with nothing there the entry gets the id of the menu that
/// holds it, and the toolkit asserts that it does not. Such labels are left
/// out.
#[verifier::external_body]
fn menu_item(ui: &imgui::Ui, label: &str) -> (activated: bool)
    requires
        label@.len() > 0,
        label@[0] != '\0',
{
    ui.menu_item(label)
}

/// `imgui::Ui::is_key_pressed`: whether the given key went from up to down,
/// or is held and repeats under the toolkit's key-repeat settings; nothing is
/// claimed of the answer. Each key is handed over as the toolkit's key of the
/// same name.
#[verifier::external_body]
fn key_pressed(ui: &imgui::Ui, key: Key) -> (pressed: bool) {
    ui.is_key_pressed(
        match key {
            Key::Escape => imgui::Key::Escape,
            Key::Enter => imgui::Key::Enter,
            Key::Space => imgui::Key::Space,
            Key::Tab => imgui::Key::Tab,
        },
    )
}

/// What the first half of a frame's interface produced: the menu bar has been
/// declared, the floating window is still to come.
#[derive(Clone, Copy, Debug, PartialEq, Eq)]
pub struct MenuPass {
    /// Whether the Escape key went down in this frame.
    pub escape_pressed: bool,
    /// The menu entry that was activated in this frame, if any.
    pub activated: Option<MenuItem>,
    /// The flags after the menu bar took effect.
    pub flags: UiFlags,
    /// The window to declare next, if any.
    pub window: Option<WindowRequest>,
}

impl MenuPass {
    /// What happened in the frame as a whole, once the window, if there was
    /// one, has been declared and answered whether its close button was used.
    /// Without a window there is no close button: the answer is then taken as
    /// no.
    pub fn finish(self, close_clicked: bool) -> (input: FrameInput)
        ensures
            input == (FrameInput {
                escape_pressed: self.escape_pressed,
                ui: UiInput {
                    activated: self.activated,
                    close_clicked: close_clicked && self.window is Some,
                },
            }),
    {
        let shown: bool = match self.window {
            Some(_) => true,
            None => false,
        };
        FrameInput {
            escape_pressed: self.escape_pressed,
            ui: UiInput { activated: self.activated, close_clicked: close_clicked && shown },
        }
    }
}

/// Whether `item` stands in one of the menus of the bar.
pub open spec fn on_menu_bar(item: MenuItem) -> bool {
    exists|m: int|
        0 <= m < menu_bar_layout().len() && #[trigger] menu_entries(menu_bar_layout()[m]).contains(
            item,
        )
}

/// Whether the toolkit answered yes for a new-map entry: `answers` holds one
/// answer for each of `entries`, in order.
pub open spec fn new_map_answered(entries: Seq<MenuItem>, answers: Seq<bool>) -> bool {
    exists|i: int|
        0 <= i < answers.len() && i < entries.len() && #[trigger] answers[i] && entries[i]
            == MenuItem::NewMap
}

/// The last of `entries` that was answered with yes, or none if every answer
/// was no.
pub open spec fn last_activated(entries: Seq<MenuItem>, answers: Seq<bool>) -> Option<MenuItem>
    decreases answers.len(),
{
    if answers.len() == 0 || entries.len() != answers.len() {
        None
    } else if answers.last() {
        Some(entries.last())
    } else {
        last_activated(entries.drop_last(), answers.drop_last())
    }
}

/// The entry that a menu reports as activated when the toolkit gave
/// `answers`, one for each of `entries` in order. The new-map entry is the
/// only one with an effect, so it is reported whenever it was answered with
/// yes, whatever else was; otherwise the last entry answered with yes is
/// reported. Answers that do not match the entries in number report nothing.
pub open spec fn activated_among(entries: Seq<MenuItem>, answers: Seq<bool>) -> Option<MenuItem> {
    if entries.len() != answers.len() {
        None
    } else if new_map_answered(entries, answers) {
        Some(MenuItem::NewMap)
    } else {
        last_activated(entries, answers)
    }
}

/// The last activated entry is one of the entries, and one that was answered
/// with yes.
pub proof fn lemma_last_activated_was_answered(entries: Seq<MenuItem>, answers: Seq<bool>)
    ensures
        last_activated(entries, answers) matches Some(item) ==> exists|i: int|
            0 <= i < answers.len() && i < entries.len() && #[trigger] answers[i] && entries[i]
                == item,
    decreases answers.len(),
{
    if answers.len() > 0 && entries.len() == answers.len() {
        if answers.last() {
            assert(answers[answers.len() - 1] && entries[answers.len() - 1] == entries.last());
        } else {
            lemma_last_activated_was_answered(entries.drop_last(), answers.drop_last());
            match last_activated(entries, answers) {
                Some(item) => {
                    let i = choose|i: int|
                        0 <= i < answers.drop_last().len() && i < entries.drop_last().len()
                            && #[trigger] answers.drop_last()[i] && entries.drop_last()[i] == item;
                    assert(answers[i] && entries[i] == item);
                },
                None => {},
            }
        }
    }
}

/// Whatever the answers are, the reported entry is one of the entries, and it
/// is the new-map entry exactly when that entry was answered with yes.
pub proof fn lemma_activated_is_an_entry(entries: Seq<MenuItem>, answers: Seq<bool>)
    ensures
        activated_among(entries, answers) matches Some(item) ==> entries.contains(item),
        activated_among(entries, answers) == Some(MenuItem::NewMap) <==> entries.len()
            == answers.len() && new_map_answered(entries, answers),
{
    lemma_last_activated_was_answered(entries, answers);
    if entries.len() == answers.len() {
        if new_map_answered(entries, answers) {
            let i = choose|i: int|
                0 <= i < answers.len() && i < entries.len() && #[trigger] answers[i] && entries[i]
                    == MenuItem::NewMap;
            assert(entries[i] == MenuItem::NewMap);
        } else {
            match last_activated(entries, answers) {
                Some(item) => {
                    let i = choose|i: int|
                        0 <= i < answers.len() && i < entries.len() && #[trigger] answers[i]
                            && entries[i] == item;
                    assert(entries[i] == item);
                },
                None => {},
            }
        }
    }
}

/// Decides which entry a menu reports as activated from the toolkit's
/// answers, one for each entry in order.
pub fn activated_entry(entries: &Vec<MenuItem>, answers: &Vec<bool>) -> (chosen: Option<MenuItem>)
    ensures
        chosen == activated_among(entries@, answers@),
{
    if entries.len() != answers.len() {
        return None;
    }
    let mut last: Option<MenuItem> = None;
    let mut new_map: bool = false;
    let mut i: usize = 0;
    while i < answers.len()
        invariant
            i <= answers.len(),
            entries.len() == answers.len(),
            last == last_activated(entries@.take(i as int), answers@.take(i as int)),
            new_map <==> exists|k: int|
                0 <= k < i && #[trigger] answers@[k] && entries@[k] == MenuItem::NewMap,
        decreases answers.len() - i,
    {
        if answers[i] {
            last = Some(entries[i]);
            match entries[i] {
                MenuItem::NewMap => {
                    new_map = true;
                },
                _ => {},
            }
        }
        i = i + 1;
        proof {
            assert(entries@.take(i as int).drop_last() =~= entries@.take(i - 1));
            assert(answers@.take(i as int).drop_last() =~= answers@.take(i - 1));
        }
    }
    proof {
        assert(entries@.take(i as int) =~= entries@);
        assert(answers@.take(i as int) =~= answers@);
    }
    if new_map {
        Some(MenuItem::NewMap)
    } else {
        last
    }
}

/// Declares the entries of one open menu, top to bottom, collects the
/// toolkit's answer for each, and returns the entry that they activate.
fn show_menu_entries(ui: &imgui::Ui, menu: Menu) -> (activated: Option<MenuItem>)
    ensures
        exists|answers: Seq<bool>|
            answers.len() == menu_entries(menu).len() && activated == #[trigger] activated_among(
                menu_entries(menu),
                answers,
            ),
        activated matches Some(item) ==> menu_entries(menu).contains(item),
{
    let entries: Vec<MenuItem> = menu.items();
    let mut answers: Vec<bool> = Vec::new();
    let mut i: usize = 0;
    while i < entries.len()
        invariant
            i <= entries.len(),
            answers.len() == i,
        decreases entries.len() - i,
    {
        let answer: bool = menu_item(ui, entries[i].label());
        answers.push(answer);
        i = i + 1;
    }
    let activated: Option<MenuItem> = activated_entry(&entries, &answers);
    proof {
        lemma_activated_is_an_entry(entries@, answers@);
    }
    activated
}

/// The choice of the last menu that made one.
pub open spec fn last_choice(choices: Seq<Option<MenuItem>>) -> Option<MenuItem>
    decreases choices.len(),
{
    if choices.len() == 0 {
        None
    } else if choices.last() is Some {
        choices.last()
    } else {
        last_choice(choices.drop_last())
    }
}

/// The entry that the bar reports as activated when its menus, left to
/// right, made `choices`. The new-map entry is reported whenever a menu chose
/// it, whatever the other menus chose; otherwise the choice of the last menu
/// that made one is reported.
pub open spec fn choice_on_bar(choices: Seq<Option<MenuItem>>) -> Option<MenuItem> {
    if choices.contains(Some(MenuItem::NewMap)) {
        Some(MenuItem::NewMap)
    } else {
        last_choice(choices)
    }
}

/// Whether every choice is an entry of the menu that stands at its place on
/// the bar.
pub open spec fn choices_fit_the_bar(choices: Seq<Option<MenuItem>>) -> bool {
    &&& choices.len() <= menu_bar_layout().len()
    &&& forall|m: int|
        0 <= m < choices.len() ==> ((#[trigger] choices[m]) matches Some(item) ==> menu_entries(
            menu_bar_layout()[m],
        ).contains(item))
}

/// The last choice is the choice of one of the menus.
pub proof fn lemma_last_choice_is_made(choices: Seq<Option<MenuItem>>)
    ensures
        last_choice(choices) matches Some(item) ==> exists|m: int|
            0 <= m < choices.len() && #[trigger] choices[m] == Some(item),
    decreases choices.len(),
{
    if choices.len() > 0 {
        if choices.last() is Some {
            assert(choices[choices.len() - 1] == choices.last());
        } else {
            lemma_last_choice_is_made(choices.drop_last());
            match last_choice(choices) {
                Some(item) => {
                    let m = choose|m: int|
                        0 <= m < choices.drop_last().len() && choices.drop_last()[m] == Some(item);
                    assert(choices[m] == Some(item));
                },
                None => {},
            }
        }
    }
}

/// The entry reported for the bar is the choice of one of its menus, and it
/// is the new-map entry exactly when a menu chose that entry.
pub proof fn lemma_choice_is_made(choices: Seq<Option<MenuItem>>)
    ensures
        choice_on_bar(choices) matches Some(item) ==> exists|m: int|
            0 <= m < choices.len() && #[trigger] choices[m] == Some(item),
        choice_on_bar(choices) == Some(MenuItem::NewMap) <==> choices.contains(
            Some(MenuItem::NewMap),
        ),
{
    lemma_last_choice_is_made(choices);
    if choices.contains(Some(MenuItem::NewMap)) {
        let m = choose|m: int| 0 <= m < choices.len() && choices[m] == Some(MenuItem::NewMap);
        assert(choices[m] == Some(MenuItem::NewMap));
    } else {
        match last_choice(choices) {
            Some(item) => {
                let m = choose|m: int| 0 <= m < choices.len() && #[trigger] choices[m] == Some(item);
                assert(choices.contains(Some(item)));
            },
            None => {},
        }
    }
}

/// The edit window is open after the bar exactly if it was open before or a
/// menu chose the new-map entry. What the other entries were answered makes
/// no difference: they have no effect.
pub proof fn lemma_bar_opens_on_new_map_alone(flags: UiFlags, choices: Seq<Option<MenuItem>>)
    ensures
        flags_after_menu(flags, choice_on_bar(choices)).edit_window_opened
            == (flags.edit_window_opened || choices.contains(Some(MenuItem::NewMap))),
{
    lemma_choice_is_made(choices);
}

/// Two runs of choices that agree on where the new-map entry stands leave the
/// same flags, however they differ in the other entries.
pub proof fn lemma_inert_choices_do_not_matter(
    flags: UiFlags,
    first: Seq<Option<MenuItem>>,
    second: Seq<Option<MenuItem>>,
)
    requires
        first.len() == second.len(),
        forall|m: int|
            0 <= m < first.len() ==> ((#[trigger] first[m] == Some(MenuItem::NewMap)) <==> (
            #[trigger] second[m] == Some(MenuItem::NewMap))),
    ensures
        flags_after_menu(flags, choice_on_bar(first)) == flags_after_menu(
            flags,
            choice_on_bar(second),
        ),
{
    lemma_bar_opens_on_new_map_alone(flags, first);
    lemma_bar_opens_on_new_map_alone(flags, second);
    if first.contains(Some(MenuItem::NewMap)) {
        let m = choose|m: int| 0 <= m < first.len() && first[m] == Some(MenuItem::NewMap);
        assert(second[m] == Some(MenuItem::NewMap));
    }
    if second.contains(Some(MenuItem::NewMap)) {
        let m = choose|m: int| 0 <= m < second.len() && second[m] == Some(MenuItem::NewMap);
        assert(first[m] == Some(MenuItem::NewMap));
    }
}

/// Two runs of answers for the same entries that agree at every new-map
/// entry make a menu report the new-map entry alike, however they differ at
/// the other entries.
pub proof fn lemma_inert_answers_do_not_matter(
    entries: Seq<MenuItem>,
    first: Seq<bool>,
    second: Seq<bool>,
)
    requires
        first.len() == entries.len(),
        second.len() == entries.len(),
        forall|i: int|
            0 <= i < entries.len() && entries[i] == MenuItem::NewMap ==> #[trigger] first[i]
                == #[trigger] second[i],
    ensures
        activated_among(entries, first) == Some(MenuItem::NewMap) <==> activated_among(
            entries,
            second,
        ) == Some(MenuItem::NewMap),
{
    lemma_activated_is_an_entry(entries, first);
    lemma_activated_is_an_entry(entries, second);
    if new_map_answered(entries, first) {
        let i = choose|i: int|
            0 <= i < first.len() && i < entries.len() && #[trigger] first[i] && entries[i]
                == MenuItem::NewMap;
        assert(second[i]);
    }
    if new_map_answered(entries, second) {
        let i = choose|i: int|
            0 <= i < second.len() && i < entries.len() && #[trigger] second[i] && entries[i]
                == MenuItem::NewMap;
        assert(first[i]);
    }
}

/// Decides which entry the bar reports as activated from the choices of its
/// menus, left to right.
pub fn bar_choice(choices: &Vec<Option<MenuItem>>) -> (chosen: Option<MenuItem>)
    ensures
        chosen == choice_on_bar(choices@),
{
    let mut last: Option<MenuItem> = None;
    let mut new_map: bool = false;
    let mut i: usize = 0;
    while i < choices.len()
        invariant
            i <= choices.len(),
            last == last_choice(choices@.take(i as int)),
            new_map <==> exists|k: int|
                0 <= k < i && #[trigger] choices@[k] == Some(MenuItem::NewMap),
        decreases choices.len() - i,
    {
        match choices[i] {
            Some(MenuItem::NewMap) => {
                last = Some(MenuItem::NewMap);
                new_map = true;
            },
            Some(item) => {
                last = Some(item);
            },
            None => {},
        }
        i = i + 1;
        proof {
            assert(choices@.take(i as int).drop_last() =~= choices@.take(i - 1));
        }
    }
    proof {
        assert(choices@.take(i as int) =~= choices@);
    }
    if new_map {
        Some(MenuItem::NewMap)
    } else {
        last
    }
}

/// Declares the main menu bar with all its menus, left to right, and applies
/// what the user chose: activating the new-map entry opens the edit window,
/// whatever else was activated; every other entry does nothing. A menu that
/// is not open makes no choice, a bar that is not shown holds no menus.
/// Returns the activated entry, if any. The bar never closes the edit window.
///
/// `ui` must belong to a frame that has been begun and is not yet finalized,
/// and no main menu bar may be open on it already: the toolkit keeps that
/// state to itself, declares nothing outside a frame and does not nest main
/// menu bars.
pub fn show_main_tab(ui: &imgui::Ui, flags: &mut UiFlags) -> (activated: Option<MenuItem>)
    ensures
        *final(flags) == flags_after_menu(*old(flags), activated),
        exists|choices: Seq<Option<MenuItem>>|
            choices_fit_the_bar(choices) && activated == #[trigger] choice_on_bar(choices),
        activated matches Some(item) ==> on_menu_bar(item),
{
    let mut choices: Vec<Option<MenuItem>> = Vec::new();
    match begin_main_menu_bar(ui) {
        Some(bar) => {
            let menus: Vec<Menu> = menu_bar();
            let mut m: usize = 0;
            while m < menus.len()
                invariant
                    m <= menus.len(),
                    menus@ == menu_bar_layout(),
                    choices.len() == m,
                    choices_fit_the_bar(choices@),
                decreases menus.len() - m,
            {
                let menu: Menu = menus[m];
                let choice: Option<MenuItem> = match begin_menu(ui, menu.label()) {
                    Some(open) => {
                        let chosen: Option<MenuItem> = show_menu_entries(ui, menu);
                        end_menu(open);
                        chosen
                    },
                    None => None,
                };
                choices.push(choice);
                m = m + 1;
            }
            end_main_menu_bar(bar);
        },
        None => {},
    }
    let activated: Option<MenuItem> = bar_choice(&choices);
    proof {
        lemma_choice_is_made(choices@);
        match activated {
            Some(item) => {
                let m = choose|m: int| 0 <= m < choices@.len() && choices@[m] == Some(item);
                assert(menu_entries(menu_bar_layout()[m]).contains(item));
            },
            None => {},
        }
    }
    *flags = flags.after_menu(activated);
    activated
}

/// Begins the description of a frame: asks whether the exit key, Escape, was
/// pressed, declares the menu bar and says which window is to be declared
/// after it. An activated new-map entry shows the edit window in this very
/// frame.
///
/// `ui` must belong to a frame that has been begun and is not yet finalized,
/// and no main menu bar may be open on it already: the toolkit keeps that
/// state to itself, declares nothing outside a frame and does not nest main
/// menu bars.
pub fn describe_frame(ui: &imgui::Ui, flags: UiFlags) -> (pass: MenuPass)
    ensures
        pass.flags == flags_after_menu(flags, pass.activated),
        pass.window == window_for(pass.flags),
        pass.activated matches Some(item) ==> on_menu_bar(item),
{
    let escape_pressed: bool = key_pressed(ui, Key::Escape);
    let mut shown: UiFlags = flags;
    let activated: Option<MenuItem> = show_main_tab(ui, &mut shown);
    MenuPass { escape_pressed, activated, flags: shown, window: shown.edit_window() }
}

} // verus!
