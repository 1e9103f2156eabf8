//! The application around the tab: its own keys, the window, and the steps
//! by which a tab comes on screen.

use vstd::prelude::*;
use vstd::string::StringExecFns;
use vstd::string::StrSliceExecFns;
use crate::input::dispatch;
use crate::input::finger_action;
use crate::input::first_released;
use crate::input::touch_actions;
use crate::input::Binding;
use crate::input::Finger;
use crate::input::KeyCode;
use crate::input::KeyInput;
use crate::input::MouseAction;
use crate::input::MouseButtons;
use crate::input::TouchAction;

verus! {

/// What a key asks of the application.
#[derive(Copy, Clone, Debug, PartialEq, Eq, Structural)]
pub enum AppCommand {
    ToggleHideControl,
    PlayOrPause,
    PlayOrStop,
    ToggleLayoutMode,
}

/// What the keyboard gave in one frame.
#[derive(Copy, Clone, Debug, PartialEq, Eq, Structural)]
pub struct AppKeyOutcome {
    /// The command to carry out, if any.
    pub command: Option<AppCommand>,
    /// The window is to be laid out anew.
    pub window_resized: bool,
}

/// The application's keys, in the order in which they are looked at.
pub open spec fn app_bindings() -> Seq<Binding<AppCommand>> {
    seq![
        Binding { key: KeyCode::LControl, command: AppCommand::ToggleHideControl },
        Binding { key: KeyCode::Space, command: AppCommand::PlayOrPause },
        Binding { key: KeyCode::Return, command: AppCommand::PlayOrStop },
        Binding { key: KeyCode::Backslash, command: AppCommand::ToggleLayoutMode },
    ]
}

/// What the mouse gives: a click when the left button is let go over the
/// window; nothing in the frame in which the right button goes down or comes
/// up; a drag by the mouse's moves while the right button is held; else a
/// drag by the wheel.
pub open spec fn app_mouse_action(has_cursor: bool, buttons: MouseButtons) -> MouseAction {
    if buttons.left_just_released {
        if has_cursor {
            MouseAction::Click
        } else {
            MouseAction::Ignore
        }
    } else if buttons.right_just_pressed || buttons.right_just_released {
        MouseAction::Ignore
    } else if buttons.right_pressed {
        MouseAction::DragByMotion
    } else {
        MouseAction::DragByWheel
    }
}

fn app_table() -> (table: Vec<Binding<AppCommand>>)
    ensures
        table@ == app_bindings(),
{
    let mut table: Vec<Binding<AppCommand>> = Vec::new();
    table.push(Binding { key: KeyCode::LControl, command: AppCommand::ToggleHideControl });
    table.push(Binding { key: KeyCode::Space, command: AppCommand::PlayOrPause });
    table.push(Binding { key: KeyCode::Return, command: AppCommand::PlayOrStop });
    table.push(Binding { key: KeyCode::Backslash, command: AppCommand::ToggleLayoutMode });
    assert(table@ =~= app_bindings());
    table
}

/// Answers the keyboard: finds the command of the first of the
/// application's keys that was let go, flips `hide_control` if the command
/// is to show or hide the control panel, and says whether the window is to
/// be laid out anew, which it is when the panel is shown or hidden and does
/// not float over the tab (`hud_mode`).
pub fn handle_keyboard_inputs(
    keyboard_input: &KeyInput,
    hud_mode: bool,
    hide_control: &mut bool,
) -> (outcome: AppKeyOutcome)
    ensures
        outcome.command == first_released(app_bindings(), keyboard_input.released@),
        outcome.window_resized == (outcome.command == Some(AppCommand::ToggleHideControl)
            && !hud_mode),
        *final(hide_control) == if outcome.command == Some(AppCommand::ToggleHideControl) {
            !*old(hide_control)
        } else {
            *old(hide_control)
        },
{
    let table = app_table();
    let command = dispatch(&table, keyboard_input);
    let mut window_resized = false;
    match command {
        Some(AppCommand::ToggleHideControl) => {
            *hide_control = !*hide_control;
            window_resized = !hud_mode;
        },
        _ => {},
    }
    AppKeyOutcome { command, window_resized }
}

/// Answers the mouse.
pub fn handle_mouse_inputs(has_cursor: bool, buttons: MouseButtons) -> (action: MouseAction)
    ensures
        action == app_mouse_action(has_cursor, buttons),
{
    if buttons.left_just_released {
        if has_cursor {
            MouseAction::Click
        } else {
            MouseAction::Ignore
        }
    } else if buttons.right_just_pressed {
        MouseAction::Ignore
    } else if buttons.right_just_released {
        MouseAction::Ignore
    } else if buttons.right_pressed {
        MouseAction::DragByMotion
    } else {
        MouseAction::DragByWheel
    }
}

/// Answers the touch screen: for each finger what it gives, in the fingers'
/// order.
pub fn handle_touch_inputs(has_window: bool, fingers: &Vec<Finger>) -> (actions: Vec<TouchAction>)
    ensures
        actions@.len() == fingers@.len(),
        forall|i: int|
            0 <= i < fingers@.len() ==> #[trigger] actions@[i] == finger_action(
                fingers@[i],
                has_window,
            ),
{
    touch_actions(fingers, has_window)
}

/// The size of the window in whole pixels.
#[derive(Copy, Clone, Debug, PartialEq, Eq, Structural)]
pub struct WindowSize {
    pub width: usize,
    pub height: usize,
}

/// The size that the window has when event `i` of `events` arrives: that of
/// the event before it, or `window` for the first.
pub open spec fn size_before(window: WindowSize, events: Seq<WindowSize>, i: int) -> WindowSize {
    if i == 0 {
        window
    } else {
        events[i - 1]
    }
}

/// Takes in the sizes that the window system reported, in their order. A
/// report changes the window exactly if its size in whole pixels differs
/// from the size that the window has when it arrives. Returns the indices of
/// the reports that changed the window, in rising order, and leaves in
/// `window` the size it has in the end.
pub fn on_window_resized(window: &mut WindowSize, events: &Vec<WindowSize>) -> (changed: Vec<usize>)
    ensures
        *final(window) == size_before(*old(window), events@, events@.len() as int),
        forall|k: int| 0 <= k < changed@.len() ==> 0 <= #[trigger] changed@[k] < events@.len(),
        forall|k: int, l: int| 0 <= k < l < changed@.len() ==> changed@[k] < changed@[l],
        forall|i: int|
            0 <= i < events@.len() ==> (changed@.contains(i as usize) <==> #[trigger] events@[i]
                != size_before(*old(window), events@, i)),
{
    let ghost start = *window;
    let mut changed: Vec<usize> = Vec::new();
    let n = events.len();
    let mut i: usize = 0;
    while i < n
        invariant
            i <= n,
            n == events@.len(),
            *window == size_before(start, events@, i as int),
            forall|k: int| 0 <= k < changed@.len() ==> 0 <= #[trigger] changed@[k] < i,
            forall|k: int, l: int| 0 <= k < l < changed@.len() ==> changed@[k] < changed@[l],
            forall|j: int|
                0 <= j < i ==> (changed@.contains(j as usize) <==> #[trigger] events@[j]
                    != size_before(start, events@, j)),
        decreases n - i,
    {
        let event = events[i];
        let ghost before = changed@;
        if event.width != window.width || event.height != window.height {
            window.width = event.width;
            window.height = event.height;
            changed.push(i);
            proof {
                assert(changed@[before.len() as int] == i);
                assert forall|j: int| 0 <= j < i + 1 implies (changed@.contains(j as usize)
                    <==> #[trigger] events@[j] != size_before(start, events@, j)) by {
                    if j < i {
                        if before.contains(j as usize) {
                            let k = choose|k: int| 0 <= k < before.len() && before[k] == j as usize;
                            assert(changed@[k] == j as usize);
                        }
                        if changed@.contains(j as usize) {
                            let k = choose|k: int|
                                0 <= k < changed@.len() && changed@[k] == j as usize;
                            assert(k < before.len());
                            assert(before[k] == j as usize);
                        }
                    }
                }
            }
        } else {
            proof {
                assert(!changed@.contains(i)) by {
                    if changed@.contains(i) {
                        let k = choose|k: int| 0 <= k < changed@.len() && changed@[k] == i;
                        assert(changed@[k] < i);
                    }
                }
            }
        }
        i += 1;
    }
    changed
}

/// What the application knows of the tab it is to show.
#[derive(Copy, Clone, Debug, PartialEq, Eq, Structural)]
pub struct TabLoading {
    /// A tab is on screen.
    pub has_tab: bool,
    /// The tab's text was read and found faulty.
    pub has_parse_error: bool,
}

/// What is to be done once the tab's text was read.
#[derive(Copy, Clone, Debug, PartialEq, Eq, Structural)]
pub enum LoadAction {
    /// The tab goes on screen.
    AddTab,
    /// The fault is shown.
    ReportError,
}

impl TabLoading {
    /// The tab's text is to be read now: the window has a size, no tab is on
    /// screen, and no earlier reading failed.
    pub open spec fn wants_tab(self, width_positive: bool, height_positive: bool) -> bool {
        width_positive && height_positive && !self.has_tab && !self.has_parse_error
    }

    /// Whether the tab's text is to be read now.
    pub fn load_tab(&self, width_positive: bool, height_positive: bool) -> (r: bool)
        ensures
            r == self.wants_tab(width_positive, height_positive),
    {
        width_positive && height_positive && !self.has_tab && !self.has_parse_error
    }

    /// Takes in how the reading went: a tab that was read goes on screen, a
    /// fault is kept, so that the reading is not tried again.
    pub fn tab_parsed(&mut self, parsed: bool) -> (action: LoadAction)
        ensures
            parsed ==> action == LoadAction::AddTab,
            parsed ==> final(self).has_tab,
            parsed ==> final(self).has_parse_error == old(self).has_parse_error,
            !parsed ==> action == LoadAction::ReportError,
            !parsed ==> final(self).has_parse_error,
            !parsed ==> final(self).has_tab == old(self).has_tab,
            !final(self).wants_tab(true, true),
    {
        if parsed {
            self.has_tab = true;
            LoadAction::AddTab
        } else {
            self.has_parse_error = true;
            LoadAction::ReportError
        }
    }
}

/// What was found of the page's address.
#[derive(Debug)]
pub enum UrlSearch {
    /// There is no window.
    NoWindow,
    /// The window has no document.
    NoDocument,
    /// The document has no location.
    NoLocation,
    /// The location gave no query; the text says why.
    NoSearch(String),
    /// The query of the location, with its question mark.
    Search(String),
}

/// `s` without the characters `c` that it starts with.
pub open spec fn trim_start(s: Seq<char>, c: char) -> Seq<char>
    decreases s.len(),
{
    if s.len() > 0 && s[0] == c {
        trim_start(s.skip(1), c)
    } else {
        s
    }
}

/// What `trim_start` cuts off is a run of the character `c`, and what it
/// leaves does not start with `c`.
pub proof fn lemma_trim_start(s: Seq<char>, c: char)
    ensures
        trim_start(s, c).len() <= s.len(),
        trim_start(s, c) == s.skip(s.len() - trim_start(s, c).len()),
        forall|i: int| 0 <= i < s.len() - trim_start(s, c).len() ==> s[i] == c,
        trim_start(s, c).len() > 0 ==> trim_start(s, c)[0] != c,
    decreases s.len(),
{
    if s.len() > 0 && s[0] == c {
        let rest = s.skip(1);
        lemma_trim_start(rest, c);
        let cut = rest.len() - trim_start(rest, c).len();
        assert(rest.skip(cut) =~= s.skip(cut + 1));
        assert forall|i: int| 0 <= i < s.len() - trim_start(s, c).len() implies s[i] == c by {
            if i > 0 {
                assert(rest[i - 1] == s[i]);
            }
        }
    } else {
        assert(s.skip(0) =~= s);
    }
}

/// The tab that the page's address names, or why it names none.
pub open spec fn tab_from_url(found: UrlSearch) -> Result<Seq<char>, Seq<char>> {
    match found {
        UrlSearch::NoWindow => Err("No_Window"@),
        UrlSearch::NoDocument => Err("No_Document"@),
        UrlSearch::NoLocation => Err("No_Location"@),
        UrlSearch::NoSearch(why) => Err("No_Search:"@ + why@),
        UrlSearch::Search(query) => Ok(trim_start(query@, '?')),
    }
}

fn trim_question_marks(query: &str) -> (r: String)
    ensures
        r@ == trim_start(query@, '?'),
{
    let n = query.unicode_len();
    let mut i: usize = 0;
    assert(query@.skip(0) =~= query@);
    while i < n
        invariant
            i <= n,
            n == query@.len(),
            trim_start(query@, '?') == trim_start(query@.skip(i as int), '?'),
        decreases n - i,
    {
        proof {
            let rest = query@.skip(i as int);
            assert(rest[0] == query@[i as int]);
            assert(rest.skip(1) =~= query@.skip(i as int + 1));
        }
        if query.get_char(i) != '?' {
            let rest = query.substring_char(i, n);
            assert(rest@ =~= query@.skip(i as int));
            return String::from_str(rest);
        }
        i += 1;
    }
    assert(query@.skip(n as int) =~= Seq::<char>::empty());
    String::new()
}

/// The application.
#[derive(Copy, Clone, Debug, PartialEq, Eq, Structural)]
pub struct NotationApp;

impl NotationApp {
    /// The tab that the page's address names: the query of the address
    /// without its leading question marks. Where the address could not be
    /// read the error names the part that was missing.
    pub fn get_tab_from_url(found: UrlSearch) -> (r: Result<String, String>)
        ensures
            match (r, tab_from_url(found)) {
                (Ok(tab), Ok(expected)) => tab@ == expected,
                (Err(why), Err(expected)) => why@ == expected,
                _ => false,
            },
    {
        match found {
            UrlSearch::NoWindow => Err(String::from_str("No_Window")),
            UrlSearch::NoDocument => Err(String::from_str("No_Document")),
            UrlSearch::NoLocation => Err(String::from_str("No_Location")),
            UrlSearch::NoSearch(why) => {
                let mut text = String::from_str("No_Search:");
                text.append(why.as_str());
                Err(text)
            },
            UrlSearch::Search(query) => Ok(trim_question_marks(query.as_str())),
        }
    }
}

} // verus!
