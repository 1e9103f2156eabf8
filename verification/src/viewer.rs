//! The viewer's answer to the keyboard, the mouse and a touch screen.
//!
//! Nothing here acts: each function says what is to be done, and the caller
//! does it.

use vstd::prelude::*;
use crate::input::dispatch;
use crate::input::first_released;
use crate::input::touch_actions;
use crate::input::finger_action;
use crate::input::Binding;
use crate::input::Finger;
use crate::input::KeyCode;
use crate::input::KeyInput;
use crate::input::MouseAction;
use crate::input::MouseButtons;
use crate::input::TouchAction;

verus! {

/// What a key asks of the viewer.
#[derive(Copy, Clone, Debug, PartialEq, Eq, Structural)]
pub enum ViewerCommand {
    ToggleShowControl,
    ToggleShowKb,
    ToggleHideGuitarView,
    ToggleHideChordsView,
    ToggleHideMiniMap,
    ReloadTab,
    PlayOrPause,
    Stop,
    JumpToSectionStart,
    JumpToSectionEnd,
    JumpToPrevSection,
    JumpToNextSection,
    JumpToPrevBar,
    JumpToNextBar,
    SeekForward,
    ToggleLayoutMode,
    ToggleShowGuitarSyllable,
    ToggleShowMelodySyllable,
    ToggleAlwaysShowFret,
    ToggleShouldLoop,
    SetBeginBarOrdinal,
    SetEndBarOrdinal,
    ClearBeginEnd,
    /// The played range becomes the bar that playback stands in.
    SetBeginAndEndBarOrdinal,
    /// Playback runs at `percent` hundredths of its speed.
    SetSpeedFactor { percent: u8 },
}

/// The switches that the keyboard flips directly.
#[derive(Copy, Clone, Debug, PartialEq, Eq, Structural)]
pub struct ViewerSwitches {
    pub show_control: bool,
    pub show_kb: bool,
    pub should_loop: bool,
}

impl ViewerSwitches {
    /// The switches after `command`: each of the three toggles flips its own
    /// switch, and no other command touches them.
    pub open spec fn after(self, command: Option<ViewerCommand>) -> ViewerSwitches {
        match command {
            Some(ViewerCommand::ToggleShowControl) => ViewerSwitches {
                show_control: !self.show_control,
                show_kb: self.show_kb,
                should_loop: self.should_loop,
            },
            Some(ViewerCommand::ToggleShowKb) => ViewerSwitches {
                show_control: self.show_control,
                show_kb: !self.show_kb,
                should_loop: self.should_loop,
            },
            Some(ViewerCommand::ToggleShouldLoop) => ViewerSwitches {
                show_control: self.show_control,
                show_kb: self.show_kb,
                should_loop: !self.should_loop,
            },
            _ => self,
        }
    }
}

/// What the keyboard gave in one frame.
#[derive(Copy, Clone, Debug, PartialEq, Eq, Structural)]
pub struct KeyOutcome {
    /// The command to carry out, if any.
    pub command: Option<ViewerCommand>,
    /// The window is to be laid out anew.
    pub window_resized: bool,
}

/// The viewer's keys, in the order in which they are looked at.
pub open spec fn viewer_bindings() -> Seq<Binding<ViewerCommand>> {
    seq![
        Binding { key: KeyCode::F10, command: ViewerCommand::ToggleShowControl },
        Binding { key: KeyCode::Backslash, command: ViewerCommand::ToggleShowControl },
        Binding { key: KeyCode::F1, command: ViewerCommand::ToggleShowKb },
        Binding { key: KeyCode::H, command: ViewerCommand::ToggleShowKb },
        Binding { key: KeyCode::F2, command: ViewerCommand::ToggleHideGuitarView },
        Binding { key: KeyCode::F3, command: ViewerCommand::ToggleHideChordsView },
        Binding { key: KeyCode::F4, command: ViewerCommand::ToggleHideMiniMap },
        Binding { key: KeyCode::F5, command: ViewerCommand::ReloadTab },
        Binding { key: KeyCode::R, command: ViewerCommand::ReloadTab },
        Binding { key: KeyCode::Space, command: ViewerCommand::PlayOrPause },
        Binding { key: KeyCode::Return, command: ViewerCommand::Stop },
        Binding { key: KeyCode::Home, command: ViewerCommand::JumpToSectionStart },
        Binding { key: KeyCode::End, command: ViewerCommand::JumpToSectionEnd },
        Binding { key: KeyCode::PageUp, command: ViewerCommand::JumpToPrevSection },
        Binding { key: KeyCode::PageDown, command: ViewerCommand::JumpToNextSection },
        Binding { key: KeyCode::Left, command: ViewerCommand::JumpToPrevBar },
        Binding { key: KeyCode::Right, command: ViewerCommand::JumpToNextBar },
        Binding { key: KeyCode::Down, command: ViewerCommand::SeekForward },
        Binding { key: KeyCode::Minus, command: ViewerCommand::ToggleLayoutMode },
        Binding { key: KeyCode::G, command: ViewerCommand::ToggleShowGuitarSyllable },
        Binding { key: KeyCode::M, command: ViewerCommand::ToggleShowMelodySyllable },
        Binding { key: KeyCode::F, command: ViewerCommand::ToggleAlwaysShowFret },
        Binding { key: KeyCode::L, command: ViewerCommand::ToggleShouldLoop },
        Binding { key: KeyCode::A, command: ViewerCommand::SetBeginBarOrdinal },
        Binding { key: KeyCode::B, command: ViewerCommand::SetEndBarOrdinal },
        Binding { key: KeyCode::C, command: ViewerCommand::ClearBeginEnd },
        Binding { key: KeyCode::D, command: ViewerCommand::SetBeginAndEndBarOrdinal },
        Binding { key: KeyCode::E, command: ViewerCommand::SetBeginAndEndBarOrdinal },
        Binding { key: KeyCode::Key1, command: ViewerCommand::SetSpeedFactor { percent: 25 } },
        Binding { key: KeyCode::Key2, command: ViewerCommand::SetSpeedFactor { percent: 50 } },
        Binding { key: KeyCode::Key3, command: ViewerCommand::SetSpeedFactor { percent: 75 } },
        Binding { key: KeyCode::Key4, command: ViewerCommand::SetSpeedFactor { percent: 100 } },
    ]
}

/// The command that the released keys give: none while no tab is shown,
/// else that of the first of the viewer's keys that was let go.
pub open spec fn viewer_command(has_tab: bool, released: Seq<KeyCode>) -> Option<ViewerCommand> {
    if has_tab {
        first_released(viewer_bindings(), released)
    } else {
        None
    }
}

/// What the mouse gives: nothing while no tab is shown or the cursor is
/// outside the window; a click when the left button is let go; nothing in
/// the frame in which the right button goes down or comes up; a drag by the
/// mouse's moves while the right button is held; else a drag by the wheel.
pub open spec fn viewer_mouse_action(
    has_tab: bool,
    has_cursor: bool,
    buttons: MouseButtons,
) -> MouseAction {
    if !has_tab || !has_cursor {
        MouseAction::Ignore
    } else if buttons.left_just_released {
        MouseAction::Click
    } else if buttons.right_just_pressed || buttons.right_just_released {
        MouseAction::Ignore
    } else if buttons.right_pressed {
        MouseAction::DragByMotion
    } else {
        MouseAction::DragByWheel
    }
}

fn bind(
    table: &mut Vec<Binding<ViewerCommand>>,
    key: KeyCode,
    command: ViewerCommand,
)
    ensures
        final(table)@ == old(table)@.push(Binding { key, command }),
{
    table.push(Binding { key, command });
}

fn viewer_table() -> (table: Vec<Binding<ViewerCommand>>)
    ensures
        table@ == viewer_bindings(),
{
    let mut table: Vec<Binding<ViewerCommand>> = Vec::new();
    bind(&mut table, KeyCode::F10, ViewerCommand::ToggleShowControl);
    bind(&mut table, KeyCode::Backslash, ViewerCommand::ToggleShowControl);
    bind(&mut table, KeyCode::F1, ViewerCommand::ToggleShowKb);
    bind(&mut table, KeyCode::H, ViewerCommand::ToggleShowKb);
    bind(&mut table, KeyCode::F2, ViewerCommand::ToggleHideGuitarView);
    bind(&mut table, KeyCode::F3, ViewerCommand::ToggleHideChordsView);
    bind(&mut table, KeyCode::F4, ViewerCommand::ToggleHideMiniMap);
    bind(&mut table, KeyCode::F5, ViewerCommand::ReloadTab);
    bind(&mut table, KeyCode::R, ViewerCommand::ReloadTab);
    bind(&mut table, KeyCode::Space, ViewerCommand::PlayOrPause);
    bind(&mut table, KeyCode::Return, ViewerCommand::Stop);
    bind(&mut table, KeyCode::Home, ViewerCommand::JumpToSectionStart);
    bind(&mut table, KeyCode::End, ViewerCommand::JumpToSectionEnd);
    bind(&mut table, KeyCode::PageUp, ViewerCommand::JumpToPrevSection);
    bind(&mut table, KeyCode::PageDown, ViewerCommand::JumpToNextSection);
    bind(&mut table, KeyCode::Left, ViewerCommand::JumpToPrevBar);
    bind(&mut table, KeyCode::Right, ViewerCommand::JumpToNextBar);
    bind(&mut table, KeyCode::Down, ViewerCommand::SeekForward);
    bind(&mut table, KeyCode::Minus, ViewerCommand::ToggleLayoutMode);
    bind(&mut table, KeyCode::G, ViewerCommand::ToggleShowGuitarSyllable);
    bind(&mut table, KeyCode::M, ViewerCommand::ToggleShowMelodySyllable);
    bind(&mut table, KeyCode::F, ViewerCommand::ToggleAlwaysShowFret);
    bind(&mut table, KeyCode::L, ViewerCommand::ToggleShouldLoop);
    bind(&mut table, KeyCode::A, ViewerCommand::SetBeginBarOrdinal);
    bind(&mut table, KeyCode::B, ViewerCommand::SetEndBarOrdinal);
    bind(&mut table, KeyCode::C, ViewerCommand::ClearBeginEnd);
    bind(&mut table, KeyCode::D, ViewerCommand::SetBeginAndEndBarOrdinal);
    bind(&mut table, KeyCode::E, ViewerCommand::SetBeginAndEndBarOrdinal);
    bind(&mut table, KeyCode::Key1, ViewerCommand::SetSpeedFactor { percent: 25 });
    bind(&mut table, KeyCode::Key2, ViewerCommand::SetSpeedFactor { percent: 50 });
    bind(&mut table, KeyCode::Key3, ViewerCommand::SetSpeedFactor { percent: 75 });
    bind(&mut table, KeyCode::Key4, ViewerCommand::SetSpeedFactor { percent: 100 });
    assert(table@ =~= viewer_bindings());
    table
}

/// The viewer.
#[derive(Copy, Clone, Debug, PartialEq, Eq, Structural)]
pub struct NotationViewer();

impl NotationViewer {
    /// Answers the keyboard: finds the command that the released keys give,
    /// flips the switch that it names, if it names one, and says whether the
    /// window is to be laid out anew, which it is when the control panel is
    /// shown or hidden and does not float over the tab (`hud_mode`).
    pub fn handle_keyboard_inputs(
        keyboard_input: &KeyInput,
        has_tab: bool,
        hud_mode: bool,
        switches: &mut ViewerSwitches,
    ) -> (outcome: KeyOutcome)
        ensures
            outcome.command == viewer_command(has_tab, keyboard_input.released@),
            outcome.window_resized == (outcome.command == Some(ViewerCommand::ToggleShowControl)
                && !hud_mode),
            *final(switches) == old(switches).after(outcome.command),
    {
        if !has_tab {
            return KeyOutcome { command: None, window_resized: false };
        }
        let table = viewer_table();
        let command = dispatch(&table, keyboard_input);
        let mut window_resized = false;
        match command {
            Some(ViewerCommand::ToggleShowControl) => {
                switches.show_control = !switches.show_control;
                window_resized = !hud_mode;
            },
            Some(ViewerCommand::ToggleShowKb) => {
                switches.show_kb = !switches.show_kb;
            },
            Some(ViewerCommand::ToggleShouldLoop) => {
                switches.should_loop = !switches.should_loop;
            },
            _ => {},
        }
        KeyOutcome { command, window_resized }
    }

    /// Answers the mouse.
    pub fn handle_mouse_inputs(has_tab: bool, has_cursor: bool, buttons: MouseButtons) -> (action:
        MouseAction)
        ensures
            action == viewer_mouse_action(has_tab, has_cursor, buttons),
    {
        if !has_tab {
            return MouseAction::Ignore;
        }
        if !has_cursor {
            return MouseAction::Ignore;
        }
        if buttons.left_just_released {
            MouseAction::Click
        } else if buttons.right_just_pressed {
            MouseAction::Ignore
        } else if buttons.right_just_released {
            MouseAction::Ignore
        } else if buttons.right_pressed {
            MouseAction::DragByMotion
        } else {
            MouseAction::DragByWheel
        }
    }

    /// Answers the touch screen: nothing at all while no tab is shown, else
    /// for each finger what it gives, in the fingers' order.
    pub fn handle_touch_inputs(has_tab: bool, has_window: bool, fingers: &Vec<Finger>) -> (actions:
        Vec<TouchAction>)
        ensures
            !has_tab ==> actions@.len() == 0,
            has_tab ==> actions@.len() == fingers@.len(),
            has_tab ==> forall|i: int|
                0 <= i < fingers@.len() ==> #[trigger] actions@[i] == finger_action(
                    fingers@[i],
                    has_window,
                ),
    {
        if !has_tab {
            return Vec::new();
        }
        touch_actions(fingers, has_window)
    }
}

} // verus!
