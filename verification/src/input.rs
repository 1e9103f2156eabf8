//! What the keyboard, the mouse and a touch screen report, as plain values,
//! and the rule by which a key is turned into a command.

use vstd::prelude::*;

verus! {

/// The keys that the viewer listens to.
#[derive(Copy, Clone, Debug, PartialEq, Eq, Structural)]
pub enum KeyCode {
    Key1,
    Key2,
    Key3,
    Key4,
    A,
    B,
    C,
    D,
    E,
    F,
    G,
    H,
    L,
    M,
    R,
    F1,
    F2,
    F3,
    F4,
    F5,
    F10,
    Left,
    Right,
    Down,
    Home,
    End,
    PageUp,
    PageDown,
    Return,
    Space,
    Minus,
    Backslash,
    LControl,
}

/// The keys that were let go since the last frame.
#[derive(Debug)]
pub struct KeyInput {
    pub released: Vec<KeyCode>,
}

impl KeyInput {
    /// Whether `key` was let go since the last frame.
    pub fn just_released(&self, key: KeyCode) -> (r: bool)
        ensures
            r == self.released@.contains(key),
    {
        let n = self.released.len();
        let mut i: usize = 0;
        while i < n
            invariant
                i <= n,
                n == self.released@.len(),
                forall|j: int| 0 <= j < i ==> self.released@[j] != key,
            decreases n - i,
        {
            if self.released[i] == key {
                return true;
            }
            i += 1;
        }
        false
    }
}

/// A key and the command it gives.
#[derive(Debug)]
pub struct Binding<C> {
    pub key: KeyCode,
    pub command: C,
}

/// The command of the first binding of `bindings` whose key is among
/// `released`: where several bound keys are let go in one frame, the one
/// that stands first in the table wins, and the others are ignored.
pub open spec fn first_released<C>(bindings: Seq<Binding<C>>, released: Seq<KeyCode>) -> Option<C>
    decreases bindings.len(),
{
    if bindings.len() == 0 {
        None
    } else if released.contains(bindings[0].key) {
        Some(bindings[0].command)
    } else {
        first_released(bindings.skip(1), released)
    }
}

/// `first_released` picks the binding with the least index whose key was
/// let go, and picks none exactly if no bound key was let go.
pub proof fn lemma_first_released<C>(bindings: Seq<Binding<C>>, released: Seq<KeyCode>)
    ensures
        first_released(bindings, released) is None <==> (forall|k: int|
            0 <= k < bindings.len() ==> !released.contains(#[trigger] bindings[k].key)),
        first_released(bindings, released) is Some ==> (exists|k: int|
            0 <= k < bindings.len() && released.contains(#[trigger] bindings[k].key)
                && first_released(bindings, released) == Some(bindings[k].command) && (forall|
                j: int,
            | 0 <= j < k ==> !released.contains(#[trigger] bindings[j].key))),
    decreases bindings.len(),
{
    if bindings.len() == 0 {
    } else if released.contains(bindings[0].key) {
        assert(forall|j: int| 0 <= j < 0 ==> !released.contains(#[trigger] bindings[j].key));
    } else {
        let rest = bindings.skip(1);
        lemma_first_released(rest, released);
        assert(forall|k: int| 0 <= k < rest.len() ==> rest[k] == bindings[k + 1]);
        if first_released(rest, released) is None {
            assert forall|k: int| 0 <= k < bindings.len() implies !released.contains(
                #[trigger] bindings[k].key,
            ) by {
                if k > 0 {
                    assert(rest[k - 1] == bindings[k]);
                }
            }
        } else {
            let k0 = choose|k: int|
                0 <= k < rest.len() && released.contains(#[trigger] rest[k].key)
                    && first_released(rest, released) == Some(rest[k].command) && (forall|j: int|
                    0 <= j < k ==> !released.contains(#[trigger] rest[j].key));
            let k = k0 + 1;
            assert(bindings[k] == rest[k0]);
            assert forall|j: int| 0 <= j < k implies !released.contains(
                #[trigger] bindings[j].key,
            ) by {
                if j > 0 {
                    assert(rest[j - 1] == bindings[j]);
                }
            }
            assert(0 <= k < bindings.len() && released.contains(bindings[k].key)
                && first_released(bindings, released) == Some(bindings[k].command));
        }
    }
}

/// Looks the released keys up in a table of bindings.
pub fn dispatch<C: Copy>(bindings: &Vec<Binding<C>>, input: &KeyInput) -> (r: Option<C>)
    ensures
        r == first_released(bindings@, input.released@),
{
    let n = bindings.len();
    let mut i: usize = 0;
    assert(bindings@.skip(0) =~= bindings@);
    while i < n
        invariant
            i <= n,
            n == bindings@.len(),
            first_released(bindings@, input.released@) == first_released(
                bindings@.skip(i as int),
                input.released@,
            ),
        decreases n - i,
    {
        proof {
            let rest = bindings@.skip(i as int);
            assert(rest[0] == bindings@[i as int]);
            assert(rest.skip(1) =~= bindings@.skip(i as int + 1));
        }
        if input.just_released(bindings[i].key) {
            return Some(bindings[i].command);
        }
        i += 1;
    }
    proof {
        assert(bindings@.skip(n as int).len() == 0);
    }
    None
}

/// What the buttons of the mouse did since the last frame.
#[derive(Copy, Clone, Debug, PartialEq, Eq, Structural)]
pub struct MouseButtons {
    pub left_just_released: bool,
    pub right_just_pressed: bool,
    pub right_just_released: bool,
    pub right_pressed: bool,
}

/// What the viewer makes of the mouse in one frame.
#[derive(Copy, Clone, Debug, PartialEq, Eq, Structural)]
pub enum MouseAction {
    /// Nothing.
    Ignore,
    /// A click where the cursor stands.
    Click,
    /// A drag for every move of the mouse that was reported.
    DragByMotion,
    /// A drag for every turn of the wheel that was reported.
    DragByWheel,
}

/// The unit in which a turn of the wheel is reported.
#[derive(Copy, Clone, Debug, PartialEq, Eq, Structural)]
pub enum MouseScrollUnit {
    Line,
    Pixel,
}

/// How the bars of a tab are laid out.
#[derive(Copy, Clone, Debug, PartialEq, Eq, Structural)]
pub enum LayoutMode {
    Grid,
    Line,
}

/// How a turn of the wheel becomes a drag.
#[derive(Copy, Clone, Debug, PartialEq, Eq, Structural)]
pub struct WheelDrag {
    /// Both parts of the turn are multiplied by the size of a line.
    pub scale_by_line_size: bool,
    /// The two parts of the turn change places.
    pub swap_axes: bool,
}

/// How a turn of the wheel becomes a drag: a turn reported in lines is
/// scaled to pixels, and where the bars stand in one line the wheel moves
/// along that line.
pub fn wheel_drag(unit: MouseScrollUnit, mode: LayoutMode) -> (r: WheelDrag)
    ensures
        r.scale_by_line_size == (unit == MouseScrollUnit::Line),
        r.swap_axes == (mode == LayoutMode::Line),
{
    WheelDrag {
        scale_by_line_size: unit == MouseScrollUnit::Line,
        swap_axes: mode == LayoutMode::Line,
    }
}

/// What one finger on the screen did since the last frame.
#[derive(Copy, Clone, Debug, PartialEq, Eq, Structural)]
pub struct Finger {
    pub just_pressed: bool,
    pub just_released: bool,
}

/// What the viewer makes of one finger in one frame.
#[derive(Copy, Clone, Debug, PartialEq, Eq, Structural)]
pub enum TouchAction {
    /// Nothing.
    Ignore,
    /// A click where the finger stands, and a note of it on screen.
    Click,
    /// The note on screen is taken away.
    ClearNote,
    /// A note of where the finger stands is put on screen.
    ShowNote,
}

/// What one finger gives: a click when it comes down, if there is a window
/// to click in; nothing left on screen when it goes up; a note on screen
/// while it rests.
pub open spec fn finger_action(finger: Finger, has_window: bool) -> TouchAction {
    if finger.just_pressed {
        if has_window {
            TouchAction::Click
        } else {
            TouchAction::Ignore
        }
    } else if finger.just_released {
        TouchAction::ClearNote
    } else {
        TouchAction::ShowNote
    }
}

/// What each of the fingers gives, in their order.
pub fn touch_actions(fingers: &Vec<Finger>, has_window: bool) -> (actions: Vec<TouchAction>)
    ensures
        actions@.len() == fingers@.len(),
        forall|i: int|
            0 <= i < fingers@.len() ==> #[trigger] actions@[i] == finger_action(
                fingers@[i],
                has_window,
            ),
{
    let mut actions: Vec<TouchAction> = Vec::new();
    let n = fingers.len();
    let mut i: usize = 0;
    while i < n
        invariant
            i <= n,
            n == fingers@.len(),
            actions@.len() == i,
            forall|j: int|
                0 <= j < i ==> #[trigger] actions@[j] == finger_action(fingers@[j], has_window),
        decreases n - i,
    {
        let finger = fingers[i];
        let action = if finger.just_pressed {
            if has_window {
                TouchAction::Click
            } else {
                TouchAction::Ignore
            }
        } else if finger.just_released {
            TouchAction::ClearNote
        } else {
            TouchAction::ShowNote
        };
        actions.push(action);
        i += 1;
    }
    actions
}

} // verus!
