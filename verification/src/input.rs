//! Input-gesture plans: the exact action sequences the connection owner
//! must perform for pointer motion, clicks, and key presses.
//!
//! Each plan resolves its `UIntValue` parameters first (so a sampling
//! failure leaves no half-done gesture) and yields the full ordered
//! sequence of protocol actions; the connection owner performs them one
//! by one, in order.

use vstd::prelude::*;

use crate::errors::WdError;
use crate::value::UIntValue;

verus! {

/// The pointer-button code for a left click.
pub const BTN_LEFT: u32 = 272;

/// The pointer-button code for a right click.
pub const BTN_RIGHT: u32 = 273;

/// Which pointer button a click uses.
#[derive(Clone, Copy, Debug, PartialEq, Eq, Structural)]
pub enum MouseButton {
    Left,
    Right,
}

impl MouseButton {
    /// The protocol code of the button.
    pub open spec fn spec_code(self) -> u32 {
        match self {
            MouseButton::Left => 272,
            MouseButton::Right => 273,
        }
    }

    /// The protocol code of the button.
    pub fn code(&self) -> (r: u32)
        ensures
            r == self.spec_code(),
    {
        match self {
            MouseButton::Left => BTN_LEFT,
            MouseButton::Right => BTN_RIGHT,
        }
    }
}

/// One step of a gesture, performed by the connection owner in order.
#[derive(Clone, Copy, Debug, PartialEq, Eq, Structural)]
pub enum InputAction {
    /// Absolute pointer motion to `(x, y)` scaled against the extents.
    MotionAbsolute { x: u32, y: u32, x_extent: u32, y_extent: u32 },
    /// Press (`pressed`) or release a pointer button, by protocol code.
    Button { code: u32, pressed: bool },
    /// Press (`pressed == true`, state 1) or release (state 0) a key.
    Key { key: u32, pressed: bool },
    /// Flush all queued requests and wait until the resulting events
    /// are dispatched.
    Roundtrip,
    /// Pause for this many milliseconds.
    SleepMs(u32),
}

/// The plan for absolute pointer motion: one motion, one round-trip.
pub open spec fn spec_move_mouse_plan(x: u32, y: u32, x_extent: u32, y_extent: u32) -> Seq<
    InputAction,
> {
    seq![
        InputAction::MotionAbsolute { x, y, x_extent, y_extent },
        InputAction::Roundtrip,
    ]
}

/// The plan for a click: press, round-trip, hold for the resolved
/// duration, release, round-trip.
pub open spec fn spec_click_plan(button: MouseButton, duration_ms: u32) -> Seq<InputAction> {
    seq![
        InputAction::Button { code: button.spec_code(), pressed: true },
        InputAction::Roundtrip,
        InputAction::SleepMs(duration_ms),
        InputAction::Button { code: button.spec_code(), pressed: false },
        InputAction::Roundtrip,
    ]
}

/// The plan for a key press: press, round-trip, hold for the resolved
/// duration, release, round-trip.
pub open spec fn spec_key_press_plan(key: u32, duration_ms: u32) -> Seq<InputAction> {
    seq![
        InputAction::Key { key, pressed: true },
        InputAction::Roundtrip,
        InputAction::SleepMs(duration_ms),
        InputAction::Key { key, pressed: false },
        InputAction::Roundtrip,
    ]
}

/// Plan a pointer move. `x_draw` and `y_draw` are the normal samples for
/// the two coordinates (needed only where the coordinate is a range).
pub fn move_mouse_plan(
    x: &UIntValue,
    y: &UIntValue,
    x_extent: u32,
    y_extent: u32,
    x_draw: Option<u32>,
    y_draw: Option<u32>,
) -> (r: Result<Vec<InputAction>, WdError>)
    requires
        x.wf(),
        y.wf(),
    ensures
        match (x.spec_resolve(x_draw), y.spec_resolve(y_draw)) {
            (Ok(rx), Ok(ry)) => r matches Ok(p) && p@ == spec_move_mouse_plan(
                rx,
                ry,
                x_extent,
                y_extent,
            ),
            (Err(e), _) => r == Err::<Vec<InputAction>, WdError>(e),
            (_, Err(e)) => r == Err::<Vec<InputAction>, WdError>(e),
        },
{
    let rx = match x.get(x_draw) {
        Ok(v) => v,
        Err(e) => {
            return Err(e);
        },
    };
    let ry = match y.get(y_draw) {
        Ok(v) => v,
        Err(e) => {
            return Err(e);
        },
    };
    let mut plan: Vec<InputAction> = Vec::new();
    plan.push(InputAction::MotionAbsolute { x: rx, y: ry, x_extent, y_extent });
    plan.push(InputAction::Roundtrip);
    proof {
        assert(plan@ =~= spec_move_mouse_plan(rx, ry, x_extent, y_extent));
    }
    Ok(plan)
}

/// Plan a click of the given button, held for the resolved duration.
pub fn click_plan(button: MouseButton, duration_ms: &UIntValue, draw: Option<u32>) -> (r: Result<
    Vec<InputAction>,
    WdError,
>)
    requires
        duration_ms.wf(),
    ensures
        match duration_ms.spec_resolve(draw) {
            Ok(d) => r matches Ok(p) && p@ == spec_click_plan(button, d),
            Err(e) => r == Err::<Vec<InputAction>, WdError>(e),
        },
{
    let d = match duration_ms.get(draw) {
        Ok(v) => v,
        Err(e) => {
            return Err(e);
        },
    };
    let code = button.code();
    let mut plan: Vec<InputAction> = Vec::new();
    plan.push(InputAction::Button { code, pressed: true });
    plan.push(InputAction::Roundtrip);
    plan.push(InputAction::SleepMs(d));
    plan.push(InputAction::Button { code, pressed: false });
    plan.push(InputAction::Roundtrip);
    proof {
        assert(plan@ =~= spec_click_plan(button, d));
    }
    Ok(plan)
}

/// Plan a key press of the given key code, held for the resolved
/// duration.
pub fn key_press_plan(key: u32, duration_ms: &UIntValue, draw: Option<u32>) -> (r: Result<
    Vec<InputAction>,
    WdError,
>)
    requires
        duration_ms.wf(),
    ensures
        match duration_ms.spec_resolve(draw) {
            Ok(d) => r matches Ok(p) && p@ == spec_key_press_plan(key, d),
            Err(e) => r == Err::<Vec<InputAction>, WdError>(e),
        },
{
    let d = match duration_ms.get(draw) {
        Ok(v) => v,
        Err(e) => {
            return Err(e);
        },
    };
    let mut plan: Vec<InputAction> = Vec::new();
    plan.push(InputAction::Key { key, pressed: true });
    plan.push(InputAction::Roundtrip);
    plan.push(InputAction::SleepMs(d));
    plan.push(InputAction::Key { key, pressed: false });
    plan.push(InputAction::Roundtrip);
    proof {
        assert(plan@ =~= spec_key_press_plan(key, d));
    }
    Ok(plan)
}

/// Whether the action presses (rather than releases) a button or key.
pub open spec fn is_press(a: InputAction) -> bool {
    match a {
        InputAction::Button { pressed, .. } => pressed,
        InputAction::Key { pressed, .. } => pressed,
        _ => false,
    }
}

/// Whether the action releases a button or key.
pub open spec fn is_release(a: InputAction) -> bool {
    match a {
        InputAction::Button { pressed, .. } => !pressed,
        InputAction::Key { pressed, .. } => !pressed,
        InputAction::MotionAbsolute { .. } => false,
        InputAction::Roundtrip => false,
        InputAction::SleepMs(_) => false,
    }
}

/// Law: every click plan presses strictly before it releases, and the
/// two are separated by exactly a round-trip and a sleep of the resolved
/// duration, with a final round-trip after the release.
pub proof fn lemma_click_plan_press_before_release(button: MouseButton, duration_ms: u32)
    ensures
        ({
            let p = spec_click_plan(button, duration_ms);
            &&& p.len() == 5
            &&& is_press(p[0])
            &&& p[1] == InputAction::Roundtrip
            &&& p[2] == InputAction::SleepMs(duration_ms)
            &&& is_release(p[3])
            &&& p[4] == InputAction::Roundtrip
            &&& forall|i: int| 0 <= i < p.len() && is_release(p[i]) ==> i == 3
            &&& forall|i: int| 0 <= i < p.len() && is_press(p[i]) ==> i == 0
        }),
{
}

/// Law: every key-press plan presses strictly before it releases, and
/// the two are separated by exactly a round-trip and a sleep of the
/// resolved duration, with a final round-trip after the release.
pub proof fn lemma_key_press_plan_press_before_release(key: u32, duration_ms: u32)
    ensures
        ({
            let p = spec_key_press_plan(key, duration_ms);
            &&& p.len() == 5
            &&& is_press(p[0])
            &&& p[1] == InputAction::Roundtrip
            &&& p[2] == InputAction::SleepMs(duration_ms)
            &&& is_release(p[3])
            &&& p[4] == InputAction::Roundtrip
            &&& forall|i: int| 0 <= i < p.len() && is_release(p[i]) ==> i == 3
            &&& forall|i: int| 0 <= i < p.len() && is_press(p[i]) ==> i == 0
        }),
{
}

} // verus!
