use wdotool::errors::WdError;
use wdotool::input::{
    click_plan, key_press_plan, move_mouse_plan, InputAction, MouseButton, BTN_LEFT, BTN_RIGHT,
};
use wdotool::value::UIntValue;

#[test]
fn left_click_presses_then_releases_around_the_sleep() {
    let plan = click_plan(MouseButton::Left, &UIntValue::UInt(5), None).unwrap();
    assert_eq!(
        plan,
        vec![
            InputAction::Button { code: 272, pressed: true },
            InputAction::Roundtrip,
            InputAction::SleepMs(5),
            InputAction::Button { code: 272, pressed: false },
            InputAction::Roundtrip,
        ]
    );
}

#[test]
fn right_click_uses_the_right_button_code() {
    let plan = click_plan(MouseButton::Right, &UIntValue::UInt(30), None).unwrap();
    assert_eq!(plan[0], InputAction::Button { code: 273, pressed: true });
    assert_eq!(plan[3], InputAction::Button { code: 273, pressed: false });
    assert_eq!(BTN_LEFT, 272);
    assert_eq!(BTN_RIGHT, 273);
}

#[test]
fn key_press_holds_for_the_resolved_duration() {
    let plan = key_press_plan(30, &UIntValue::UInt(10), None).unwrap();
    assert_eq!(
        plan,
        vec![
            InputAction::Key { key: 30, pressed: true },
            InputAction::Roundtrip,
            InputAction::SleepMs(10),
            InputAction::Key { key: 30, pressed: false },
            InputAction::Roundtrip,
        ]
    );
}

#[test]
fn ranged_duration_is_clamped_before_it_enters_the_plan() {
    let plan = click_plan(MouseButton::Left, &UIntValue::UIntRange(10, 20), Some(100)).unwrap();
    assert_eq!(plan[2], InputAction::SleepMs(20));
}

#[test]
fn sampling_failure_plans_nothing() {
    assert_eq!(
        click_plan(MouseButton::Left, &UIntValue::UIntRange(1, 5), None),
        Err(WdError::Sampling)
    );
    assert_eq!(
        key_press_plan(30, &UIntValue::UIntRange(1, 5), None),
        Err(WdError::Sampling)
    );
}

#[test]
fn move_mouse_is_one_motion_and_a_roundtrip() {
    let plan = move_mouse_plan(
        &UIntValue::UInt(100),
        &UIntValue::UInt(200),
        1920,
        1080,
        None,
        None,
    )
    .unwrap();
    assert_eq!(
        plan,
        vec![
            InputAction::MotionAbsolute { x: 100, y: 200, x_extent: 1920, y_extent: 1080 },
            InputAction::Roundtrip,
        ]
    );
}

#[test]
fn move_mouse_jitter_is_clamped_into_its_range() {
    let plan = move_mouse_plan(
        &UIntValue::UIntRange(90, 110),
        &UIntValue::UInt(200),
        1920,
        1080,
        Some(3),
        None,
    )
    .unwrap();
    assert_eq!(
        plan[0],
        InputAction::MotionAbsolute { x: 90, y: 200, x_extent: 1920, y_extent: 1080 }
    );
}
