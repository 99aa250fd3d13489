use rune_host::context::RuntimeContext;
use rune_host::input::{ActiveSet, GamepadButton, InputId, Key, KeyLocation, MouseButton, NamedKey};
use rune_host::surface::SurfaceConfig;

fn context_at_generation(g: u64) -> RuntimeContext {
    let config = SurfaceConfig { width: 1, height: 1, format: 0, present_mode: 0, alpha_mode: 0 };
    let mut ctx = RuntimeContext::new(1, config);
    for _ in 0..g {
        ctx.begin_logic_tick().unwrap();
    }
    ctx
}

fn key_k() -> InputId {
    InputId::Keyboard(Key::Character('k'), KeyLocation::Standard)
}

#[test]
fn key_edge_across_generations() {
    let mut ctx = context_at_generation(5);
    assert_eq!(ctx.generation, 5);
    ctx.input_event(key_k(), true);
    assert!(ctx.is_active(key_k()));
    assert!(ctx.just_became_active(key_k()));
    ctx.begin_logic_tick().unwrap();
    assert_eq!(ctx.generation, 6);
    assert!(ctx.is_active(key_k()));
    assert!(!ctx.just_became_active(key_k()));
    ctx.input_event(key_k(), false);
    assert!(!ctx.is_active(key_k()));
    assert!(!ctx.just_became_active(key_k()));
}

#[test]
fn repeated_press_keeps_first_activation() {
    let mut ctx = context_at_generation(2);
    ctx.input_event(key_k(), true);
    ctx.begin_logic_tick().unwrap();
    ctx.input_event(key_k(), true);
    assert!(ctx.is_active(key_k()));
    assert!(!ctx.just_became_active(key_k()));
}

#[test]
fn location_tells_keys_apart() {
    let mut ctx = context_at_generation(0);
    let left = InputId::Keyboard(Key::Named(NamedKey::Shift), KeyLocation::Left);
    let right = InputId::Keyboard(Key::Named(NamedKey::Shift), KeyLocation::Right);
    ctx.input_event(left, true);
    assert!(ctx.is_active(left));
    assert!(!ctx.is_active(right));
}

#[test]
fn gamepad_and_mouse_buttons_are_tracked() {
    let mut set = ActiveSet::new();
    let south = InputId::Gamepad(GamepadButton::South);
    let left = InputId::Mouse(MouseButton::Left);
    set.press(south, 3);
    set.press(left, 4);
    assert!(set.became_active_in(south, 3));
    assert!(!set.became_active_in(south, 4));
    assert!(set.became_active_in(left, 4));
    set.release(south);
    assert!(!set.is_active(south));
    assert!(set.is_active(left));
}

#[test]
fn release_of_inactive_input_changes_nothing() {
    let mut set = ActiveSet::new();
    let a = InputId::Keyboard(Key::Dead(None), KeyLocation::Standard);
    let b = InputId::Keyboard(Key::Unidentified, KeyLocation::Numpad);
    set.press(a, 1);
    set.release(b);
    assert!(set.is_active(a));
    assert!(!set.is_active(b));
}

#[test]
fn active_inputs_listed_once() {
    let mut ctx = context_at_generation(1);
    let a = InputId::Gamepad(GamepadButton::Start);
    let b = InputId::Mouse(MouseButton::Other(9));
    ctx.input_event(a, true);
    ctx.input_event(b, true);
    ctx.input_event(a, true);
    let mut listed = ctx.active_inputs();
    assert_eq!(listed.len(), 2);
    listed.retain(|x| *x == a);
    assert_eq!(listed, vec![a]);
    ctx.input_event(a, false);
    assert_eq!(ctx.active_inputs(), vec![b]);
}
