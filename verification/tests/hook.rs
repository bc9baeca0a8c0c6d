use langswitch::hook::{
    low_level_keyboard_proc, HookAction, HookState, KeyEvent, VK_LCONTROL, VK_LMENU, VK_LSHIFT,
    VK_RCONTROL, VK_RMENU, VK_RSHIFT, WM_KEYDOWN, WM_SYSKEYDOWN,
};

const WM_KEYUP: usize = 0x0101;
const WM_SYSKEYUP: usize = 0x0105;

fn key(vk: u16, w_param: usize) -> KeyEvent {
    KeyEvent { hook_enabled: true, n_code: 0, vk_code: vk as u32, w_param }
}

fn down(vk: u16) -> KeyEvent {
    key(vk, WM_KEYDOWN as usize)
}

fn up(vk: u16) -> KeyEvent {
    key(vk, WM_KEYUP)
}

fn feed(state: &mut HookState, events: &[KeyEvent]) -> Vec<HookAction> {
    events.iter().map(|e| low_level_keyboard_proc(state, e)).collect()
}

#[test]
fn new_state_is_idle() {
    let s = HookState::new();
    assert!(!s.combo_fired);
    assert!(!s.modifiers.lctrl && !s.modifiers.rctrl && !s.modifiers.lshift);
    assert!(!s.modifiers.rshift && !s.modifiers.lalt && !s.modifiers.ralt);
}

#[test]
fn left_ctrl_shift_switches_once_per_hold() {
    let mut s = HookState::new();
    let actions = feed(
        &mut s,
        &[down(VK_LCONTROL), down(VK_LSHIFT), down(VK_LSHIFT), down(VK_LCONTROL), up(VK_LSHIFT)],
    );
    assert_eq!(
        actions,
        vec![
            HookAction::CallNext,
            HookAction::SwitchLayout,
            HookAction::CallNext,
            HookAction::CallNext,
            HookAction::CallNext
        ]
    );
    assert!(s.combo_fired);
    assert!(s.modifiers.lctrl && !s.modifiers.lshift);
    // Shift again while Ctrl is still held: no second switch.
    assert_eq!(low_level_keyboard_proc(&mut s, &down(VK_LSHIFT)), HookAction::CallNext);
}

#[test]
fn release_of_all_modifiers_rearms() {
    let mut s = HookState::new();
    feed(&mut s, &[down(VK_LCONTROL), down(VK_LSHIFT), up(VK_LSHIFT)]);
    assert!(s.combo_fired);
    low_level_keyboard_proc(&mut s, &up(VK_LCONTROL));
    assert!(!s.combo_fired);
    let actions = feed(&mut s, &[down(VK_LSHIFT), down(VK_LCONTROL)]);
    assert_eq!(actions, vec![HookAction::CallNext, HookAction::SwitchLayout]);
}

#[test]
fn right_side_combinations_switch() {
    let mut s = HookState::new();
    let actions = feed(&mut s, &[down(VK_RCONTROL), down(VK_RSHIFT)]);
    assert_eq!(actions[1], HookAction::SwitchLayout);
    let mut s = HookState::new();
    let actions = feed(&mut s, &[down(VK_RSHIFT), key(VK_RMENU, WM_SYSKEYDOWN as usize)]);
    assert_eq!(actions[1], HookAction::SwitchLayout);
    let mut s = HookState::new();
    let actions = feed(&mut s, &[down(VK_LMENU), down(VK_LSHIFT)]);
    assert_eq!(actions[1], HookAction::SwitchLayout);
}

#[test]
fn mixed_sides_do_not_switch() {
    let mut s = HookState::new();
    let actions = feed(&mut s, &[down(VK_LCONTROL), down(VK_RSHIFT), down(VK_RMENU), down(VK_LMENU)]);
    assert_eq!(actions[0], HookAction::CallNext);
    assert_eq!(actions[1], HookAction::CallNext);
    // Right Alt with right Shift completes Shift+Alt on the right.
    assert_eq!(actions[2], HookAction::SwitchLayout);
    assert_eq!(actions[3], HookAction::CallNext);
    let mut s = HookState::new();
    let actions = feed(&mut s, &[down(VK_LCONTROL), down(VK_RSHIFT), down(VK_LMENU)]);
    assert!(actions.iter().all(|a| *a == HookAction::CallNext));
}

#[test]
fn ctrl_alt_is_no_combination() {
    let mut s = HookState::new();
    let actions = feed(&mut s, &[down(VK_LCONTROL), down(VK_LMENU), down(0x41)]);
    assert!(actions.iter().all(|a| *a == HookAction::CallNext));
    assert!(!s.combo_fired);
}

#[test]
fn disabled_hook_passes_everything_and_keeps_state() {
    let mut s = HookState::new();
    let mut e = down(VK_LCONTROL);
    e.hook_enabled = false;
    assert_eq!(low_level_keyboard_proc(&mut s, &e), HookAction::CallNext);
    assert_eq!(s, HookState::new());
}

#[test]
fn negative_code_passes_and_keeps_state() {
    let mut s = HookState::new();
    feed(&mut s, &[down(VK_LCONTROL)]);
    let before = s;
    let mut e = down(VK_LSHIFT);
    e.n_code = -1;
    assert_eq!(low_level_keyboard_proc(&mut s, &e), HookAction::CallNext);
    assert_eq!(s, before);
}

#[test]
fn sys_key_messages_count() {
    let mut s = HookState::new();
    low_level_keyboard_proc(&mut s, &key(VK_LMENU, WM_SYSKEYDOWN as usize));
    assert!(s.modifiers.lalt);
    low_level_keyboard_proc(&mut s, &key(VK_LMENU, WM_SYSKEYUP));
    assert!(!s.modifiers.lalt);
}

#[test]
fn key_code_and_message_are_truncated() {
    let mut s = HookState::new();
    let e = KeyEvent { hook_enabled: true, n_code: 0, vk_code: 0x1_00A2, w_param: 0x100 };
    low_level_keyboard_proc(&mut s, &e);
    assert!(s.modifiers.lctrl);
    let e = KeyEvent { hook_enabled: true, n_code: 0, vk_code: 0xA0, w_param: 0x0200_0100 };
    assert_eq!(low_level_keyboard_proc(&mut s, &e), HookAction::CallNext);
    assert!(!s.modifiers.lshift);
    if usize::BITS == 64 {
        let wide = (1usize << 32) | 0x100;
        let e = KeyEvent { hook_enabled: true, n_code: 0, vk_code: 0xA0, w_param: wide };
        assert_eq!(low_level_keyboard_proc(&mut s, &e), HookAction::SwitchLayout);
    }
}

#[test]
fn other_keys_leave_modifiers() {
    let mut s = HookState::new();
    feed(&mut s, &[down(VK_LSHIFT)]);
    let before = s;
    feed(&mut s, &[down(0x41), up(0x41)]);
    assert_eq!(s, before);
}
