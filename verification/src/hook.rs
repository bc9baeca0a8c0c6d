use vstd::prelude::*;

verus! {

/// Virtual-key code of the left Shift key.
pub const VK_LSHIFT: u16 = 0xA0;
/// Virtual-key code of the right Shift key.
pub const VK_RSHIFT: u16 = 0xA1;
/// Virtual-key code of the left Ctrl key.
pub const VK_LCONTROL: u16 = 0xA2;
/// Virtual-key code of the right Ctrl key.
pub const VK_RCONTROL: u16 = 0xA3;
/// Virtual-key code of the left Alt key.
pub const VK_LMENU: u16 = 0xA4;
/// Virtual-key code of the right Alt key.
pub const VK_RMENU: u16 = 0xA5;
/// Message of a key going down.
pub const WM_KEYDOWN: u32 = 0x0100;
/// Message of a key going down while Alt is held.
pub const WM_SYSKEYDOWN: u32 = 0x0104;

/// Which of the six modifier keys are held.
#[derive(Clone, Copy, Debug, PartialEq, Eq, Structural)]
pub struct Modifiers {
    pub lctrl: bool,
    pub rctrl: bool,
    pub lshift: bool,
    pub rshift: bool,
    pub lalt: bool,
    pub ralt: bool,
}

/// What the keyboard hook remembers between key events.
#[derive(Clone, Copy, Debug, PartialEq, Eq, Structural)]
pub struct HookState {
    pub modifiers: Modifiers,
    /// The switch combination has fired during the current hold.
    pub combo_fired: bool,
}

/// One low-level keyboard event as the hook sees it.
#[derive(Clone, Copy, Debug, PartialEq, Eq, Structural)]
pub struct KeyEvent {
    /// Interception is switched on in the tray menu.
    pub hook_enabled: bool,
    /// The hook code; negative codes must go straight to the next hook.
    pub n_code: i32,
    /// The virtual-key code of the event.
    pub vk_code: u32,
    /// The keyboard message.
    pub w_param: usize,
}

/// What the hook does with an event.
#[derive(Clone, Copy, Debug, PartialEq, Eq, Structural)]
pub enum HookAction {
    /// Hand the event on to the next hook.
    CallNext,
    /// Ask for the next layout and swallow the event.
    SwitchLayout,
}

/// The key of an event: the low 16 bits of its virtual-key code.
pub open spec fn key_of(vk_code: u32) -> int {
    vk_code as int % 0x10000
}

/// The event is a key going down: its message, taken to 32 bits, is a key-down message.
pub open spec fn is_key_down(w_param: usize) -> bool {
    w_param as int % 0x1_0000_0000 == WM_KEYDOWN as int || w_param as int % 0x1_0000_0000
        == WM_SYSKEYDOWN as int
}

/// `key` is one of the six modifier keys.
pub open spec fn is_modifier_key(key: int) -> bool {
    VK_LSHIFT as int <= key <= VK_RMENU as int
}

/// Whether `key` is held in `m` (false for a key that is not a modifier).
pub open spec fn is_pressed(m: Modifiers, key: int) -> bool {
    if key == VK_LCONTROL as int {
        m.lctrl
    } else if key == VK_RCONTROL as int {
        m.rctrl
    } else if key == VK_LSHIFT as int {
        m.lshift
    } else if key == VK_RSHIFT as int {
        m.rshift
    } else if key == VK_LMENU as int {
        m.lalt
    } else if key == VK_RMENU as int {
        m.ralt
    } else {
        false
    }
}

/// `m` after `key` went down (`down`) or up; other keys leave `m` as it is.
pub open spec fn with_key(m: Modifiers, key: int, down: bool) -> Modifiers {
    if key == VK_LCONTROL as int {
        Modifiers { lctrl: down, ..m }
    } else if key == VK_RCONTROL as int {
        Modifiers { rctrl: down, ..m }
    } else if key == VK_LSHIFT as int {
        Modifiers { lshift: down, ..m }
    } else if key == VK_RSHIFT as int {
        Modifiers { rshift: down, ..m }
    } else if key == VK_LMENU as int {
        Modifiers { lalt: down, ..m }
    } else if key == VK_RMENU as int {
        Modifiers { ralt: down, ..m }
    } else {
        m
    }
}

/// Ctrl+Shift or Shift+Alt is held, both keys on the same side.
pub open spec fn combo_active(m: Modifiers) -> bool {
    (m.lctrl && m.lshift) || (m.rctrl && m.rshift) || (m.lshift && m.lalt) || (m.rshift && m.ralt)
}

/// No modifier key is held.
pub open spec fn all_released(m: Modifiers) -> bool {
    !m.lctrl && !m.rctrl && !m.lshift && !m.rshift && !m.lalt && !m.ralt
}

/// The hook is active for this event: interception is on and the code is not negative.
pub open spec fn hook_active(e: KeyEvent) -> bool {
    e.n_code >= 0 && e.hook_enabled
}

/// One event handled by the hook: the modifiers follow the key; the first time
/// a combination is held the layout is switched and the event swallowed; once
/// every modifier is up the combination may fire again.
pub open spec fn hook_step(s: HookState, e: KeyEvent) -> (HookState, HookAction) {
    if !hook_active(e) {
        (s, HookAction::CallNext)
    } else {
        let m = with_key(s.modifiers, key_of(e.vk_code), is_key_down(e.w_param));
        if combo_active(m) && !s.combo_fired {
            (HookState { modifiers: m, combo_fired: true }, HookAction::SwitchLayout)
        } else if all_released(m) {
            (HookState { modifiers: m, combo_fired: false }, HookAction::CallNext)
        } else {
            (HookState { modifiers: m, combo_fired: s.combo_fired }, HookAction::CallNext)
        }
    }
}

/// A state the hook can be in: the combination only counts as fired while
/// some modifier is still held, and a held combination has always fired.
pub open spec fn hook_state_valid(s: HookState) -> bool {
    &&& s.combo_fired ==> !all_released(s.modifiers)
    &&& combo_active(s.modifiers) ==> s.combo_fired
}

/// The state after a run of events and the number of layout switches it made.
pub open spec fn hook_run(s: HookState, events: Seq<KeyEvent>) -> (HookState, nat)
    decreases events.len(),
{
    if events.len() == 0 {
        (s, 0)
    } else {
        let (t, n) = hook_run(s, events.drop_last());
        let (u, a) = hook_step(t, events.last());
        (u, if a == HookAction::SwitchLayout { n + 1 } else { n })
    }
}

impl HookState {
    /// The state at start-up: nothing held, nothing fired.
    pub fn new() -> (s: HookState)
        ensures
            all_released(s.modifiers),
            !s.combo_fired,
            hook_state_valid(s),
    {
        HookState {
            modifiers: Modifiers {
                lctrl: false,
                rctrl: false,
                lshift: false,
                rshift: false,
                lalt: false,
                ralt: false,
            },
            combo_fired: false,
        }
    }
}

/// Handles one low-level keyboard event: tracks the six modifier keys, and on
/// Ctrl+Shift or Shift+Alt (one side) asks once per hold for a layout switch,
/// swallowing that event; every other event goes on to the next hook.
pub fn low_level_keyboard_proc(state: &mut HookState, event: &KeyEvent) -> (action: HookAction)
    ensures
        (*final(state), action) == hook_step(*old(state), *event),
{
    if event.n_code < 0 || !event.hook_enabled {
        return HookAction::CallNext;
    }
    let vk_code = event.vk_code;
    let w_param = event.w_param as u64;
    let low_key = vk_code & 0xFFFF;
    let low_msg = w_param & 0xFFFF_FFFF;
    proof {
        assert(vk_code & 0xFFFF == vk_code % 0x10000) by (bit_vector);
        assert(w_param & 0xFFFF_FFFF == w_param % 0x1_0000_0000) by (bit_vector);
    }
    let vk = low_key as u16;
    let msg = low_msg as u32;
    let is_down = msg == WM_KEYDOWN || msg == WM_SYSKEYDOWN;

    if vk == VK_LCONTROL {
        state.modifiers.lctrl = is_down;
    } else if vk == VK_RCONTROL {
        state.modifiers.rctrl = is_down;
    } else if vk == VK_LSHIFT {
        state.modifiers.lshift = is_down;
    } else if vk == VK_RSHIFT {
        state.modifiers.rshift = is_down;
    } else if vk == VK_LMENU {
        state.modifiers.lalt = is_down;
    } else if vk == VK_RMENU {
        state.modifiers.ralt = is_down;
    }

    let m = state.modifiers;
    let combo_ctrl_shift = (m.lctrl && m.lshift) || (m.rctrl && m.rshift);
    let combo_shift_alt = (m.lshift && m.lalt) || (m.rshift && m.ralt);
    let combo = combo_ctrl_shift || combo_shift_alt;

    if combo && !state.combo_fired {
        state.combo_fired = true;
        return HookAction::SwitchLayout;
    }
    if !m.lctrl && !m.rctrl && !m.lshift && !m.rshift && !m.lalt && !m.ralt {
        state.combo_fired = false;
    }
    HookAction::CallNext
}

/// With interception off, or for a negative hook code, the event goes on to the
/// next hook and the hook's state does not change.
pub proof fn lemma_inactive_passes_through(s: HookState, e: KeyEvent)
    requires
        !hook_active(e),
    ensures
        hook_step(s, e) == (s, HookAction::CallNext),
{
}

/// While active, the hook follows each modifier key: after an event for a
/// modifier, that key is held exactly when the event is a key-down; every other
/// key keeps its state; an event for any other key leaves the modifiers as they were.
pub proof fn lemma_tracks_modifiers(s: HookState, e: KeyEvent, key: int)
    requires
        hook_active(e),
    ensures
        key == key_of(e.vk_code) && is_modifier_key(key) ==> is_pressed(
            hook_step(s, e).0.modifiers,
            key,
        ) == is_key_down(e.w_param),
        key != key_of(e.vk_code) ==> is_pressed(hook_step(s, e).0.modifiers, key) == is_pressed(
            s.modifiers,
            key,
        ),
        !is_modifier_key(key_of(e.vk_code)) ==> hook_step(s, e).0.modifiers == s.modifiers,
{
}

/// An event switches the layout exactly when the hook is active, the
/// modifiers after it form a combination, and the combination has not yet
/// fired in this hold; a switch always marks the combination as fired.
pub proof fn lemma_switch_exactly_on_new_combo(s: HookState, e: KeyEvent)
    ensures
        (hook_step(s, e).1 == HookAction::SwitchLayout) <==> (hook_active(e) && combo_active(
            hook_step(s, e).0.modifiers,
        ) && !s.combo_fired),
        hook_step(s, e).1 == HookAction::SwitchLayout ==> hook_step(s, e).0.combo_fired,
{
}

/// Once an active event leaves every modifier up, the combination is armed again.
pub proof fn lemma_release_rearms(s: HookState, e: KeyEvent)
    requires
        hook_active(e),
        all_released(hook_step(s, e).0.modifiers),
    ensures
        !hook_step(s, e).0.combo_fired,
{
}

/// Every event keeps the hook's state valid.
pub proof fn lemma_step_keeps_state_valid(s: HookState, e: KeyEvent)
    requires
        hook_state_valid(s),
    ensures
        hook_state_valid(hook_step(s, e).0),
{
}

/// Holding the keys down fires the combination once: over a run of events
/// after each of which some modifier is still held, the layout is switched at
/// most once, and not at all if the combination had already fired.
pub proof fn lemma_one_switch_per_hold(s: HookState, events: Seq<KeyEvent>)
    requires
        forall|k: int|
            1 <= k <= events.len() ==> !all_released(
                (#[trigger] hook_run(s, events.take(k))).0.modifiers,
            ),
    ensures
        hook_run(s, events).1 <= 1,
        s.combo_fired ==> hook_run(s, events).1 == 0,
        (s.combo_fired || hook_run(s, events).1 == 1) ==> hook_run(s, events).0.combo_fired,
    decreases events.len(),
{
    if events.len() > 0 {
        let p = events.drop_last();
        assert forall|k: int| 1 <= k <= p.len() implies !all_released(
            (#[trigger] hook_run(s, p.take(k))).0.modifiers,
        ) by {
            assert(p.take(k) =~= events.take(k));
            assert(!all_released(hook_run(s, events.take(k)).0.modifiers));
        }
        lemma_one_switch_per_hold(s, p);
        assert(events.take(events.len() as int) =~= events);
        assert(!all_released(hook_run(s, events.take(events.len() as int)).0.modifiers));
    }
}

/// Only Shift together with a Ctrl or an Alt of the same side switches the
/// layout: after a switching event the left Shift is held with the left Ctrl or
/// left Alt, or the right Shift with the right Ctrl or right Alt. Ctrl and Alt
/// held without Shift (as AltGr sends them) never switch.
pub proof fn lemma_switch_needs_same_side_shift(s: HookState, e: KeyEvent)
    ensures
        hook_step(s, e).1 == HookAction::SwitchLayout ==> {
            let m = hook_step(s, e).0.modifiers;
            (m.lshift && (m.lctrl || m.lalt)) || (m.rshift && (m.rctrl || m.ralt))
        },
        hook_step(s, e).1 == HookAction::SwitchLayout ==> !s.combo_fired && e.n_code >= 0
            && e.hook_enabled,
{
}

/// Every same-side Shift pair fires when it is newly held: if an active event
/// leaves the left Shift with the left Ctrl or Alt, or the right Shift with the
/// right Ctrl or Alt, and nothing has fired in this hold, the layout switches.
pub proof fn lemma_same_side_shift_pair_switches(s: HookState, e: KeyEvent)
    requires
        e.n_code >= 0,
        e.hook_enabled,
        !s.combo_fired,
        ({
            let m = hook_step(s, e).0.modifiers;
            (m.lshift && (m.lctrl || m.lalt)) || (m.rshift && (m.rctrl || m.ralt))
        }),
    ensures
        hook_step(s, e).1 == HookAction::SwitchLayout,
{
}

/// Which flag each key code moves, and how: on an active event the code
/// (taken to 16 bits) 0xA2/0xA3 sets left/right Ctrl, 0xA0/0xA1 left/right
/// Shift, 0xA4/0xA5 left/right Alt, to held exactly when the message (taken to
/// 32 bits) is 0x100 or 0x104; any other code moves no flag, and no event moves
/// a flag of another key.
pub proof fn lemma_key_codes_move_their_flag(s: HookState, e: KeyEvent)
    requires
        e.n_code >= 0,
        e.hook_enabled,
    ensures
        ({
            let old_m = s.modifiers;
            let m = hook_step(s, e).0.modifiers;
            let k = e.vk_code as int % 0x10000;
            let down = e.w_param as int % 0x1_0000_0000 == 0x100 || e.w_param as int % 0x1_0000_0000
                == 0x104;
            &&& m.lctrl == (if k == 0xA2 { down } else { old_m.lctrl })
            &&& m.rctrl == (if k == 0xA3 { down } else { old_m.rctrl })
            &&& m.lshift == (if k == 0xA0 { down } else { old_m.lshift })
            &&& m.rshift == (if k == 0xA1 { down } else { old_m.rshift })
            &&& m.lalt == (if k == 0xA4 { down } else { old_m.lalt })
            &&& m.ralt == (if k == 0xA5 { down } else { old_m.ralt })
        }),
{
}

/// Letting go of every modifier re-arms the hotkey: after an active event that
/// leaves all six modifier flags clear, nothing counts as fired and the event is
/// handed on; while any flag stays set, a fired combination stays fired.
pub proof fn lemma_letting_go_rearms(s: HookState, e: KeyEvent)
    requires
        e.n_code >= 0,
        e.hook_enabled,
    ensures
        ({
            let (t, a) = hook_step(s, e);
            let m = t.modifiers;
            let none_held = !m.lctrl && !m.rctrl && !m.lshift && !m.rshift && !m.lalt && !m.ralt;
            &&& none_held ==> !t.combo_fired && a == HookAction::CallNext
            &&& !none_held && s.combo_fired ==> t.combo_fired && a == HookAction::CallNext
        }),
{
}

} // verus!
