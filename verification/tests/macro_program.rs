use bns_macros::hook::{dll_main_action, hook_button, macro_tick, DllAction, MacroAction, MacroKeys, HC_ACTION, WM_KEYDOWN};
use bns_macros::keys::{VK_F23, VK_F24};

const UP: MacroKeys = MacroKeys { f1: 0, ctrl: 0, f12: 0, f4: 0, f23: 0, f24: 0 };
const HELD: i16 = -32768;

#[test]
fn hook_looks_for_the_held_macro_button() {
    assert_eq!(hook_button(true, WM_KEYDOWN, HC_ACTION, HELD, 0), Some(VK_F23));
    assert_eq!(hook_button(true, WM_KEYDOWN, HC_ACTION, HELD, HELD), Some(VK_F23));
    assert_eq!(hook_button(true, WM_KEYDOWN, HC_ACTION, 0, HELD), Some(VK_F24));
    assert_eq!(hook_button(true, WM_KEYDOWN, HC_ACTION, 1, 1), None);
    assert_eq!(hook_button(false, WM_KEYDOWN, HC_ACTION, HELD, 0), None);
    assert_eq!(hook_button(true, 0x0101, HC_ACTION, HELD, 0), None);
    assert_eq!(hook_button(true, WM_KEYDOWN, 3, HELD, 0), None);
}

#[test]
fn main_loop_actions_in_order() {
    assert_eq!(macro_tick(UP), vec![]);
    assert_eq!(
        macro_tick(MacroKeys { f1: HELD, f23: HELD, f24: HELD, ..UP }),
        vec![
            MacroAction::ShowPixel,
            MacroAction::Rotation { button: VK_F23, dps: true },
            MacroAction::Rotation { button: VK_F24, dps: false },
        ]
    );
    assert_eq!(macro_tick(MacroKeys { ctrl: HELD, f4: HELD, ..UP }), vec![MacroAction::Reload]);
    // F4 without Ctrl does nothing
    assert_eq!(macro_tick(MacroKeys { f4: HELD, ..UP }), vec![]);
}

#[test]
fn ctrl_f12_exits_before_anything_else() {
    // F12 counts when pressed since the last poll too
    assert_eq!(
        macro_tick(MacroKeys { f1: HELD, ctrl: HELD, f12: 1, f4: HELD, f23: HELD, f24: 0 }),
        vec![MacroAction::ShowPixel, MacroAction::Exit]
    );
    assert_eq!(macro_tick(MacroKeys { f12: 1, ..UP }), vec![]);
}

#[test]
fn dll_entry_point() {
    assert_eq!(dll_main_action(1, 0), (DllAction::StartThread, 1));
    assert_eq!(dll_main_action(0, 0), (DllAction::Nothing, 1));
    assert_eq!(dll_main_action(0, 5), (DllAction::Detach, 1));
    assert_eq!(dll_main_action(2, 5), (DllAction::Nothing, 1));
}
