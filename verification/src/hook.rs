//! The decisions of the macro program around the rotations: its main loop,
//! its keyboard hook, and the entry point of its library form.
use vstd::prelude::*;

use crate::keys::{VK_F23, VK_F24};

verus! {

/// `WM_KEYDOWN`, the message of a key pressed.
pub const WM_KEYDOWN: u32 = 0x0100;

/// `HC_ACTION`, the hook code of a message to act on.
pub const HC_ACTION: i32 = 0;

/// The macro button whose iframe the hook looks for, when a key goes down
/// while a macro is loaded: F23 when held, else F24 when held.
pub open spec fn hook_button_spec(loaded: bool, message: u32, code: i32, f23: i16, f24: i16) -> Option<u16> {
    if loaded && message == WM_KEYDOWN && code == HC_ACTION {
        if f23 < 0 {
            Some(VK_F23)
        } else if f24 < 0 {
            Some(VK_F24)
        } else {
            None
        }
    } else {
        None
    }
}

/// The macro button whose iframe the keyboard hook looks for; `f23` and
/// `f24` are the states `GetAsyncKeyState` reports for those keys (held
/// when negative).
pub fn hook_button(loaded: bool, message: u32, code: i32, f23: i16, f24: i16) -> (button: Option<u16>)
    ensures
        button == hook_button_spec(loaded, message, code, f23, f24),
{
    if loaded && message == WM_KEYDOWN && code == HC_ACTION {
        if f23 < 0 {
            Some(VK_F23)
        } else if f24 < 0 {
            Some(VK_F24)
        } else {
            None
        }
    } else {
        None
    }
}

/// The states of the keys that the macro's main loop polls, as
/// `GetAsyncKeyState` reports them (held when negative, pressed since the
/// last poll when not zero).
#[derive(PartialEq, Eq, Structural, Clone, Copy, Debug)]
pub struct MacroKeys {
    pub f1: i16,
    pub ctrl: i16,
    pub f12: i16,
    pub f4: i16,
    pub f23: i16,
    pub f24: i16,
}

/// What one pass of the macro's main loop does.
#[derive(PartialEq, Eq, Structural, Clone, Copy, Debug)]
pub enum MacroAction {
    /// Print the pixel under the cursor, then wait 50 ms.
    ShowPixel,
    /// Exit the program.
    Exit,
    /// Detect the class again, then wait a second.
    Reload,
    /// Run one rotation while the button is held, dealing damage or not.
    Rotation { button: u16, dps: bool },
}

/// One pass of the main loop: F1 shows the pixel under the cursor, Ctrl+F12
/// exits (and nothing after it runs), Ctrl+F4 reloads the class, F23 runs
/// the rotation with damage, F24 without.
pub open spec fn macro_tick_spec(k: MacroKeys) -> Seq<MacroAction> {
    let show = if k.f1 < 0 { seq![MacroAction::ShowPixel] } else { Seq::empty() };
    if k.ctrl < 0 && k.f12 != 0 {
        show.push(MacroAction::Exit)
    } else {
        let reload = if k.ctrl < 0 && k.f4 < 0 { seq![MacroAction::Reload] } else { Seq::empty() };
        let dps = if k.f23 < 0 { seq![MacroAction::Rotation { button: VK_F23, dps: true }] } else { Seq::empty() };
        let plain = if k.f24 < 0 { seq![MacroAction::Rotation { button: VK_F24, dps: false }] } else { Seq::empty() };
        show + reload + dps + plain
    }
}

/// The actions of one pass of the macro's main loop, in order.
pub fn macro_tick(k: MacroKeys) -> (actions: Vec<MacroAction>)
    ensures
        actions@ == macro_tick_spec(k),
{
    let mut actions: Vec<MacroAction> = Vec::new();
    if k.f1 < 0 {
        actions.push(MacroAction::ShowPixel);
    }
    if k.ctrl < 0 && k.f12 != 0 {
        actions.push(MacroAction::Exit);
        assert(actions@ =~= macro_tick_spec(k));
        return actions;
    }
    if k.ctrl < 0 && k.f4 < 0 {
        actions.push(MacroAction::Reload);
    }
    if k.f23 < 0 {
        actions.push(MacroAction::Rotation { button: VK_F23, dps: true });
    }
    if k.f24 < 0 {
        actions.push(MacroAction::Rotation { button: VK_F24, dps: false });
    }
    assert(actions@ =~= macro_tick_spec(k));
    actions
}

/// Exit is the last thing a pass does, and a pass that exits runs no rotation.
pub proof fn lemma_exit_is_last(k: MacroKeys)
    ensures
        forall|i: int| 0 <= i < macro_tick_spec(k).len() && #[trigger] macro_tick_spec(k)[i] == MacroAction::Exit
            ==> i == macro_tick_spec(k).len() - 1,
        macro_tick_spec(k).contains(MacroAction::Exit) ==> forall|i: int|
            0 <= i < macro_tick_spec(k).len() ==> !(#[trigger] macro_tick_spec(k)[i] is Rotation),
{
    let s = macro_tick_spec(k);
    let show: Seq<MacroAction> = if k.f1 < 0 { seq![MacroAction::ShowPixel] } else { Seq::empty() };
    if k.ctrl < 0 && k.f12 != 0 {
        assert forall|i: int| 0 <= i < s.len() implies !(#[trigger] s[i] is Rotation) by {
            if i < show.len() {
                assert(s[i] == show[i]);
            }
        }
    } else {
        assert forall|i: int| 0 <= i < s.len() implies #[trigger] s[i] != MacroAction::Exit by {
            let reload: Seq<MacroAction> = if k.ctrl < 0 && k.f4 < 0 { seq![MacroAction::Reload] } else { Seq::empty() };
            let dps: Seq<MacroAction> = if k.f23 < 0 { seq![MacroAction::Rotation { button: VK_F23, dps: true }] } else { Seq::empty() };
            let plain: Seq<MacroAction> = if k.f24 < 0 { seq![MacroAction::Rotation { button: VK_F24, dps: false }] } else { Seq::empty() };
            assert(s == show + reload + dps + plain);
        }
        assert(!s.contains(MacroAction::Exit));
    }
}

/// What a pass of the main loop runs: the pixel is shown exactly when F1
/// is held, and first; it exits exactly when Ctrl is held and F12 pressed;
/// unless it exits, it reloads exactly when Ctrl and F4 are held, runs the
/// rotation with damage exactly when F23 is held and the one without
/// exactly when F24 is held, with damage first.
pub proof fn lemma_macro_tick_keys(k: MacroKeys)
    ensures
        ({
            let a = macro_tick_spec(k);
            let exits = k.ctrl < 0 && k.f12 != 0;
            &&& a.contains(MacroAction::ShowPixel) <==> k.f1 < 0
            &&& k.f1 < 0 ==> a[0] == MacroAction::ShowPixel
            &&& a.contains(MacroAction::Exit) <==> exits
            &&& a.contains(MacroAction::Reload) <==> !exits && k.ctrl < 0 && k.f4 < 0
            &&& a.contains(MacroAction::Rotation { button: VK_F23, dps: true }) <==> !exits && k.f23 < 0
            &&& a.contains(MacroAction::Rotation { button: VK_F24, dps: false }) <==> !exits && k.f24 < 0
            &&& !exits && k.f23 < 0 && k.f24 < 0 ==> a[a.len() - 2] == MacroAction::Rotation {
                button: VK_F23,
                dps: true,
            } && a.last() == MacroAction::Rotation { button: VK_F24, dps: false }
        }),
{
    let a = macro_tick_spec(k);
    let show: Seq<MacroAction> = if k.f1 < 0 { seq![MacroAction::ShowPixel] } else { Seq::empty() };
    let reload: Seq<MacroAction> = if k.ctrl < 0 && k.f4 < 0 { seq![MacroAction::Reload] } else { Seq::empty() };
    let dps: Seq<MacroAction> = if k.f23 < 0 { seq![MacroAction::Rotation { button: VK_F23, dps: true }] } else { Seq::empty() };
    let plain: Seq<MacroAction> = if k.f24 < 0 { seq![MacroAction::Rotation { button: VK_F24, dps: false }] } else { Seq::empty() };
    if k.ctrl < 0 && k.f12 != 0 {
        assert(a == show.push(MacroAction::Exit));
        assert(a[a.len() - 1] == MacroAction::Exit);
        if k.f1 < 0 {
            assert(a[0] == MacroAction::ShowPixel);
        }
    } else {
        assert(a == show + reload + dps + plain);
        if k.f1 < 0 {
            assert(a[0] == MacroAction::ShowPixel);
        }
        if k.ctrl < 0 && k.f4 < 0 {
            assert(a[show.len() as int] == MacroAction::Reload);
        }
        if k.f23 < 0 {
            assert(a[(show.len() + reload.len()) as int] == MacroAction::Rotation { button: VK_F23, dps: true });
        }
        if k.f24 < 0 {
            assert(a[(show.len() + reload.len() + dps.len()) as int] == MacroAction::Rotation {
                button: VK_F24,
                dps: false,
            });
        }
    }
}

/// The hook looks for an iframe only on a key going down while a macro is
/// loaded and a macro button is held: F23 before F24.
pub proof fn lemma_hook_button(loaded: bool, message: u32, code: i32, f23: i16, f24: i16)
    ensures
        hook_button_spec(loaded, message, code, f23, f24) is Some <==> loaded && message == WM_KEYDOWN && code
            == HC_ACTION && (f23 < 0 || f24 < 0),
        hook_button_spec(loaded, message, code, f23, f24) == Some(VK_F24) ==> f23 >= 0,
        hook_button_spec(loaded, message, code, f23, f24) is Some && f23 < 0 ==> hook_button_spec(
            loaded,
            message,
            code,
            f23,
            f24,
        ) == Some(VK_F23),
{
}

/// `DLL_PROCESS_ATTACH`.
pub const DLL_PROCESS_ATTACH: u32 = 1;

/// `DLL_PROCESS_DETACH`.
pub const DLL_PROCESS_DETACH: u32 = 0;

/// What the library's entry point does for a call.
#[derive(PartialEq, Eq, Structural, Clone, Copy, Debug)]
pub enum DllAction {
    /// Start the library's own thread.
    StartThread,
    /// Run the detach routine.
    Detach,
    /// Nothing.
    Nothing,
}

/// On attach the library starts its thread; on detach during the process's
/// end (`reserved` not zero) it runs its detach routine; the entry point
/// always reports success (1).
pub open spec fn dll_main_spec(reason: u32, reserved: usize) -> (DllAction, i32) {
    if reason == DLL_PROCESS_ATTACH {
        (DllAction::StartThread, 1)
    } else if reason == DLL_PROCESS_DETACH && reserved > 0 {
        (DllAction::Detach, 1)
    } else {
        (DllAction::Nothing, 1)
    }
}

/// What the library's entry point does, and what it returns.
pub fn dll_main_action(reason: u32, reserved: usize) -> (r: (DllAction, i32))
    ensures
        r == dll_main_spec(reason, reserved),
{
    match reason {
        DLL_PROCESS_ATTACH => (DllAction::StartThread, 1),
        DLL_PROCESS_DETACH => {
            if reserved > 0 {
                (DllAction::Detach, 1)
            } else {
                (DllAction::Nothing, 1)
            }
        },
        _ => (DllAction::Nothing, 1),
    }
}

} // verus!
