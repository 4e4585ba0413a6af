//! Windows virtual key codes used by the macros and bots.
use vstd::prelude::*;

verus! {

pub const VK_TAB: u16 = 0x09;
pub const VK_RETURN: u16 = 0x0D;
pub const VK_SHIFT: u16 = 0x10;
pub const VK_CONTROL: u16 = 0x11;
pub const VK_MENU: u16 = 0x12;
pub const VK_ESCAPE: u16 = 0x1B;
pub const VK_0: u16 = 0x30;
pub const VK_1: u16 = 0x31;
pub const VK_3: u16 = 0x33;
pub const VK_4: u16 = 0x34;
pub const VK_A: u16 = 0x41;
pub const VK_C: u16 = 0x43;
pub const VK_D: u16 = 0x44;
pub const VK_E: u16 = 0x45;
pub const VK_F: u16 = 0x46;
pub const VK_G: u16 = 0x47;
pub const VK_N: u16 = 0x4E;
pub const VK_Q: u16 = 0x51;
pub const VK_R: u16 = 0x52;
pub const VK_S: u16 = 0x53;
pub const VK_T: u16 = 0x54;
pub const VK_V: u16 = 0x56;
pub const VK_W: u16 = 0x57;
pub const VK_X: u16 = 0x58;
pub const VK_Y: u16 = 0x59;
pub const VK_Z: u16 = 0x5A;
pub const VK_F1: u16 = 0x70;
pub const VK_F4: u16 = 0x73;
pub const VK_F12: u16 = 0x7B;
pub const VK_F23: u16 = 0x86;
pub const VK_F24: u16 = 0x87;

/// The key of the talisman, used together with the soul.
pub fn general_talisman() -> (key: u16)
    ensures
        key == VK_R,
{
    VK_R
}

} // verus!
