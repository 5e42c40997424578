//! The dedicated macro keys of Razer Blade laptops.
//!
//! The keys emit events only while the device is in driver mode (device mode
//! 0x03, the "lights always on" flag). The controller then sends an input
//! report on a vendor collection of USB interface 1:
//!
//! ```text
//! report id 0x04, key code, 0, 0, ...   (key press)
//! report id 0x04, 0x00,     0, 0, ...   (key release)
//! ```
//!
//! Key codes: M3=0x03, M4=0xd3, M5=0xd4. M1 and M2 send regular Page Up /
//! Page Down keystrokes from the firmware and never emit vendor events.

use vstd::prelude::*;

use crate::device::{HidDeviceInfo, RAZER_VID};

verus! {

pub const MACRO_REPORT_ID: u8 = 0x04;

#[derive(Debug, Clone, Copy, PartialEq, Eq, Structural)]
pub enum MacroKey {
    M3,
    M4,
    M5,
}

impl MacroKey {
    /// The key code a key sends in its report.
    pub open spec fn spec_code(self) -> u8 {
        match self {
            MacroKey::M3 => 0x03,
            MacroKey::M4 => 0xd3,
            MacroKey::M5 => 0xd4,
        }
    }

    /// The position of the key among M3, M4, M5.
    pub open spec fn spec_index(self) -> usize {
        match self {
            MacroKey::M3 => 0,
            MacroKey::M4 => 1,
            MacroKey::M5 => 2,
        }
    }

    pub open spec fn spec_label(self) -> Seq<char> {
        match self {
            MacroKey::M3 => "M3"@,
            MacroKey::M4 => "M4"@,
            MacroKey::M5 => "M5"@,
        }
    }

    /// The key that sends `code`, if any.
    pub fn from_code(code: u8) -> (r: Option<MacroKey>)
        ensures
            r matches Some(k) ==> k.spec_code() == code,
            r is None ==> (forall|k: MacroKey| k.spec_code() != code),
    {
        match code {
            0x03 => Some(MacroKey::M3),
            0xd3 => Some(MacroKey::M4),
            0xd4 => Some(MacroKey::M5),
            _ => None,
        }
    }

    pub fn label(&self) -> (r: &'static str)
        ensures
            r@ == self.spec_label(),
    {
        match self {
            MacroKey::M3 => "M3",
            MacroKey::M4 => "M4",
            MacroKey::M5 => "M5",
        }
    }

    /// The position of the key among M3, M4, M5.
    pub fn index(&self) -> (r: usize)
        ensures
            r == self.spec_index(),
    {
        match self {
            MacroKey::M3 => 0,
            MacroKey::M4 => 1,
            MacroKey::M5 => 2,
        }
    }
}

/// The key codes of distinct keys differ, and each key is recognised from its
/// own code.
pub proof fn lemma_key_codes_identify_keys(a: MacroKey, b: MacroKey)
    ensures
        a.spec_code() == b.spec_code() ==> a == b,
        a.spec_index() == b.spec_index() ==> a == b,
        a.spec_index() < 3,
{
}

/// The keys in the order the control panel lists them.
pub open spec fn key_order() -> Seq<MacroKey> {
    seq![MacroKey::M3, MacroKey::M4, MacroKey::M5]
}

/// A key's index is its position in the order M3, M4, M5 (the key at that
/// position is the key itself), and the order of indices is the order of the
/// key codes the keys send.
pub proof fn lemma_key_index_is_position(k: MacroKey, other: MacroKey)
    ensures
        k.spec_index() < key_order().len(),
        key_order()[k.spec_index() as int] == k,
        (k.spec_index() < other.spec_index()) <==> (k.spec_code() < other.spec_code()),
{
}

/// A key's label is "M" followed by its number, which is 3 plus its position
/// in the order M3, M4, M5; and the code each key sends: M3 0x03, M4 0xd3,
/// M5 0xd4, no two alike.
pub proof fn lemma_key_label_names_key(k: MacroKey)
    ensures
        k.spec_label() == seq!['M', (('3' as int) + k.spec_index()) as char],
        (k.spec_label() == "M3"@) <==> (k == MacroKey::M3),
        (k.spec_label() == "M4"@) <==> (k == MacroKey::M4),
        (k.spec_label() == "M5"@) <==> (k == MacroKey::M5),
        (k.spec_code() == 0x03) <==> (k == MacroKey::M3),
        (k.spec_code() == 0xd3) <==> (k == MacroKey::M4),
        (k.spec_code() == 0xd4) <==> (k == MacroKey::M5),
{
    reveal_strlit("M3");
    reveal_strlit("M4");
    reveal_strlit("M5");
    lemma_key_index_is_position(k, k);
    let l = k.spec_label();
    assert(l =~= seq!['M', (('3' as int) + k.spec_index()) as char]);
    assert(l.len() != 2 || l[1] != '3' ==> l != "M3"@);
    assert(l.len() != 2 || l[1] != '4' ==> l != "M4"@);
    assert(l.len() != 2 || l[1] != '5' ==> l != "M5"@);
}

#[derive(Debug, Clone, Copy, PartialEq, Eq, Structural)]
pub enum MacroKeyEvent {
    /// A recognized macro key was pressed.
    Pressed(MacroKey),
    /// An unrecognized key code arrived on the macro report. Surfacing it
    /// helps map keys on models with different codes.
    Unknown(u8),
}

/// Whether a HID interface carries the macro key reports: Razer's vendor id,
/// interface 1, usage page 0x0001, usage 0x0000.
pub fn is_macro_interface(info: &HidDeviceInfo) -> (r: bool)
    ensures
        r == (info.vendor_id == RAZER_VID && info.interface_number == 1 && info.usage_page == 0x0001
            && info.usage == 0x0000),
{
    info.vendor_id == RAZER_VID && info.interface_number == 1 && info.usage_page == 0x0001 && info.usage == 0x0000
}

/// The event that an input report (the bytes read) carries: a key press is a
/// report of at least two bytes with the macro report id and a nonzero key
/// code; anything else (a release, another report) carries none.
pub fn decode_macro_report(report: &[u8]) -> (r: Option<MacroKeyEvent>)
    ensures
        (report@.len() >= 2 && report@[0] == MACRO_REPORT_ID && report@[1] != 0) <==> r is Some,
        r matches Some(e) ==> match e {
            MacroKeyEvent::Pressed(k) => k.spec_code() == report@[1],
            MacroKeyEvent::Unknown(c) => c == report@[1] && forall|k: MacroKey| k.spec_code() != c,
        },
{
    if report.len() >= 2 && report[0] == MACRO_REPORT_ID && report[1] != 0 {
        match MacroKey::from_code(report[1]) {
            Some(key) => Some(MacroKeyEvent::Pressed(key)),
            None => Some(MacroKeyEvent::Unknown(report[1])),
        }
    } else {
        None
    }
}

} // verus!
