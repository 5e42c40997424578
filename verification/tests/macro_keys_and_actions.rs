use librazer::device::{HidDeviceInfo, RAZER_VID};
use librazer::macro_actions::{
    cycle_refresh_rate, send_page_key, toggle_mic_mute, unsupported, ActionError, DisplayMode, KeyStroke, VK_NEXT,
    VK_PRIOR,
};
use librazer::macro_keys::{decode_macro_report, is_macro_interface, MacroKey, MacroKeyEvent};

#[test]
fn key_codes() {
    assert_eq!(MacroKey::from_code(0x03), Some(MacroKey::M3));
    assert_eq!(MacroKey::from_code(0xd3), Some(MacroKey::M4));
    assert_eq!(MacroKey::from_code(0xd4), Some(MacroKey::M5));
    assert_eq!(MacroKey::from_code(0x00), None);
    assert_eq!(MacroKey::from_code(0x04), None);
    assert_eq!(MacroKey::M4.label(), "M4");
    assert_eq!(MacroKey::M5.index(), 2);
}

#[test]
fn reports_decode_to_events() {
    assert_eq!(decode_macro_report(&[0x04, 0x03, 0, 0]), Some(MacroKeyEvent::Pressed(MacroKey::M3)));
    assert_eq!(decode_macro_report(&[0x04, 0xd4]), Some(MacroKeyEvent::Pressed(MacroKey::M5)));
    assert_eq!(decode_macro_report(&[0x04, 0x42, 0]), Some(MacroKeyEvent::Unknown(0x42)));
    // key release, other report ids, short reads
    assert_eq!(decode_macro_report(&[0x04, 0x00, 0]), None);
    assert_eq!(decode_macro_report(&[0x05, 0x03, 0]), None);
    assert_eq!(decode_macro_report(&[0x04]), None);
    assert_eq!(decode_macro_report(&[]), None);
}

#[test]
fn macro_interface_filter() {
    let good = HidDeviceInfo { vendor_id: RAZER_VID, product_id: 0x02c6, interface_number: 1, usage_page: 1, usage: 0 };
    assert!(is_macro_interface(&good));
    assert!(!is_macro_interface(&HidDeviceInfo { interface_number: 0, ..good }));
    assert!(!is_macro_interface(&HidDeviceInfo { usage_page: 0xff00, ..good }));
    assert!(!is_macro_interface(&HidDeviceInfo { usage: 1, ..good }));
    assert!(!is_macro_interface(&HidDeviceInfo { vendor_id: 0x046d, ..good }));
}

#[test]
fn page_keys() {
    assert_eq!(
        send_page_key(true),
        vec![
            KeyStroke { virtual_key: VK_PRIOR, key_up: false },
            KeyStroke { virtual_key: VK_PRIOR, key_up: true }
        ]
    );
    assert_eq!(send_page_key(false)[0].virtual_key, VK_NEXT);
    assert_eq!(VK_PRIOR, 0x21);
    assert_eq!(VK_NEXT, 0x22);
}

fn mode(width: u32, height: u32, frequency: u32) -> DisplayMode {
    DisplayMode { width, height, bits_per_pel: 32, frequency }
}

#[test]
fn refresh_rate_goes_up_then_wraps() {
    let modes = vec![
        mode(2560, 1600, 240),
        mode(2560, 1600, 60),
        mode(1920, 1200, 300),
        mode(2560, 1600, 120),
        mode(2560, 1600, 60),
        mode(2560, 1600, 1),
    ];
    assert_eq!(cycle_refresh_rate(mode(2560, 1600, 60), &modes), Ok(120));
    assert_eq!(cycle_refresh_rate(mode(2560, 1600, 120), &modes), Ok(240));
    assert_eq!(cycle_refresh_rate(mode(2560, 1600, 240), &modes), Ok(60));
    // a current rate that is not listed
    assert_eq!(cycle_refresh_rate(mode(2560, 1600, 100), &modes), Ok(120));
    assert_eq!(cycle_refresh_rate(mode(2560, 1600, 0), &modes), Ok(60));
}

#[test]
fn refresh_rate_needs_two_rates() {
    let modes = vec![mode(2560, 1600, 60), mode(2560, 1600, 60), mode(1920, 1200, 120), mode(2560, 1600, 1)];
    assert_eq!(cycle_refresh_rate(mode(2560, 1600, 60), &modes), Err(ActionError::SingleRefreshRate));
    assert_eq!(cycle_refresh_rate(mode(2560, 1600, 60), &[]), Err(ActionError::SingleRefreshRate));
    let deep = DisplayMode { bits_per_pel: 16, ..mode(2560, 1600, 240) };
    assert_eq!(cycle_refresh_rate(mode(2560, 1600, 60), &[mode(2560, 1600, 60), deep]), Err(ActionError::SingleRefreshRate));
}

#[test]
fn mic_mute_toggles() {
    assert!(toggle_mic_mute(false));
    assert!(!toggle_mic_mute(true));
}

#[test]
fn unsupported_actions() {
    assert_eq!(unsupported::send_page_key(true), Err(ActionError::UnsupportedPlatform));
    assert_eq!(unsupported::cycle_refresh_rate(), Err(ActionError::UnsupportedPlatform));
    assert_eq!(unsupported::toggle_mic_mute(), Err(ActionError::UnsupportedPlatform));
}
