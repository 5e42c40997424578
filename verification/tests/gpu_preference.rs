use librazer::gpu::{
    adapter_to_owner, get_display_owner, get_gpu_preference, nv_check, set_gpu_preference, unsupported,
    value_to_preference, DisplayDevice, DisplayOwner, GpuError, GpuPreference, SettingWrite, SHIM_MCCOMPAT_ID,
    SHIM_RENDERING_MODE_ID,
};

fn utf16(s: &str) -> Vec<u16> {
    let mut v: Vec<u16> = s.encode_utf16().collect();
    v.resize(128, 0);
    v
}

fn device(flags: u32, name: &str) -> DisplayDevice {
    DisplayDevice { state_flags: flags, device_string: utf16(name) }
}

#[test]
fn adapter_names() {
    assert_eq!(adapter_to_owner(&utf16("NVIDIA GeForce RTX 4070 Laptop GPU")), DisplayOwner::Nvidia);
    assert_eq!(adapter_to_owner(&utf16("nvidia geforce")), DisplayOwner::Nvidia);
    assert_eq!(adapter_to_owner(&utf16("Intel(R) UHD Graphics")), DisplayOwner::Integrated);
    assert_eq!(adapter_to_owner(&utf16("AMD Radeon(TM) 890M")), DisplayOwner::Integrated);
    assert_eq!(adapter_to_owner(&utf16("Iris Xe")), DisplayOwner::Integrated);
    assert_eq!(adapter_to_owner(&utf16("Microsoft Basic Display Adapter")), DisplayOwner::Unknown);
    assert_eq!(adapter_to_owner(&[]), DisplayOwner::Unknown);
    // NVIDIA is looked for first
    assert_eq!(adapter_to_owner(&utf16("Intel + NVIDIA")), DisplayOwner::Nvidia);
    // a word split by a non-ASCII unit does not count
    assert_eq!(adapter_to_owner(&utf16("INT\u{e9}L")), DisplayOwner::Unknown);
}

#[test]
fn display_owner_from_devices() {
    let attached = 0x1;
    let primary = 0x4;
    let mirror = 0x8;
    // the primary device decides
    let devs = vec![device(attached, "Intel UHD"), device(attached | primary, "NVIDIA RTX")];
    assert_eq!(get_display_owner(&devs), DisplayOwner::Nvidia);
    // mirroring drivers and detached devices do not count
    let devs = vec![
        device(attached | primary | mirror, "NVIDIA RTX"),
        device(primary, "NVIDIA RTX"),
        device(attached, "Basic Display"),
        device(attached, "Intel UHD"),
        device(attached, "NVIDIA RTX"),
    ];
    assert_eq!(get_display_owner(&devs), DisplayOwner::Integrated);
    assert_eq!(get_display_owner(&[]), DisplayOwner::Unknown);
    assert_eq!(get_display_owner(&[device(0, "NVIDIA")]), DisplayOwner::Unknown);
}

#[test]
fn stored_values_read_as_preferences() {
    assert_eq!(get_gpu_preference(None), GpuPreference::Auto);
    assert_eq!(get_gpu_preference(Some(0x00)), GpuPreference::Integrated);
    assert_eq!(get_gpu_preference(Some(0x01)), GpuPreference::Dedicated);
    assert_eq!(get_gpu_preference(Some(0x10)), GpuPreference::Auto);
    assert_eq!(get_gpu_preference(Some(0x11)), GpuPreference::Auto);
    assert_eq!(value_to_preference(0x02), GpuPreference::Integrated);
}

#[test]
fn writes_of_each_preference() {
    assert_eq!(
        set_gpu_preference(GpuPreference::Dedicated),
        vec![
            SettingWrite { setting_id: SHIM_MCCOMPAT_ID, value: 1 },
            SettingWrite { setting_id: SHIM_RENDERING_MODE_ID, value: 1 },
        ]
    );
    assert_eq!(set_gpu_preference(GpuPreference::Auto)[1].value, 0x10);
    assert_eq!(set_gpu_preference(GpuPreference::Integrated)[0].value, 0);
}

#[test]
fn preference_round_trip() {
    for pref in [GpuPreference::Integrated, GpuPreference::Auto, GpuPreference::Dedicated] {
        let writes = set_gpu_preference(pref);
        let mode = writes.iter().find(|w| w.setting_id == SHIM_RENDERING_MODE_ID).unwrap();
        assert_eq!(get_gpu_preference(Some(mode.value)), pref);
    }
}

#[test]
fn nvapi_status_check() {
    assert!(nv_check(0, "NvAPI_Initialize").is_ok());
    let e = nv_check(-6, "NvAPI_DRS_SaveSettings").unwrap_err();
    assert_eq!(e.status, -6);
    assert_eq!(e.what, "NvAPI_DRS_SaveSettings");
}

#[test]
fn unsupported_platform_answers() {
    assert_eq!(unsupported::get_display_owner(), DisplayOwner::Unknown);
    assert!(matches!(unsupported::get_gpu_preference(), Err(GpuError::UnsupportedPlatform)));
    assert!(matches!(unsupported::set_gpu_preference(GpuPreference::Auto), Err(GpuError::UnsupportedPlatform)));
}
