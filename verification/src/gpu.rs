//! The NVIDIA "Preferred graphics processor" setting and the detection of
//! which GPU drives the primary display.
//!
//! True display MUX switching has no public API; what can be set is the
//! global render preference in the driver settings (DRS) base profile.

use vstd::prelude::*;

pub mod unsupported;

verus! {

#[derive(Debug, Clone, Copy, PartialEq, Eq, Structural)]
pub enum GpuPreference {
    /// Render on the integrated GPU by default (power saving)
    Integrated,
    /// Let the driver decide per application (NVIDIA default)
    Auto,
    /// Render on the discrete NVIDIA GPU by default (performance)
    Dedicated,
}

#[derive(Debug, Clone, Copy, PartialEq, Eq, Structural)]
pub enum DisplayOwner {
    /// The primary display is driven by the integrated GPU (hybrid mode)
    Integrated,
    /// The primary display is driven by the NVIDIA GPU (dGPU-only mode)
    Nvidia,
    Unknown,
}

// ---------------------------------------------------------------------------
// Primary display owner
// ---------------------------------------------------------------------------

pub const DISPLAY_DEVICE_ATTACHED_TO_DESKTOP: u32 = 0x1;
pub const DISPLAY_DEVICE_PRIMARY_DEVICE: u32 = 0x4;
pub const DISPLAY_DEVICE_MIRRORING_DRIVER: u32 = 0x8;

/// One display device as the system enumerates it: its state flags and its
/// adapter description in UTF-16 code units.
pub struct DisplayDevice {
    pub state_flags: u32,
    pub device_string: Vec<u16>,
}

/// ASCII upper-casing of one UTF-16 code unit.
pub open spec fn ascii_upper(u: u16) -> u16 {
    if 0x61 <= u <= 0x7a { (u - 0x20) as u16 } else { u }
}

pub open spec fn upper_units(s: Seq<u16>) -> Seq<u16> {
    s.map_values(|u: u16| ascii_upper(u))
}

/// `word` occurs in `s` as a run of consecutive code units.
pub open spec fn occurs_in(word: Seq<u16>, s: Seq<u16>) -> bool {
    exists|i: int| 0 <= i && i + word.len() <= s.len() && #[trigger] s.subrange(i, i + word.len()) == word
}

/// "NVIDIA"
pub open spec fn word_nvidia() -> Seq<u16> { seq![0x4eu16, 0x56, 0x49, 0x44, 0x49, 0x41] }
/// "AMD"
pub open spec fn word_amd() -> Seq<u16> { seq![0x41u16, 0x4d, 0x44] }
/// "RADEON"
pub open spec fn word_radeon() -> Seq<u16> { seq![0x52u16, 0x41, 0x44, 0x45, 0x4f, 0x4e] }
/// "INTEL"
pub open spec fn word_intel() -> Seq<u16> { seq![0x49u16, 0x4e, 0x54, 0x45, 0x4c] }
/// "IRIS"
pub open spec fn word_iris() -> Seq<u16> { seq![0x49u16, 0x52, 0x49, 0x53] }

/// The GPU that an adapter description names, compared without regard to
/// ASCII case: NVIDIA first, then the integrated vendors.
pub open spec fn spec_adapter_owner(name: Seq<u16>) -> DisplayOwner {
    let u = upper_units(name);
    if occurs_in(word_nvidia(), u) {
        DisplayOwner::Nvidia
    } else if occurs_in(word_amd(), u) || occurs_in(word_radeon(), u) || occurs_in(word_intel(), u)
        || occurs_in(word_iris(), u) {
        DisplayOwner::Integrated
    } else {
        DisplayOwner::Unknown
    }
}

fn upper_case_units(s: &[u16]) -> (r: Vec<u16>)
    ensures
        r@ == upper_units(s@),
{
    let mut out: Vec<u16> = Vec::new();
    let n = s.len();
    for i in 0..n
        invariant
            n == s@.len(),
            out@ == upper_units(s@.take(i as int)),
    {
        let u = s[i];
        let v = if 0x61 <= u && u <= 0x7a { u - 0x20 } else { u };
        out.push(v);
        assert(upper_units(s@.take(i + 1)) =~= upper_units(s@.take(i as int)).push(v));
    }
    assert(s@.take(n as int) =~= s@);
    out
}

fn occurs(word: &Vec<u16>, s: &Vec<u16>) -> (r: bool)
    ensures
        r == occurs_in(word@, s@),
{
    let w = word.len();
    if w > s.len() {
        return false;
    }
    if w == 0 {
        assert(s@.subrange(0, 0 + word@.len() as int) =~= word@);
        return true;
    }
    let last = s.len() - w;
    let mut i: usize = 0;
    while i <= last
        invariant
            w == word@.len(),
            w > 0,
            last + w == s@.len(),
            s@.len() <= usize::MAX,
            forall|k: int| 0 <= k < i ==> #[trigger] s@.subrange(k, k + w) != word@,
        decreases last + 1 - i,
    {
        let mut j: usize = 0;
        let mut same = true;
        while j < w
            invariant
                w == word@.len(),
                i + w <= s@.len(),
                s@.len() <= usize::MAX,
                j <= w,
                same <==> forall|m: int| 0 <= m < j ==> s@[i + m] == word@[m],
            decreases w - j,
        {
            if s[i + j] != word[j] {
                same = false;
            }
            j = j + 1;
        }
        if same {
            assert(s@.subrange(i as int, i + w) =~= word@);
            return true;
        }
        assert(s@.subrange(i as int, i + w) != word@) by {
            let m = choose|m: int| 0 <= m < w && s@[i + m] != word@[m];
            assert(s@.subrange(i as int, i + w)[m] == s@[i + m]);
        }
        i = i + 1;
    }
    proof {
        assert forall|k: int| 0 <= k && k + w <= s@.len() implies #[trigger] s@.subrange(k, k + w) != word@ by {
            assert(k < i);
        }
    }
    false
}

/// Which GPU an adapter description names.
pub fn adapter_to_owner(device_string: &[u16]) -> (r: DisplayOwner)
    ensures
        r == spec_adapter_owner(device_string@),
{
    let name = upper_case_units(device_string);
    let nvidia: Vec<u16> = vec![0x4e, 0x56, 0x49, 0x44, 0x49, 0x41];
    let amd: Vec<u16> = vec![0x41, 0x4d, 0x44];
    let radeon: Vec<u16> = vec![0x52, 0x41, 0x44, 0x45, 0x4f, 0x4e];
    let intel: Vec<u16> = vec![0x49, 0x4e, 0x54, 0x45, 0x4c];
    let iris: Vec<u16> = vec![0x49, 0x52, 0x49, 0x53];
    assert(nvidia@ =~= word_nvidia());
    assert(amd@ =~= word_amd());
    assert(radeon@ =~= word_radeon());
    assert(intel@ =~= word_intel());
    assert(iris@ =~= word_iris());
    if occurs(&nvidia, &name) {
        DisplayOwner::Nvidia
    } else if occurs(&amd, &name) || occurs(&radeon, &name) || occurs(&intel, &name) || occurs(&iris, &name) {
        DisplayOwner::Integrated
    } else {
        DisplayOwner::Unknown
    }
}

/// A device counts for the display owner: attached to the desktop and not a
/// mirroring driver.
pub open spec fn counts(d: DisplayDevice) -> bool {
    d.state_flags & DISPLAY_DEVICE_MIRRORING_DRIVER == 0 && d.state_flags & DISPLAY_DEVICE_ATTACHED_TO_DESKTOP != 0
}

pub open spec fn is_primary(d: DisplayDevice) -> bool {
    counts(d) && d.state_flags & DISPLAY_DEVICE_PRIMARY_DEVICE != 0
}

pub open spec fn owner_of(d: DisplayDevice) -> DisplayOwner {
    spec_adapter_owner(d.device_string@)
}

pub open spec fn names_known_gpu(d: DisplayDevice) -> bool {
    counts(d) && owner_of(d) != DisplayOwner::Unknown
}

/// Device `i` is the first primary device that counts.
pub open spec fn is_first_primary(devices: Seq<DisplayDevice>, i: int) -> bool {
    0 <= i < devices.len() && is_primary(devices[i]) && forall|j: int| 0 <= j < i ==> !is_primary(#[trigger] devices[j])
}

/// Device `i` is the first device that counts and names a known GPU.
pub open spec fn is_first_known(devices: Seq<DisplayDevice>, i: int) -> bool {
    0 <= i < devices.len() && names_known_gpu(devices[i]) && forall|j: int| 0 <= j < i ==> !names_known_gpu(#[trigger] devices[j])
}

/// Which GPU drives the primary display, from the display devices in
/// enumeration order: the adapter of the first primary device attached to the
/// desktop (mirroring drivers aside); without one, the first attached device
/// whose adapter names a known GPU; else unknown.
pub fn get_display_owner(devices: &[DisplayDevice]) -> (r: DisplayOwner)
    ensures
        forall|i: int| is_first_primary(devices@, i) ==> r == owner_of(devices@[i]),
        (forall|i: int| 0 <= i < devices@.len() ==> !is_primary(#[trigger] devices@[i])) ==> {
            &&& forall|i: int| is_first_known(devices@, i) ==> r == owner_of(devices@[i])
            &&& (forall|i: int| 0 <= i < devices@.len() ==> !names_known_gpu(#[trigger] devices@[i]))
                ==> r == DisplayOwner::Unknown
        },
{
    let mut fallback = DisplayOwner::Unknown;
    let ghost mut fallback_at: int = -1;
    let n = devices.len();
    for i in 0..n
        invariant
            n == devices@.len(),
            forall|j: int| 0 <= j < i ==> !is_primary(#[trigger] devices@[j]),
            fallback_at == -1 ==> fallback == DisplayOwner::Unknown
                && forall|j: int| 0 <= j < i ==> !names_known_gpu(#[trigger] devices@[j]),
            fallback_at != -1 ==> is_first_known(devices@, fallback_at) && fallback_at < i
                && fallback == owner_of(devices@[fallback_at]),
    {
        let d = &devices[i];
        if d.state_flags & DISPLAY_DEVICE_MIRRORING_DRIVER == 0
            && d.state_flags & DISPLAY_DEVICE_ATTACHED_TO_DESKTOP != 0 {
            let owner = adapter_to_owner(d.device_string.as_slice());
            if d.state_flags & DISPLAY_DEVICE_PRIMARY_DEVICE != 0 {
                proof {
                    assert(is_first_primary(devices@, i as int));
                    assert forall|k: int| is_first_primary(devices@, k) implies k == i by {
                        if k < i {
                            assert(!is_primary(devices@[k]));
                        } else if k > i {
                            assert(is_primary(devices@[i as int]));
                        }
                    }
                }
                return owner;
            }
            if fallback == DisplayOwner::Unknown {
                proof {
                    if owner != DisplayOwner::Unknown {
                        fallback_at = i as int;
                    }
                }
                fallback = owner;
            }
        }
    }
    proof {
        assert forall|k: int| is_first_known(devices@, k) implies fallback == owner_of(devices@[k]) by {
            if fallback_at != -1 {
                if k < fallback_at {
                    assert(!names_known_gpu(devices@[k]));
                } else if k > fallback_at {
                    assert(names_known_gpu(devices@[fallback_at]));
                }
            }
        }
    }
    fallback
}

// ---------------------------------------------------------------------------
// NVIDIA driver settings (DRS)
// ---------------------------------------------------------------------------

pub const NVAPI_OK: i32 = 0;

/// Setting ids from the NVIDIA driver settings; "Preferred graphics
/// processor" is the pair SHIM_MCCOMPAT and SHIM_RENDERING_MODE.
pub const SHIM_MCCOMPAT_ID: u32 = 0x10F9DC80;
pub const SHIM_RENDERING_MODE_ID: u32 = 0x10F9DC81;
pub const SHIM_VALUE_INTEGRATED: u32 = 0x0000_0000;
pub const SHIM_VALUE_ENABLE: u32 = 0x0000_0001;
pub const SHIM_VALUE_AUTO_SELECT: u32 = 0x0000_0010;

/// A driver settings call that did not return `NVAPI_OK`.
#[derive(Debug)]
pub struct NvApiError {
    pub what: String,
    pub status: i32,
}

/// Why the render preference could not be read or written.
#[derive(Debug)]
pub enum GpuError {
    /// The platform has no NVIDIA driver settings interface.
    UnsupportedPlatform,
    /// The driver settings library or one of its entry points is missing.
    Unavailable(String),
    /// A driver settings call failed.
    NvApi(NvApiError),
}

/// Turns the status of the driver settings call `what` into a result.
pub fn nv_check(status: i32, what: &str) -> (r: Result<(), NvApiError>)
    ensures
        r is Ok <==> status == NVAPI_OK,
        r is Err ==> r->Err_0.status == status && r->Err_0.what@ == what@,
{
    if status == NVAPI_OK {
        Ok(())
    } else {
        Err(NvApiError { what: what.to_owned(), status })
    }
}

/// The preference that a stored rendering-mode value stands for.
pub open spec fn spec_value_to_preference(value: u32) -> GpuPreference {
    if value & SHIM_VALUE_AUTO_SELECT != 0 {
        GpuPreference::Auto
    } else if value & SHIM_VALUE_ENABLE != 0 {
        GpuPreference::Dedicated
    } else {
        GpuPreference::Integrated
    }
}

/// The value stored for a preference.
pub open spec fn spec_preference_value(pref: GpuPreference) -> u32 {
    match pref {
        GpuPreference::Integrated => SHIM_VALUE_INTEGRATED,
        GpuPreference::Auto => SHIM_VALUE_AUTO_SELECT,
        GpuPreference::Dedicated => SHIM_VALUE_ENABLE,
    }
}

pub fn value_to_preference(value: u32) -> (r: GpuPreference)
    ensures
        r == spec_value_to_preference(value),
{
    if value & SHIM_VALUE_AUTO_SELECT != 0 {
        GpuPreference::Auto
    } else if value & SHIM_VALUE_ENABLE != 0 {
        GpuPreference::Dedicated
    } else {
        GpuPreference::Integrated
    }
}

/// The preference in force, given the rendering-mode value of the base
/// profile (`None` when the profile sets none: the driver default,
/// auto-select).
pub open spec fn spec_get_gpu_preference(setting: Option<u32>) -> GpuPreference {
    match setting {
        None => GpuPreference::Auto,
        Some(value) => spec_value_to_preference(value),
    }
}

/// The global render preference, from the rendering-mode setting of the
/// driver's base profile.
pub fn get_gpu_preference(setting: Option<u32>) -> (r: GpuPreference)
    ensures
        r == spec_get_gpu_preference(setting),
{
    match setting {
        None => GpuPreference::Auto,
        Some(value) => value_to_preference(value),
    }
}

/// One DWORD write to the driver's base profile.
#[derive(Debug, Clone, Copy, PartialEq, Eq, Structural)]
pub struct SettingWrite {
    pub setting_id: u32,
    pub value: u32,
}

pub open spec fn spec_preference_writes(pref: GpuPreference) -> Seq<SettingWrite> {
    seq![
        SettingWrite { setting_id: SHIM_MCCOMPAT_ID, value: spec_preference_value(pref) },
        SettingWrite { setting_id: SHIM_RENDERING_MODE_ID, value: spec_preference_value(pref) },
    ]
}

/// The writes that set the global render preference, in order; the settings
/// are saved after the last one.
pub fn set_gpu_preference(pref: GpuPreference) -> (r: Vec<SettingWrite>)
    ensures
        r@ == spec_preference_writes(pref),
{
    let value = match pref {
        GpuPreference::Integrated => SHIM_VALUE_INTEGRATED,
        GpuPreference::Auto => SHIM_VALUE_AUTO_SELECT,
        GpuPreference::Dedicated => SHIM_VALUE_ENABLE,
    };
    let r = vec![
        SettingWrite { setting_id: SHIM_MCCOMPAT_ID, value },
        SettingWrite { setting_id: SHIM_RENDERING_MODE_ID, value },
    ];
    assert(r@ =~= spec_preference_writes(pref));
    r
}

/// Reading the preference back after setting it gives the preference that was
/// set: among the writes is the rendering-mode setting, and its value reads
/// back as `pref`.
pub proof fn lemma_preference_round_trip(pref: GpuPreference)
    ensures
        exists|k: int| 0 <= k < spec_preference_writes(pref).len()
            && #[trigger] spec_preference_writes(pref)[k].setting_id == SHIM_RENDERING_MODE_ID,
        forall|k: int| 0 <= k < spec_preference_writes(pref).len()
            && #[trigger] spec_preference_writes(pref)[k].setting_id == SHIM_RENDERING_MODE_ID
            ==> spec_get_gpu_preference(Some(spec_preference_writes(pref)[k].value)) == pref,
{
    assert(0x10u32 & 0x10u32 != 0) by (bit_vector);
    assert(0x1u32 & 0x10u32 == 0) by (bit_vector);
    assert(0x1u32 & 0x1u32 != 0) by (bit_vector);
    assert(0x0u32 & 0x10u32 == 0) by (bit_vector);
    assert(0x0u32 & 0x1u32 == 0) by (bit_vector);
    assert(spec_preference_writes(pref)[1].setting_id == SHIM_RENDERING_MODE_ID);
}

/// Setting a preference writes the same value to both settings of
/// "Preferred graphics processor", first SHIM_MCCOMPAT then
/// SHIM_RENDERING_MODE, and every written value reads back as the preference
/// that was set. The value of Integrated is 0x0, of Auto 0x10, of Dedicated
/// 0x1, and no two preferences share one.
pub proof fn lemma_preference_writes_carry_preference(pref: GpuPreference, other: GpuPreference)
    ensures
        spec_preference_writes(pref).len() == 2,
        spec_preference_writes(pref)[0].setting_id == SHIM_MCCOMPAT_ID,
        spec_preference_writes(pref)[1].setting_id == SHIM_RENDERING_MODE_ID,
        forall|k: int| 0 <= k < spec_preference_writes(pref).len() ==> {
            &&& #[trigger] spec_preference_writes(pref)[k].value == spec_preference_value(pref)
            &&& spec_get_gpu_preference(Some(spec_preference_writes(pref)[k].value)) == pref
        },
        (spec_preference_value(pref) == 0x0u32) <==> (pref == GpuPreference::Integrated),
        (spec_preference_value(pref) == 0x10u32) <==> (pref == GpuPreference::Auto),
        (spec_preference_value(pref) == 0x1u32) <==> (pref == GpuPreference::Dedicated),
        spec_preference_value(pref) == spec_preference_value(other) ==> pref == other,
{
    assert(0x10u32 & 0x10u32 != 0) by (bit_vector);
    assert(0x1u32 & 0x10u32 == 0) by (bit_vector);
    assert(0x1u32 & 0x1u32 != 0) by (bit_vector);
    assert(0x0u32 & 0x10u32 == 0) by (bit_vector);
    assert(0x0u32 & 0x1u32 == 0) by (bit_vector);
}

/// The words looked for in adapter descriptions are the ASCII code units of
/// "NVIDIA", "AMD", "RADEON", "INTEL" and "IRIS".
pub proof fn lemma_vendor_words_are_ascii_names()
    ensures
        word_nvidia() == "NVIDIA"@.map_values(|c: char| c as u16),
        word_amd() == "AMD"@.map_values(|c: char| c as u16),
        word_radeon() == "RADEON"@.map_values(|c: char| c as u16),
        word_intel() == "INTEL"@.map_values(|c: char| c as u16),
        word_iris() == "IRIS"@.map_values(|c: char| c as u16),
{
    reveal_strlit("NVIDIA");
    reveal_strlit("AMD");
    reveal_strlit("RADEON");
    reveal_strlit("INTEL");
    reveal_strlit("IRIS");
    assert(word_nvidia() =~= "NVIDIA"@.map_values(|c: char| c as u16));
    assert(word_amd() =~= "AMD"@.map_values(|c: char| c as u16));
    assert(word_radeon() =~= "RADEON"@.map_values(|c: char| c as u16));
    assert(word_intel() =~= "INTEL"@.map_values(|c: char| c as u16));
    assert(word_iris() =~= "IRIS"@.map_values(|c: char| c as u16));
}

/// ASCII lower-casing of a code unit (the inverse direction of
/// [`ascii_upper`], defined on its own).
pub open spec fn ascii_lower(u: u16) -> u16 {
    if 0x41 <= u <= 0x5a { (u + 0x20) as u16 } else { u }
}

/// An adapter description names NVIDIA exactly when "NVIDIA" occurs in it,
/// whatever the ASCII case; otherwise it names the integrated GPU exactly when
/// "AMD", "RADEON", "INTEL" or "IRIS" occurs in it; and lower-casing the
/// description never changes the GPU it names.
pub proof fn lemma_adapter_owner_by_vendor_words(name: Seq<u16>)
    ensures
        (spec_adapter_owner(name) == DisplayOwner::Nvidia) <==> occurs_in(word_nvidia(), upper_units(name)),
        (spec_adapter_owner(name) == DisplayOwner::Integrated) <==> (!occurs_in(word_nvidia(), upper_units(name))
            && (occurs_in(word_amd(), upper_units(name)) || occurs_in(word_radeon(), upper_units(name))
            || occurs_in(word_intel(), upper_units(name)) || occurs_in(word_iris(), upper_units(name)))),
        spec_adapter_owner(name.map_values(|u: u16| ascii_lower(u))) == spec_adapter_owner(name),
{
    let lowered = name.map_values(|u: u16| ascii_lower(u));
    assert(upper_units(lowered) =~= upper_units(name));
}

} // verus!
