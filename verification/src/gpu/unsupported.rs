//! The GPU controls on platforms other than Windows, where the NVIDIA driver
//! settings and the display enumeration are not available.

use vstd::prelude::*;

use crate::gpu::{DisplayOwner, GpuError, GpuPreference};

verus! {

/// The display owner cannot be detected here.
pub fn get_display_owner() -> (r: DisplayOwner)
    ensures
        r == DisplayOwner::Unknown,
{
    DisplayOwner::Unknown
}

/// The render preference cannot be read here.
pub fn get_gpu_preference() -> (r: Result<GpuPreference, GpuError>)
    ensures
        r is Err && r->Err_0 is UnsupportedPlatform,
{
    Err(GpuError::UnsupportedPlatform)
}

/// The render preference cannot be set here.
pub fn set_gpu_preference(_pref: GpuPreference) -> (r: Result<(), GpuError>)
    ensures
        r is Err && r->Err_0 is UnsupportedPlatform,
{
    Err(GpuError::UnsupportedPlatform)
}

} // verus!
