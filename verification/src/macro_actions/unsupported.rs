//! The macro key actions on platforms other than Windows.

use vstd::prelude::*;

use crate::macro_actions::ActionError;

verus! {

pub fn send_page_key(_up: bool) -> (r: Result<(), ActionError>)
    ensures
        r == Err::<(), ActionError>(ActionError::UnsupportedPlatform),
{
    Err(ActionError::UnsupportedPlatform)
}

pub fn cycle_refresh_rate() -> (r: Result<u32, ActionError>)
    ensures
        r == Err::<u32, ActionError>(ActionError::UnsupportedPlatform),
{
    Err(ActionError::UnsupportedPlatform)
}

pub fn toggle_mic_mute() -> (r: Result<bool, ActionError>)
    ensures
        r == Err::<bool, ActionError>(ActionError::UnsupportedPlatform),
{
    Err(ActionError::UnsupportedPlatform)
}

} // verus!
