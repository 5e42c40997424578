//! System actions that macro keys can trigger: Page Up / Page Down key
//! injection, cycling the display refresh rate, microphone mute.

use vstd::prelude::*;

pub mod unsupported;

verus! {

/// Why an action could not be carried out.
#[derive(Debug, Clone, Copy, PartialEq, Eq, Structural)]
pub enum ActionError {
    /// The action is only implemented for Windows.
    UnsupportedPlatform,
    /// At most one refresh rate is available at the current resolution.
    SingleRefreshRate,
}

// ---------------------------------------------------------------------------
// Page keys
// ---------------------------------------------------------------------------

/// Virtual key codes of Page Up and Page Down.
pub const VK_PRIOR: u16 = 0x21;
pub const VK_NEXT: u16 = 0x22;

/// One keyboard event to inject.
#[derive(Debug, Clone, Copy, PartialEq, Eq, Structural)]
pub struct KeyStroke {
    pub virtual_key: u16,
    pub key_up: bool,
}

/// The keyboard events of one Page Up (`up`) or Page Down press: the key goes
/// down, then up.
pub fn send_page_key(up: bool) -> (r: Vec<KeyStroke>)
    ensures
        r@ == seq![
            KeyStroke { virtual_key: if up { VK_PRIOR } else { VK_NEXT }, key_up: false },
            KeyStroke { virtual_key: if up { VK_PRIOR } else { VK_NEXT }, key_up: true },
        ],
{
    let vk = if up { VK_PRIOR } else { VK_NEXT };
    let r = vec![KeyStroke { virtual_key: vk, key_up: false }, KeyStroke { virtual_key: vk, key_up: true }];
    assert(r@ =~= seq![
        KeyStroke { virtual_key: vk, key_up: false },
        KeyStroke { virtual_key: vk, key_up: true },
    ]);
    r
}

// ---------------------------------------------------------------------------
// Refresh rate
// ---------------------------------------------------------------------------

/// A display mode as the display settings list it.
#[derive(Debug, Clone, Copy, PartialEq, Eq, Structural)]
pub struct DisplayMode {
    pub width: u32,
    pub height: u32,
    pub bits_per_pel: u32,
    pub frequency: u32,
}

/// `m` is a mode of the current resolution and color depth with a real
/// refresh rate (rates 0 and 1 stand for the hardware default).
pub open spec fn same_resolution(m: DisplayMode, current: DisplayMode) -> bool {
    m.width == current.width && m.height == current.height && m.bits_per_pel == current.bits_per_pel
        && m.frequency > 1
}

/// `rate` is available at the current resolution.
pub open spec fn rate_available(modes: Seq<DisplayMode>, current: DisplayMode, rate: u32) -> bool {
    exists|i: int| 0 <= i < modes.len() && same_resolution(modes[i], current) && #[trigger] modes[i].frequency == rate
}

/// At least two different rates are available at the current resolution.
pub open spec fn several_rates(modes: Seq<DisplayMode>, current: DisplayMode) -> bool {
    exists|a: u32, b: u32| a != b && #[trigger] rate_available(modes, current, a) && #[trigger] rate_available(modes, current, b)
}

/// The rate that follows the current one: the lowest available rate above it,
/// wrapping around to the lowest available rate.
pub open spec fn is_next_rate(modes: Seq<DisplayMode>, current: DisplayMode, rate: u32) -> bool {
    &&& rate_available(modes, current, rate)
    &&& if exists|f: u32| #[trigger] rate_available(modes, current, f) && f > current.frequency {
        rate > current.frequency && forall|f: u32| #[trigger] rate_available(modes, current, f) && f > current.frequency ==> rate <= f
    } else {
        forall|f: u32| #[trigger] rate_available(modes, current, f) ==> rate <= f
    }
}

proof fn lemma_available_prefix(modes: Seq<DisplayMode>, current: DisplayMode, i: int, f: u32)
    requires
        0 <= i < modes.len(),
    ensures
        rate_available(modes.take(i + 1), current, f) <==> (rate_available(modes.take(i), current, f) || (
        same_resolution(modes[i], current) && modes[i].frequency == f)),
{
    let s = modes.take(i + 1);
    let t = modes.take(i);
    if rate_available(s, current, f) {
        let k = choose|k: int| 0 <= k < s.len() && same_resolution(s[k], current) && #[trigger] s[k].frequency == f;
        if k < i {
            assert(t[k] == s[k]);
        }
    }
    if rate_available(t, current, f) {
        let k = choose|k: int| 0 <= k < t.len() && same_resolution(t[k], current) && #[trigger] t[k].frequency == f;
        assert(s[k] == t[k]);
    }
    if same_resolution(modes[i], current) && modes[i].frequency == f {
        assert(s[i] == modes[i]);
    }
}

/// `lowest` is the lowest rate available in `s`, if any.
spec fn tracks_lowest(s: Seq<DisplayMode>, current: DisplayMode, lowest: Option<u32>) -> bool {
    match lowest {
        None => forall|f: u32| !#[trigger] rate_available(s, current, f),
        Some(lo) => rate_available(s, current, lo) && forall|f: u32| #[trigger] rate_available(s, current, f) ==> lo <= f,
    }
}

/// `above` is the lowest rate available in `s` above the current one, if any.
spec fn tracks_above(s: Seq<DisplayMode>, current: DisplayMode, above: Option<u32>) -> bool {
    match above {
        None => forall|f: u32| #[trigger] rate_available(s, current, f) ==> f <= current.frequency,
        Some(ab) => rate_available(s, current, ab) && ab > current.frequency
            && forall|f: u32| #[trigger] rate_available(s, current, f) && f > current.frequency ==> ab <= f,
    }
}

proof fn lemma_step(
    s0: Seq<DisplayMode>,
    s1: Seq<DisplayMode>,
    current: DisplayMode,
    m: DisplayMode,
    lowest: Option<u32>,
    above: Option<u32>,
    several: bool,
)
    requires
        forall|f: u32| #[trigger] rate_available(s1, current, f) <==> (rate_available(s0, current, f) || (
            same_resolution(m, current) && m.frequency == f)),
        tracks_lowest(s0, current, lowest),
        tracks_above(s0, current, above),
        several <==> several_rates(s0, current),
    ensures
        same_resolution(m, current) ==> {
            let f = m.frequency;
            let lowest1 = match lowest { None => Some(f), Some(lo) => if f < lo { Some(f) } else { Some(lo) } };
            let above1 = if f > current.frequency {
                match above { None => Some(f), Some(ab) => if f < ab { Some(f) } else { Some(ab) } }
            } else {
                above
            };
            let several1 = several || (lowest matches Some(lo) && f != lo);
            &&& tracks_lowest(s1, current, lowest1)
            &&& tracks_above(s1, current, above1)
            &&& several1 <==> several_rates(s1, current)
        },
        !same_resolution(m, current) ==> {
            &&& tracks_lowest(s1, current, lowest)
            &&& tracks_above(s1, current, above)
            &&& several <==> several_rates(s1, current)
        },
{
    let f = m.frequency;
    if same_resolution(m, current) {
        assert(rate_available(s1, current, f));
        let several1 = several || (lowest matches Some(lo) && f != lo);
        if several1 {
            if several {
                let (a, b) = choose|a: u32, b: u32| a != b && #[trigger] rate_available(s0, current, a) && #[trigger] rate_available(s0, current, b);
                assert(rate_available(s1, current, a) && rate_available(s1, current, b));
            } else {
                let lo = lowest->Some_0;
                assert(rate_available(s1, current, lo) && rate_available(s1, current, f));
            }
            assert(several_rates(s1, current));
        } else {
            if several_rates(s1, current) {
                let (a, b) = choose|a: u32, b: u32| a != b && #[trigger] rate_available(s1, current, a) && #[trigger] rate_available(s1, current, b);
                if a != f && b != f {
                    assert(rate_available(s0, current, a) && rate_available(s0, current, b));
                    assert(several_rates(s0, current));
                } else if a != f {
                    assert(rate_available(s0, current, a));
                    assert(lowest is Some);
                    let lo = lowest->Some_0;
                    if a != lo {
                        assert(several_rates(s0, current));
                    }
                } else {
                    assert(rate_available(s0, current, b));
                    let lo = lowest->Some_0;
                    if b != lo {
                        assert(several_rates(s0, current));
                    }
                }
            }
        }
    } else {
        assert forall|g: u32| #[trigger] rate_available(s1, current, g) == rate_available(s0, current, g) by {}
        if several_rates(s1, current) {
            let (a, b) = choose|a: u32, b: u32| a != b && #[trigger] rate_available(s1, current, a) && #[trigger] rate_available(s1, current, b);
            assert(rate_available(s0, current, a) && rate_available(s0, current, b));
        }
        if several_rates(s0, current) {
            let (a, b) = choose|a: u32, b: u32| a != b && #[trigger] rate_available(s0, current, a) && #[trigger] rate_available(s0, current, b);
            assert(rate_available(s1, current, a) && rate_available(s1, current, b));
        }
    }
}

proof fn lemma_next_rate_differs(modes: Seq<DisplayMode>, current: DisplayMode, lowest: Option<u32>, above: Option<u32>)
    requires
        tracks_lowest(modes, current, lowest),
        tracks_above(modes, current, above),
        several_rates(modes, current),
    ensures
        lowest is Some,
        above matches Some(ab) ==> is_next_rate(modes, current, ab) && ab != current.frequency,
        above is None ==> is_next_rate(modes, current, lowest->Some_0) && lowest->Some_0 != current.frequency,
{
    let (a, b) = choose|a: u32, b: u32| a != b && #[trigger] rate_available(modes, current, a) && #[trigger] rate_available(modes, current, b);
    assert(lowest is Some);
    if above is None {
        let lo = lowest->Some_0;
        assert(lo <= a && lo <= b);
        assert(a <= current.frequency && b <= current.frequency);
        assert(!(exists|f: u32| #[trigger] rate_available(modes, current, f) && f > current.frequency));
    } else {
        let ab = above->Some_0;
        assert(exists|f: u32| #[trigger] rate_available(modes, current, f) && f > current.frequency);
    }
}

/// Switches to the next refresh rate at the current resolution: the lowest
/// available rate above the current one, or, from the highest, the lowest.
/// Fails when fewer than two rates are available.
pub fn cycle_refresh_rate(current: DisplayMode, modes: &[DisplayMode]) -> (r: Result<u32, ActionError>)
    ensures
        r is Err <==> !several_rates(modes@, current),
        r is Err ==> r->Err_0 == ActionError::SingleRefreshRate,
        r matches Ok(rate) ==> is_next_rate(modes@, current, rate) && rate != current.frequency,
{
    // the lowest rate seen, the lowest rate seen above the current one, and
    // whether two different rates were seen
    let mut lowest: Option<u32> = None;
    let mut above: Option<u32> = None;
    let mut several = false;
    let n = modes.len();
    proof {
        let s = modes@.take(0);
        assert forall|f: u32| !#[trigger] rate_available(s, current, f) by {}
        if several_rates(s, current) {
            let (a, b) = choose|a: u32, b: u32| a != b && #[trigger] rate_available(s, current, a) && #[trigger] rate_available(s, current, b);
        }
    }
    for i in 0..n
        invariant
            n == modes@.len(),
            tracks_lowest(modes@.take(i as int), current, lowest),
            tracks_above(modes@.take(i as int), current, above),
            several <==> several_rates(modes@.take(i as int), current),
    {
        let m = modes[i];
        proof {
            assert forall|f: u32| #[trigger] rate_available(modes@.take(i + 1), current, f) <==> (
                rate_available(modes@.take(i as int), current, f) || (same_resolution(m, current) && m.frequency == f)) by {
                lemma_available_prefix(modes@, current, i as int, f);
            }
            lemma_step(modes@.take(i as int), modes@.take(i + 1), current, m, lowest, above, several);
        }
        if m.width == current.width && m.height == current.height && m.bits_per_pel == current.bits_per_pel
            && m.frequency > 1 {
            let f = m.frequency;
            match lowest {
                None => {
                    lowest = Some(f);
                },
                Some(lo) => {
                    if f != lo {
                        several = true;
                    }
                    if f < lo {
                        lowest = Some(f);
                    }
                },
            }
            if f > current.frequency {
                match above {
                    None => {
                        above = Some(f);
                    },
                    Some(ab) => {
                        if f < ab {
                            above = Some(f);
                        }
                    },
                }
            }
        }
    }
    assert(modes@.take(n as int) =~= modes@);
    if !several {
        return Err(ActionError::SingleRefreshRate);
    }
    proof {
        lemma_next_rate_differs(modes@, current, lowest, above);
    }
    match above {
        Some(ab) => Ok(ab),
        None => match lowest {
            Some(lo) => Ok(lo),
            None => Err(ActionError::SingleRefreshRate),
        },
    }
}

// ---------------------------------------------------------------------------
// Microphone
// ---------------------------------------------------------------------------

/// The mute state to set on the default capture device, given its current
/// one; it is also the state reported back.
pub fn toggle_mic_mute(muted: bool) -> (r: bool)
    ensures
        r == !muted,
{
    !muted
}

} // verus!
