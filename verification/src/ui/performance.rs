use vstd::prelude::*;

use crate::text::str_eq;
use crate::types::{CpuBoost, GpuBoost, PerfMode};

verus! {

/// Actions that can be triggered from the performance section.
#[derive(Debug, Clone)]
pub enum PerformanceAction {
    NoAction,
    SetPerformanceMode(String),
    ToggleHidden,
    SetCpuBoost(CpuBoost),
    SetGpuBoost(GpuBoost),
}

/// An sRGB color.
#[derive(Debug, Clone, Copy, PartialEq, Eq, Structural)]
pub struct Rgb {
    pub r: u8,
    pub g: u8,
    pub b: u8,
}

pub open spec fn spec_button_color(ac_power: bool, selected: bool) -> Rgb {
    match (ac_power, selected) {
        (true, true) => Rgb { r: 0, g: 120, b: 60 },
        (true, false) => Rgb { r: 60, g: 80, b: 40 },
        (false, true) => Rgb { r: 140, g: 70, b: 0 },
        (false, false) => Rgb { r: 80, g: 60, b: 40 },
    }
}

/// The color of a mode or boost button: green shades on AC power, orange
/// shades on battery, the brighter one for the selected button.
pub fn button_color(ac_power: bool, selected: bool) -> (r: Rgb)
    ensures
        r == spec_button_color(ac_power, selected),
{
    match (ac_power, selected) {
        (true, true) => Rgb { r: 0, g: 120, b: 60 },
        (true, false) => Rgb { r: 60, g: 80, b: 40 },
        (false, true) => Rgb { r: 140, g: 70, b: 0 },
        (false, false) => Rgb { r: 80, g: 60, b: 40 },
    }
}

fn contains_mode(modes: &[PerfMode], mode: PerfMode) -> (r: bool)
    ensures
        r == modes@.contains(mode),
{
    let n = modes.len();
    for i in 0..n
        invariant
            n == modes@.len(),
            forall|k: int| 0 <= k < i ==> modes@[k] != mode,
    {
        if modes[i] == mode {
            assert(modes@[i as int] == mode);
            return true;
        }
    }
    false
}

/// `mode` if it is available, else nothing.
pub open spec fn if_available(available: Seq<PerfMode>, mode: PerfMode) -> Seq<PerfMode> {
    if available.contains(mode) { seq![mode] } else { Seq::empty() }
}

/// The mode of each button position, from the most frugal standard mode to
/// the most powerful, then Custom.
pub open spec fn mode_of_rank(k: int) -> PerfMode {
    if k <= 0 {
        PerfMode::Battery
    } else if k == 1 {
        PerfMode::Silent
    } else if k == 2 {
        PerfMode::Balanced
    } else if k == 3 {
        PerfMode::Performance
    } else if k == 4 {
        PerfMode::Hyperboost
    } else {
        PerfMode::Custom
    }
}

/// The position of a mode among the buttons.
pub open spec fn mode_rank(m: PerfMode) -> int {
    match m {
        PerfMode::Battery => 0,
        PerfMode::Silent => 1,
        PerfMode::Balanced => 2,
        PerfMode::Performance => 3,
        PerfMode::Hyperboost => 4,
        PerfMode::Custom => 5,
    }
}

/// The available modes among the first `k` positions, in order.
pub open spec fn mode_buttons_upto(available: Seq<PerfMode>, k: nat) -> Seq<PerfMode>
    decreases k,
{
    if k == 0 {
        Seq::empty()
    } else {
        mode_buttons_upto(available, (k - 1) as nat) + if_available(available, mode_of_rank(k - 1))
    }
}

/// The mode buttons in display order: the standard modes from the most
/// frugal to the most powerful, then Custom, each only if available.
pub open spec fn spec_mode_buttons(available: Seq<PerfMode>) -> Seq<PerfMode> {
    mode_buttons_upto(available, 6)
}

/// The mode buttons to show, in display order (Custom, if available, last and
/// apart from the others).
pub fn mode_buttons(available: &[PerfMode]) -> (r: Vec<PerfMode>)
    ensures
        r@ == spec_mode_buttons(available@),
{
    let mut out: Vec<PerfMode> = Vec::new();
    if contains_mode(available, PerfMode::Battery) {
        out.push(PerfMode::Battery);
    }
    if contains_mode(available, PerfMode::Silent) {
        out.push(PerfMode::Silent);
    }
    if contains_mode(available, PerfMode::Balanced) {
        out.push(PerfMode::Balanced);
    }
    if contains_mode(available, PerfMode::Performance) {
        out.push(PerfMode::Performance);
    }
    if contains_mode(available, PerfMode::Hyperboost) {
        out.push(PerfMode::Hyperboost);
    }
    if contains_mode(available, PerfMode::Custom) {
        out.push(PerfMode::Custom);
    }
    assert(out@ =~= spec_mode_buttons(available@)) by {
        reveal_with_fuel(mode_buttons_upto, 7);
    }
    out
}

/// Some available mode is not among the descriptor's modes: hidden modes are
/// being shown.
pub open spec fn showing_hidden_modes(available: Seq<PerfMode>, base: Seq<PerfMode>) -> bool {
    exists|i: int| 0 <= i < available.len() && !base.contains(#[trigger] available[i])
}

/// Whether the button of `mode` is drawn as a hidden mode (dimmed, with a
/// hint): hidden modes are being shown and the descriptor does not list it.
pub fn is_hidden_mode(available: &[PerfMode], base: &[PerfMode], mode: PerfMode) -> (r: bool)
    ensures
        r == (showing_hidden_modes(available@, base@) && !base@.contains(mode)),
{
    let n = available.len();
    let mut showing = false;
    for i in 0..n
        invariant
            n == available@.len(),
            showing <==> exists|k: int| 0 <= k < i && !base@.contains(#[trigger] available@[k]),
    {
        if !contains_mode(base, available[i]) {
            showing = true;
        }
    }
    showing && !contains_mode(base, mode)
}

/// Whether the CPU and GPU boost rows are shown: with a device, in Custom mode;
/// without one, while hidden controls are revealed (to explore the controls).
pub fn show_custom_controls(no_device: bool, showing_hidden: bool, custom_mode: bool) -> (r: bool)
    ensures
        r == (if no_device { showing_hidden } else { custom_mode }),
{
    if no_device { showing_hidden } else { custom_mode }
}

/// Whether the (CPU, GPU) boost pair is refused by the descriptor; debug mode
/// lifts the restriction.
pub fn boost_pair_blocked(disallowed: &[(CpuBoost, GpuBoost)], cpu: CpuBoost, gpu: GpuBoost, debug_mode: bool) -> (r: bool)
    ensures
        r == (!debug_mode && disallowed@.contains((cpu, gpu))),
{
    if debug_mode {
        return false;
    }
    let n = disallowed.len();
    for i in 0..n
        invariant
            n == disallowed@.len(),
            !debug_mode,
            forall|k: int| 0 <= k < i ==> disallowed@[k] != (cpu, gpu),
    {
        let pair = disallowed[i];
        if pair.0 == cpu && pair.1 == gpu {
            assert(disallowed@[i as int] == (cpu, gpu));
            return true;
        }
    }
    false
}

/// Whether a boost button can be clicked: only in Custom mode, and not for a
/// pair the descriptor refuses.
pub fn boost_button_enabled(custom_active: bool, blocked: bool) -> (r: bool)
    ensures
        r == (custom_active && !blocked),
{
    custom_active && !blocked
}

/// Whether a CPU boost is beyond the descriptor's list (drawn dimmed).
pub fn is_extra_cpu_boost(base: &[CpuBoost], boost: CpuBoost) -> (r: bool)
    ensures
        r == !base@.contains(boost),
{
    let n = base.len();
    for i in 0..n
        invariant
            n == base@.len(),
            forall|k: int| 0 <= k < i ==> base@[k] != boost,
    {
        if base[i] == boost {
            assert(base@[i as int] == boost);
            return false;
        }
    }
    true
}

/// Whether a GPU boost is beyond the descriptor's list (drawn dimmed).
pub fn is_extra_gpu_boost(base: &[GpuBoost], boost: GpuBoost) -> (r: bool)
    ensures
        r == !base@.contains(boost),
{
    let n = base.len();
    for i in 0..n
        invariant
            n == base@.len(),
            forall|k: int| 0 <= k < i ==> base@[k] != boost,
    {
        if base[i] == boost {
            assert(base@[i as int] == boost);
            return false;
        }
    }
    true
}

/// The action of a click on the button of `mode` while the mode named
/// `current` is in force: only another mode is asked for, by its name.
pub fn mode_click(current: &str, mode: PerfMode) -> (r: PerformanceAction)
    ensures
        current@ == mode.spec_name() ==> r is NoAction,
        current@ != mode.spec_name() ==> (r matches PerformanceAction::SetPerformanceMode(name) && name@ == mode.spec_name()),
{
    let name = mode.name();
    if str_eq(current, name) {
        PerformanceAction::NoAction
    } else {
        PerformanceAction::SetPerformanceMode(name.to_owned())
    }
}

/// The action of a click on a CPU boost button: only another level is set.
pub fn cpu_boost_click(current: CpuBoost, clicked: CpuBoost) -> (r: PerformanceAction)
    ensures
        clicked == current ==> r is NoAction,
        clicked != current ==> r == PerformanceAction::SetCpuBoost(clicked),
{
    if clicked != current { PerformanceAction::SetCpuBoost(clicked) } else { PerformanceAction::NoAction }
}

/// The action of a click on a GPU boost button: only another level is set.
pub fn gpu_boost_click(current: GpuBoost, clicked: GpuBoost) -> (r: PerformanceAction)
    ensures
        clicked == current ==> r is NoAction,
        clicked != current ==> r == PerformanceAction::SetGpuBoost(clicked),
{
    if clicked != current { PerformanceAction::SetGpuBoost(clicked) } else { PerformanceAction::NoAction }
}

proof fn lemma_mode_buttons_upto(available: Seq<PerfMode>, k: nat)
    requires
        k <= 6,
    ensures
        forall|m: PerfMode| #[trigger] mode_buttons_upto(available, k).contains(m) <==> (available.contains(m) && mode_rank(m) < k),
        forall|i: int, j: int| 0 <= i < j < mode_buttons_upto(available, k).len()
            ==> mode_rank(#[trigger] mode_buttons_upto(available, k)[i]) < mode_rank(#[trigger] mode_buttons_upto(available, k)[j]),
        forall|i: int| 0 <= i < mode_buttons_upto(available, k).len() ==> mode_rank(#[trigger] mode_buttons_upto(available, k)[i]) < k,
    decreases k,
{
    if k > 0 {
        lemma_mode_buttons_upto(available, (k - 1) as nat);
        let acc = mode_buttons_upto(available, (k - 1) as nat);
        let m = mode_of_rank(k - 1);
        let next = mode_buttons_upto(available, k);
        assert(next == acc + if_available(available, m));
        assert(mode_rank(m) == k - 1);
        assert forall|x: PerfMode| #[trigger] next.contains(x) <==> (available.contains(x) && mode_rank(x) < k) by {
            assert(mode_of_rank(mode_rank(x)) == x);
            if next.contains(x) {
                let i = choose|i: int| 0 <= i < next.len() && next[i] == x;
                if i >= acc.len() {
                    assert(available.contains(m));
                    assert(if_available(available, m) == seq![m]);
                    assert(x == m);
                } else {
                    assert(acc[i] == x);
                    assert(acc.contains(x));
                }
            }
            if available.contains(x) && mode_rank(x) < k {
                if mode_rank(x) == k - 1 {
                    assert(x == m);
                    assert(if_available(available, m) == seq![m]);
                    assert(next[acc.len() as int] == x);
                } else {
                    assert(acc.contains(x));
                    let i = choose|i: int| 0 <= i < acc.len() && acc[i] == x;
                    assert(next[i] == x);
                }
            }
        }
        assert forall|i: int, j: int| 0 <= i < j < next.len() implies mode_rank(#[trigger] next[i]) < mode_rank(#[trigger] next[j]) by {
            if j >= acc.len() {
                assert(next[j] == m);
                if i < acc.len() {
                    assert(next[i] == acc[i]);
                }
            } else {
                assert(next[i] == acc[i] && next[j] == acc[j]);
            }
        }
        assert forall|i: int| 0 <= i < next.len() implies mode_rank(#[trigger] next[i]) < k by {
            if i < acc.len() {
                assert(next[i] == acc[i]);
            }
        }
    }
}

/// The buttons are the available modes, each once, in rank order (so
/// Custom, when available, comes last).
pub proof fn lemma_mode_buttons_cover_available(available: Seq<PerfMode>)
    ensures
        forall|m: PerfMode| #[trigger] spec_mode_buttons(available).contains(m) <==> available.contains(m),
        forall|i: int, j: int| 0 <= i < j < spec_mode_buttons(available).len()
            ==> mode_rank(#[trigger] spec_mode_buttons(available)[i]) < mode_rank(#[trigger] spec_mode_buttons(available)[j]),
{
    lemma_mode_buttons_upto(available, 6);
}

/// The power source caption of the performance section.
pub fn power_status_text(ac_power: bool) -> (r: &'static str)
    ensures
        r@ == (if ac_power { "AC Power"@ } else { "Battery"@ }),
{
    if ac_power { "AC Power" } else { "Battery" }
}

/// Buttons are green shades on AC power and orange shades on battery, and the
/// selected button has the stronger shade: on AC the one with more green, on
/// battery the one with more red; the four colors are (0,120,60), (60,80,40),
/// (140,70,0) and (80,60,40), in that order for (AC, selected),
/// (AC, unselected), (battery, selected), (battery, unselected).
pub proof fn lemma_button_color_shades(ac_power: bool, selected: bool)
    ensures
        ac_power ==> spec_button_color(ac_power, selected).g > spec_button_color(ac_power, selected).r,
        !ac_power ==> spec_button_color(ac_power, selected).r > spec_button_color(ac_power, selected).g,
        ac_power ==> spec_button_color(true, true).g > spec_button_color(true, false).g,
        !ac_power ==> spec_button_color(false, true).r > spec_button_color(false, false).r,
        (spec_button_color(ac_power, selected) == Rgb { r: 0, g: 120, b: 60 }) <==> (ac_power && selected),
        (spec_button_color(ac_power, selected) == Rgb { r: 60, g: 80, b: 40 }) <==> (ac_power && !selected),
        (spec_button_color(ac_power, selected) == Rgb { r: 140, g: 70, b: 0 }) <==> (!ac_power && selected),
        (spec_button_color(ac_power, selected) == Rgb { r: 80, g: 60, b: 40 }) <==> (!ac_power && !selected),
{
}

/// The display order of the mode buttons, from the most frugal mode to the
/// most powerful, then Custom.
pub open spec fn display_order() -> Seq<PerfMode> {
    seq![
        PerfMode::Battery,
        PerfMode::Silent,
        PerfMode::Balanced,
        PerfMode::Performance,
        PerfMode::Hyperboost,
        PerfMode::Custom,
    ]
}

/// The mode buttons are the modes of the display order Battery, Silent,
/// Balanced, Performance, Hyperboost, Custom that are available, in that order.
pub proof fn lemma_mode_buttons_follow_display_order(available: Seq<PerfMode>)
    ensures
        spec_mode_buttons(available) == display_order().filter(|m: PerfMode| available.contains(m)),
{
    reveal_with_fuel(mode_buttons_upto, 7);
    reveal_with_fuel(Seq::filter, 7);
    let o = display_order();
    assert(o.drop_last().drop_last().drop_last().drop_last().drop_last().drop_last() =~= Seq::<PerfMode>::empty());
    assert(o.drop_last() =~= seq![PerfMode::Battery, PerfMode::Silent, PerfMode::Balanced, PerfMode::Performance, PerfMode::Hyperboost]);
    assert(o.drop_last().drop_last() =~= seq![PerfMode::Battery, PerfMode::Silent, PerfMode::Balanced, PerfMode::Performance]);
    assert(o.drop_last().drop_last().drop_last() =~= seq![PerfMode::Battery, PerfMode::Silent, PerfMode::Balanced]);
    assert(o.drop_last().drop_last().drop_last().drop_last() =~= seq![PerfMode::Battery, PerfMode::Silent]);
    assert(o.drop_last().drop_last().drop_last().drop_last().drop_last() =~= seq![PerfMode::Battery]);
    assert(spec_mode_buttons(available) =~= display_order().filter(|m: PerfMode| available.contains(m)));
}

} // verus!
