use vstd::prelude::*;

use crate::gpu::{DisplayOwner, GpuPreference};

verus! {

/// Actions that can be triggered from the GPU section.
#[derive(Debug, Clone, Copy, PartialEq, Eq, Structural)]
pub enum GpuAction {
    NoAction,
    /// Set the global rendering preference (NVIDIA "Preferred graphics processor")
    SetPreference(GpuPreference),
    /// Open the Windows per-app graphics preference settings page
    OpenWindowsGraphics,
    /// Open the NVIDIA Control Panel (for Advanced Optimus display mode)
    OpenNvidiaPanel,
}

pub open spec fn spec_display_owner_text(owner: DisplayOwner) -> Seq<char> {
    match owner {
        DisplayOwner::Nvidia => "Display: NVIDIA dGPU"@,
        DisplayOwner::Integrated => "Display: iGPU"@,
        DisplayOwner::Unknown => "Display: Unknown"@,
    }
}

/// The caption that tells which GPU drives the primary display.
pub fn display_owner_text(owner: DisplayOwner) -> (r: &'static str)
    ensures
        r@ == spec_display_owner_text(owner),
{
    match owner {
        DisplayOwner::Nvidia => "Display: NVIDIA dGPU",
        DisplayOwner::Integrated => "Display: iGPU",
        DisplayOwner::Unknown => "Display: Unknown",
    }
}

pub open spec fn spec_preference_label(pref: GpuPreference) -> Seq<char> {
    match pref {
        GpuPreference::Integrated => "Integrated"@,
        GpuPreference::Auto => "Auto"@,
        GpuPreference::Dedicated => "NVIDIA"@,
    }
}

/// The label of a preference's button.
pub fn preference_label(pref: GpuPreference) -> (r: &'static str)
    ensures
        r@ == spec_preference_label(pref),
{
    match pref {
        GpuPreference::Integrated => "Integrated",
        GpuPreference::Auto => "Auto",
        GpuPreference::Dedicated => "NVIDIA",
    }
}

pub open spec fn spec_preference_tip(pref: GpuPreference) -> Seq<char> {
    match pref {
        GpuPreference::Integrated => "Applications render on the integrated GPU by default (best battery life)"@,
        GpuPreference::Auto => "The NVIDIA driver picks the GPU per application (driver default)"@,
        GpuPreference::Dedicated => "Applications render on the NVIDIA GPU by default (best performance)"@,
    }
}

/// The hover text of a preference's button.
pub fn preference_tip(pref: GpuPreference) -> (r: &'static str)
    ensures
        r@ == spec_preference_tip(pref),
{
    match pref {
        GpuPreference::Integrated => "Applications render on the integrated GPU by default (best battery life)",
        GpuPreference::Auto => "The NVIDIA driver picks the GPU per application (driver default)",
        GpuPreference::Dedicated => "Applications render on the NVIDIA GPU by default (best performance)",
    }
}

/// The preference buttons, in display order.
pub fn preference_choices() -> (r: Vec<GpuPreference>)
    ensures
        r@ == seq![GpuPreference::Integrated, GpuPreference::Auto, GpuPreference::Dedicated],
{
    let r = vec![GpuPreference::Integrated, GpuPreference::Auto, GpuPreference::Dedicated];
    assert(r@ =~= seq![GpuPreference::Integrated, GpuPreference::Auto, GpuPreference::Dedicated]);
    r
}

/// The action of a click on the button of `clicked` while `current` is in
/// force: only a different preference is set.
pub fn preference_click(current: GpuPreference, clicked: GpuPreference) -> (r: GpuAction)
    ensures
        r == (if clicked != current { GpuAction::SetPreference(clicked) } else { GpuAction::NoAction }),
{
    if clicked != current {
        GpuAction::SetPreference(clicked)
    } else {
        GpuAction::NoAction
    }
}

/// Each preference button is labelled with the preference it sets:
/// "Integrated" is Integrated's label, "Auto" Auto's, "NVIDIA" Dedicated's,
/// and no two preferences share a label.
pub proof fn lemma_preference_labels_name_preferences(p: GpuPreference, q: GpuPreference)
    ensures
        (spec_preference_label(p) == "Integrated"@) <==> (p == GpuPreference::Integrated),
        (spec_preference_label(p) == "Auto"@) <==> (p == GpuPreference::Auto),
        (spec_preference_label(p) == "NVIDIA"@) <==> (p == GpuPreference::Dedicated),
        spec_preference_label(p) == spec_preference_label(q) ==> p == q,
        (spec_preference_tip(p) == "Applications render on the integrated GPU by default (best battery life)"@)
            <==> (p == GpuPreference::Integrated),
        (spec_preference_tip(p) == "The NVIDIA driver picks the GPU per application (driver default)"@)
            <==> (p == GpuPreference::Auto),
        (spec_preference_tip(p) == "Applications render on the NVIDIA GPU by default (best performance)"@)
            <==> (p == GpuPreference::Dedicated),
{
    reveal_strlit("Integrated");
    reveal_strlit("Auto");
    reveal_strlit("NVIDIA");
    reveal_strlit("Applications render on the integrated GPU by default (best battery life)");
    reveal_strlit("The NVIDIA driver picks the GPU per application (driver default)");
    reveal_strlit("Applications render on the NVIDIA GPU by default (best performance)");
    let l = spec_preference_label(p);
    let m = spec_preference_label(q);
    assert(l.len() != 10 || l[0] != 'I' ==> l != "Integrated"@);
    assert(l.len() != 4 || l[0] != 'A' ==> l != "Auto"@);
    assert(l.len() != 6 || l[0] != 'N' ==> l != "NVIDIA"@);
    if p != q {
        assert(l.len() != m.len() || l[0] != m[0]);
    }
    let t = spec_preference_tip(p);
    assert(t.len() != 72 ==> t != "Applications render on the integrated GPU by default (best battery life)"@);
    assert(t.len() != 64 ==> t != "The NVIDIA driver picks the GPU per application (driver default)"@);
    assert(t.len() != 67 ==> t != "Applications render on the NVIDIA GPU by default (best performance)"@);
}

/// The display caption names the GPU that drives the display:
/// "Display: NVIDIA dGPU" for NVIDIA, "Display: iGPU" for the integrated GPU,
/// "Display: Unknown" otherwise, each for that owner only.
pub proof fn lemma_display_owner_text_names_owner(o: DisplayOwner)
    ensures
        (spec_display_owner_text(o) == "Display: NVIDIA dGPU"@) <==> (o == DisplayOwner::Nvidia),
        (spec_display_owner_text(o) == "Display: iGPU"@) <==> (o == DisplayOwner::Integrated),
        (spec_display_owner_text(o) == "Display: Unknown"@) <==> (o == DisplayOwner::Unknown),
{
    reveal_strlit("Display: NVIDIA dGPU");
    reveal_strlit("Display: iGPU");
    reveal_strlit("Display: Unknown");
    let t = spec_display_owner_text(o);
    assert(t.len() != 20 ==> t != "Display: NVIDIA dGPU"@);
    assert(t.len() != 13 ==> t != "Display: iGPU"@);
    assert(t.len() != 16 ==> t != "Display: Unknown"@);
}

} // verus!
