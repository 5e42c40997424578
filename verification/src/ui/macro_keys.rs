use vstd::prelude::*;

verus! {

/// What a macro key does when pressed.
#[derive(Debug, Clone, Copy, PartialEq, Eq, Structural)]
pub enum MacroAction {
    Disabled,
    PageUp,
    PageDown,
    CycleRefreshRate,
    CyclePerfMode,
    ToggleMicMute,
}

impl MacroAction {
    pub const ALL: [MacroAction; 6] = [
        MacroAction::Disabled,
        MacroAction::PageUp,
        MacroAction::PageDown,
        MacroAction::CycleRefreshRate,
        MacroAction::CyclePerfMode,
        MacroAction::ToggleMicMute,
    ];

    pub open spec fn spec_label(self) -> Seq<char> {
        match self {
            MacroAction::Disabled => "Disabled"@,
            MacroAction::PageUp => "Page Up"@,
            MacroAction::PageDown => "Page Down"@,
            MacroAction::CycleRefreshRate => "Cycle Refresh Rate"@,
            MacroAction::CyclePerfMode => "Cycle Performance Mode"@,
            MacroAction::ToggleMicMute => "Toggle Microphone Mute"@,
        }
    }

    pub fn label(&self) -> (r: &'static str)
        ensures
            r@ == self.spec_label(),
    {
        match self {
            MacroAction::Disabled => "Disabled",
            MacroAction::PageUp => "Page Up",
            MacroAction::PageDown => "Page Down",
            MacroAction::CycleRefreshRate => "Cycle Refresh Rate",
            MacroAction::CyclePerfMode => "Cycle Performance Mode",
            MacroAction::ToggleMicMute => "Toggle Microphone Mute",
        }
    }
}

/// Each action has a label of its own, so a choice made by label names one
/// action.
pub proof fn lemma_macro_action_labels_distinct(a: MacroAction, b: MacroAction)
    ensures
        a.spec_label() == b.spec_label() ==> a == b,
{
    reveal_strlit("Disabled");
    reveal_strlit("Page Up");
    reveal_strlit("Page Down");
    reveal_strlit("Cycle Refresh Rate");
    reveal_strlit("Cycle Performance Mode");
    reveal_strlit("Toggle Microphone Mute");
    if a != b {
        let la = a.spec_label();
        let lb = b.spec_label();
        assert(la.len() != lb.len() || la[0] != lb[0] || la[5] != lb[5] || la[6] != lb[6]);
    }
}

/// Each action's label names it: "Disabled", "Page Up", "Page Down",
/// "Cycle Refresh Rate", "Cycle Performance Mode", "Toggle Microphone Mute"
/// belong to Disabled, PageUp, PageDown, CycleRefreshRate, CyclePerfMode and
/// ToggleMicMute, each to that action only.
pub proof fn lemma_macro_action_labels_name_actions(a: MacroAction)
    ensures
        (a.spec_label() == "Disabled"@) <==> (a == MacroAction::Disabled),
        (a.spec_label() == "Page Up"@) <==> (a == MacroAction::PageUp),
        (a.spec_label() == "Page Down"@) <==> (a == MacroAction::PageDown),
        (a.spec_label() == "Cycle Refresh Rate"@) <==> (a == MacroAction::CycleRefreshRate),
        (a.spec_label() == "Cycle Performance Mode"@) <==> (a == MacroAction::CyclePerfMode),
        (a.spec_label() == "Toggle Microphone Mute"@) <==> (a == MacroAction::ToggleMicMute),
{
    reveal_strlit("Disabled");
    reveal_strlit("Page Up");
    reveal_strlit("Page Down");
    reveal_strlit("Cycle Refresh Rate");
    reveal_strlit("Cycle Performance Mode");
    reveal_strlit("Toggle Microphone Mute");
    let l = a.spec_label();
    assert(l.len() != 8 ==> l != "Disabled"@);
    assert(l.len() != 7 ==> l != "Page Up"@);
    assert(l.len() != 9 ==> l != "Page Down"@);
    assert(l.len() != 18 ==> l != "Cycle Refresh Rate"@);
    assert(l.len() != 22 || l[0] != 'C' ==> l != "Cycle Performance Mode"@);
    assert(l.len() != 22 || l[0] != 'T' ==> l != "Toggle Microphone Mute"@);
}

/// Actions that can be triggered from the macro keys section.
#[derive(Debug, Clone, Copy, PartialEq, Eq, Structural)]
pub enum MacroKeysUiAction {
    NoAction,
    SetEnabled(bool),
    /// (key index 0..=2 for M3..M5, new assignment)
    Assign(usize, MacroAction),
    /// Turn on driver mode (= "Backlight Always On"), required for key events
    EnableDriverMode,
}

/// The keys are silent: handling is enabled but the device is not in driver
/// mode, so the section offers to enable it.
pub fn needs_driver_mode(enabled: bool, driver_mode_active: bool) -> (r: bool)
    ensures
        r == (enabled && !driver_mode_active),
{
    enabled && !driver_mode_active
}

/// The action of choosing `chosen` for key `index`, assigned `current`: only
/// a different choice is an assignment.
pub fn assignment_choice(index: usize, current: MacroAction, chosen: MacroAction) -> (r: MacroKeysUiAction)
    ensures
        r == (if chosen != current { MacroKeysUiAction::Assign(index, chosen) } else { MacroKeysUiAction::NoAction }),
{
    if chosen != current {
        MacroKeysUiAction::Assign(index, chosen)
    } else {
        MacroKeysUiAction::NoAction
    }
}

} // verus!
