use vstd::prelude::*;

verus! {

/// Performance modes a Blade laptop can run in.
#[derive(Debug, Clone, Copy, PartialEq, Eq, Structural)]
pub enum PerfMode {
    Battery,
    Silent,
    Balanced,
    Performance,
    Hyperboost,
    Custom,
}

/// CPU power levels available in the Custom performance mode.
#[derive(Debug, Clone, Copy, PartialEq, Eq, Structural)]
pub enum CpuBoost {
    Low,
    Medium,
    High,
    Boost,
    Undervolt,
}

/// GPU power levels available in the Custom performance mode.
#[derive(Debug, Clone, Copy, PartialEq, Eq, Structural)]
pub enum GpuBoost {
    Low,
    Medium,
    High,
}

impl PerfMode {
    pub open spec fn spec_name(self) -> Seq<char> {
        match self {
            PerfMode::Battery => "Battery"@,
            PerfMode::Silent => "Silent"@,
            PerfMode::Balanced => "Balanced"@,
            PerfMode::Performance => "Performance"@,
            PerfMode::Hyperboost => "Hyperboost"@,
            PerfMode::Custom => "Custom"@,
        }
    }

    /// The mode's display name (the variant's name).
    pub fn name(&self) -> (r: &'static str)
        ensures
            r@ == self.spec_name(),
    {
        match self {
            PerfMode::Battery => "Battery",
            PerfMode::Silent => "Silent",
            PerfMode::Balanced => "Balanced",
            PerfMode::Performance => "Performance",
            PerfMode::Hyperboost => "Hyperboost",
            PerfMode::Custom => "Custom",
        }
    }
}

/// Each performance mode is named by its variant name, and by no other mode's:
/// the name "Battery" is Battery's, "Silent" Silent's, "Balanced" Balanced's,
/// "Performance" Performance's, "Hyperboost" Hyperboost's, "Custom" Custom's.
/// So a name asked for by a click names the clicked mode.
pub proof fn lemma_perf_mode_names(m: PerfMode)
    ensures
        (m.spec_name() == "Battery"@) <==> (m == PerfMode::Battery),
        (m.spec_name() == "Silent"@) <==> (m == PerfMode::Silent),
        (m.spec_name() == "Balanced"@) <==> (m == PerfMode::Balanced),
        (m.spec_name() == "Performance"@) <==> (m == PerfMode::Performance),
        (m.spec_name() == "Hyperboost"@) <==> (m == PerfMode::Hyperboost),
        (m.spec_name() == "Custom"@) <==> (m == PerfMode::Custom),
        forall|other: PerfMode| #[trigger] other.spec_name() == m.spec_name() ==> other == m,
{
    reveal_strlit("Battery");
    reveal_strlit("Silent");
    reveal_strlit("Balanced");
    reveal_strlit("Performance");
    reveal_strlit("Hyperboost");
    reveal_strlit("Custom");
    let n = m.spec_name();
    assert(n.len() != "Battery"@.len() || n[0] != 'B' || n[2] != 't' ==> n != "Battery"@);
    assert(n.len() != "Silent"@.len() || n[0] != 'S' ==> n != "Silent"@);
    assert(n.len() != "Balanced"@.len() || n[0] != 'B' ==> n != "Balanced"@);
    assert(n.len() != "Performance"@.len() || n[0] != 'P' ==> n != "Performance"@);
    assert(n.len() != "Hyperboost"@.len() || n[0] != 'H' ==> n != "Hyperboost"@);
    assert(n.len() != "Custom"@.len() || n[0] != 'C' ==> n != "Custom"@);
    assert forall|other: PerfMode| #[trigger] other.spec_name() == m.spec_name() implies other == m by {
        let o = other.spec_name();
        if other != m {
            assert(o.len() != n.len() || o[0] != n[0] || o[2] != n[2]);
        }
    }
}

} // verus!
