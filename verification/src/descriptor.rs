use vstd::prelude::*;

use crate::text::{str_eq};
use crate::types::{CpuBoost, GpuBoost, PerfMode};

verus! {

/// What the library knows of one laptop model.
///
/// `model_number_prefix` follows Razer's model number scheme ("RZ09-" and four
/// digits); it is matched against the BIOS SystemSKU.
#[derive(Debug, Clone)]
pub struct Descriptor {
    pub model_number_prefix: &'static str,
    pub name: &'static str,
    pub pid: u16,
    pub features: Vec<&'static str>,
    pub init_cmds: Vec<u16>,
    /// Supported performance modes (`None`: all are shown).
    pub perf_modes: Option<Vec<PerfMode>>,
    /// Supported CPU boost levels (`None`: all are shown).
    pub cpu_boosts: Option<Vec<CpuBoost>>,
    /// Supported GPU boost levels (`None`: all are shown).
    pub gpu_boosts: Option<Vec<GpuBoost>>,
    /// (CPU, GPU) boost combinations the firmware refuses.
    pub disallowed_boost_pairs: Option<Vec<(CpuBoost, GpuBoost)>>,
}

/// The mathematical content of a [`Descriptor`].
#[verifier::ext_equal]
pub struct DescriptorModel {
    pub model_number_prefix: Seq<char>,
    pub name: Seq<char>,
    pub pid: u16,
    pub features: Seq<Seq<char>>,
    pub init_cmds: Seq<u16>,
    pub perf_modes: Option<Seq<PerfMode>>,
    pub cpu_boosts: Option<Seq<CpuBoost>>,
    pub gpu_boosts: Option<Seq<GpuBoost>>,
    pub disallowed_boost_pairs: Option<Seq<(CpuBoost, GpuBoost)>>,
}

pub open spec fn opt_seq<T>(o: Option<Vec<T>>) -> Option<Seq<T>> {
    match o {
        Some(v) => Some(v@),
        None => None,
    }
}

pub open spec fn str_views(v: Seq<&'static str>) -> Seq<Seq<char>> {
    v.map_values(|s: &'static str| s@)
}

impl View for Descriptor {
    type V = DescriptorModel;

    open spec fn view(&self) -> DescriptorModel {
        DescriptorModel {
            model_number_prefix: self.model_number_prefix@,
            name: self.name@,
            pid: self.pid,
            features: str_views(self.features@),
            init_cmds: self.init_cmds@,
            perf_modes: opt_seq(self.perf_modes),
            cpu_boosts: opt_seq(self.cpu_boosts),
            gpu_boosts: opt_seq(self.gpu_boosts),
            disallowed_boost_pairs: opt_seq(self.disallowed_boost_pairs),
        }
    }
}

impl Descriptor {
    /// Whether the model lists `feature` among its features.
    pub fn has_feature(&self, feature: &str) -> (r: bool)
        ensures
            r == self@.features.contains(feature@),
    {
        let n = self.features.len();
        for i in 0..n
            invariant
                n == self.features@.len(),
                forall|j: int| 0 <= j < i ==> self.features@[j]@ != feature@,
        {
            if str_eq(self.features[i], feature) {
                assert(self@.features[i as int] == feature@);
                return true;
            }
        }
        assert forall|j: int| 0 <= j < self@.features.len() implies self@.features[j] != feature@ by {
            assert(self@.features[j] == self.features@[j]@);
        }
        false
    }
}

/// Feature names of most models.
pub open spec fn standard_feature_names() -> Seq<Seq<char>> {
    seq!["battery-care"@, "fan"@, "kbd-backlight"@, "lid-logo"@, "lights-always-on"@, "perf"@]
}

/// Feature names of the models without a lid logo.
pub open spec fn logo_less_feature_names() -> Seq<Seq<char>> {
    seq!["battery-care"@, "fan"@, "kbd-backlight"@, "lights-always-on"@, "perf"@]
}

/// The start-up command sequence of the 2025 and later models.
pub open spec fn newer_model_init_cmds() -> Seq<u16> {
    seq![0x0081u16, 0x0086u16, 0x0f90u16, 0x0086u16, 0x0f10u16, 0x0087u16]
}

pub open spec fn limited_perf_modes() -> Seq<PerfMode> {
    seq![PerfMode::Battery, PerfMode::Silent, PerfMode::Balanced, PerfMode::Custom]
}

pub open spec fn all_perf_modes() -> Seq<PerfMode> {
    seq![
        PerfMode::Battery,
        PerfMode::Silent,
        PerfMode::Balanced,
        PerfMode::Performance,
        PerfMode::Hyperboost,
        PerfMode::Custom,
    ]
}

pub open spec fn three_cpu_boosts() -> Seq<CpuBoost> {
    seq![CpuBoost::Low, CpuBoost::Medium, CpuBoost::High]
}

pub open spec fn three_gpu_boosts() -> Seq<GpuBoost> {
    seq![GpuBoost::Low, GpuBoost::Medium, GpuBoost::High]
}

/// The supported models, in lookup order.
pub open spec fn supported_models() -> Seq<DescriptorModel> {
    seq![
        DescriptorModel {
            model_number_prefix: "RZ09-0427"@,
            name: "Razer Blade 14” (2022)"@,
            pid: 0x028c,
            features: standard_feature_names(),
            init_cmds: Seq::<u16>::empty(),
            perf_modes: Some(limited_perf_modes()),
            cpu_boosts: None,
            gpu_boosts: None,
            disallowed_boost_pairs: None,
        },
        DescriptorModel {
            model_number_prefix: "RZ09-0421"@,
            name: "Razer Blade 15” (2022)"@,
            pid: 0x028a,
            features: standard_feature_names(),
            init_cmds: Seq::<u16>::empty(),
            perf_modes: None,
            cpu_boosts: None,
            gpu_boosts: None,
            disallowed_boost_pairs: None,
        },
        DescriptorModel {
            model_number_prefix: "RZ09-0423"@,
            name: "Razer Blade 17” (2022)"@,
            pid: 0x028b,
            features: standard_feature_names(),
            init_cmds: Seq::<u16>::empty(),
            perf_modes: Some(limited_perf_modes()),
            cpu_boosts: None,
            gpu_boosts: None,
            disallowed_boost_pairs: None,
        },
        DescriptorModel {
            model_number_prefix: "RZ09-0482"@,
            name: "Razer Blade 14” (2023)"@,
            pid: 0x029d,
            features: logo_less_feature_names(),
            init_cmds: Seq::<u16>::empty(),
            perf_modes: None,
            cpu_boosts: None,
            gpu_boosts: None,
            disallowed_boost_pairs: None,
        },
        DescriptorModel {
            model_number_prefix: "RZ09-0485"@,
            name: "Razer Blade 15” (2023)"@,
            pid: 0x029e,
            features: standard_feature_names(),
            init_cmds: Seq::<u16>::empty(),
            perf_modes: None,
            cpu_boosts: None,
            gpu_boosts: None,
            disallowed_boost_pairs: None,
        },
        DescriptorModel {
            model_number_prefix: "RZ09-0483"@,
            name: "Razer Blade 16” (2023)"@,
            pid: 0x029f,
            features: standard_feature_names(),
            init_cmds: Seq::<u16>::empty(),
            perf_modes: None,
            cpu_boosts: None,
            gpu_boosts: None,
            disallowed_boost_pairs: None,
        },
        DescriptorModel {
            model_number_prefix: "RZ09-0484"@,
            name: "Razer Blade 18” (2023)"@,
            pid: 0x02a0,
            features: standard_feature_names(),
            init_cmds: Seq::<u16>::empty(),
            perf_modes: None,
            cpu_boosts: None,
            gpu_boosts: None,
            disallowed_boost_pairs: None,
        },
        DescriptorModel {
            model_number_prefix: "RZ09-0508"@,
            name: "Razer Blade 14” (2024)"@,
            pid: 0x02b6,
            features: logo_less_feature_names(),
            init_cmds: Seq::<u16>::empty(),
            perf_modes: None,
            cpu_boosts: None,
            gpu_boosts: None,
            disallowed_boost_pairs: None,
        },
        DescriptorModel {
            model_number_prefix: "RZ09-0510"@,
            name: "Razer Blade 16” (2024)"@,
            pid: 0x02b7,
            features: standard_feature_names(),
            init_cmds: Seq::<u16>::empty(),
            perf_modes: None,
            cpu_boosts: None,
            gpu_boosts: None,
            disallowed_boost_pairs: None,
        },
        DescriptorModel {
            model_number_prefix: "RZ09-0509"@,
            name: "Razer Blade 18” (2024)"@,
            pid: 0x02b8,
            features: standard_feature_names(),
            init_cmds: Seq::<u16>::empty(),
            perf_modes: None,
            cpu_boosts: None,
            gpu_boosts: None,
            disallowed_boost_pairs: None,
        },
        DescriptorModel {
            model_number_prefix: "RZ09-0528"@,
            name: "Razer Blade 16” (2025)"@,
            pid: 0x02c6,
            features: standard_feature_names(),
            init_cmds: newer_model_init_cmds(),
            perf_modes: Some(all_perf_modes()),
            cpu_boosts: Some(three_cpu_boosts()),
            gpu_boosts: Some(three_gpu_boosts()),
            disallowed_boost_pairs: Some(seq![(CpuBoost::High, GpuBoost::High)]),
        },
        DescriptorModel {
            model_number_prefix: "RZ09-0530"@,
            name: "Razer Blade 14” (2025)"@,
            pid: 0x02c5,
            features: standard_feature_names(),
            init_cmds: newer_model_init_cmds(),
            perf_modes: Some(all_perf_modes()),
            cpu_boosts: Some(three_cpu_boosts()),
            gpu_boosts: Some(three_gpu_boosts()),
            disallowed_boost_pairs: Some(seq![(CpuBoost::High, GpuBoost::High)]),
        },
        DescriptorModel {
            model_number_prefix: "RZ09-0529"@,
            name: "Razer Blade 18” (2025)"@,
            pid: 0x02c7,
            features: standard_feature_names(),
            init_cmds: newer_model_init_cmds(),
            perf_modes: Some(all_perf_modes()),
            cpu_boosts: Some(three_cpu_boosts()),
            gpu_boosts: Some(three_gpu_boosts()),
            disallowed_boost_pairs: Some(seq![(CpuBoost::High, GpuBoost::High)]),
        },
        DescriptorModel {
            model_number_prefix: "RZ09-0581"@,
            name: "Razer Blade 16” (2026)"@,
            pid: 0x02e0,
            features: standard_feature_names(),
            init_cmds: newer_model_init_cmds(),
            perf_modes: Some(all_perf_modes()),
            cpu_boosts: Some(three_cpu_boosts()),
            gpu_boosts: Some(three_gpu_boosts()),
            disallowed_boost_pairs: Some(seq![(CpuBoost::High, GpuBoost::High)]),
        },
    ]
}

fn standard_features() -> (r: Vec<&'static str>)
    ensures
        str_views(r@) == standard_feature_names(),
{
    let r = vec!["battery-care", "fan", "kbd-backlight", "lid-logo", "lights-always-on", "perf"];
    assert(str_views(r@) =~= standard_feature_names());
    r
}

fn logo_less_features() -> (r: Vec<&'static str>)
    ensures
        str_views(r@) == logo_less_feature_names(),
{
    let r = vec!["battery-care", "fan", "kbd-backlight", "lights-always-on", "perf"];
    assert(str_views(r@) =~= logo_less_feature_names());
    r
}

fn newer_model_init_cmds_vec() -> (r: Vec<u16>)
    ensures
        r@ == newer_model_init_cmds(),
{
    let r: Vec<u16> = vec![0x0081, 0x0086, 0x0f90, 0x0086, 0x0f10, 0x0087];
    assert(r@ =~= newer_model_init_cmds());
    r
}

fn limited_perf_modes_vec() -> (r: Vec<PerfMode>)
    ensures
        r@ == limited_perf_modes(),
{
    let r = vec![PerfMode::Battery, PerfMode::Silent, PerfMode::Balanced, PerfMode::Custom];
    assert(r@ =~= limited_perf_modes());
    r
}

fn all_perf_modes_vec() -> (r: Vec<PerfMode>)
    ensures
        r@ == all_perf_modes(),
{
    let r = vec![
        PerfMode::Battery,
        PerfMode::Silent,
        PerfMode::Balanced,
        PerfMode::Performance,
        PerfMode::Hyperboost,
        PerfMode::Custom,
    ];
    assert(r@ =~= all_perf_modes());
    r
}

/// The table of supported models (the order is the lookup order).
pub fn supported() -> (r: Vec<Descriptor>)
    ensures
        r@.len() == supported_models().len(),
        forall|i: int| 0 <= i < r@.len() ==> #[trigger] r@[i]@ == supported_models()[i],
{
    let mut table: Vec<Descriptor> = Vec::new();
    table.push(Descriptor {
        model_number_prefix: "RZ09-0427",
        name: "Razer Blade 14” (2022)",
        pid: 0x028c,
        features: standard_features(),
        init_cmds: Vec::new(),
        perf_modes: Some(limited_perf_modes_vec()),
        cpu_boosts: None,
        gpu_boosts: None,
        disallowed_boost_pairs: None,
    });
    table.push(Descriptor {
        model_number_prefix: "RZ09-0421",
        name: "Razer Blade 15” (2022)",
        pid: 0x028a,
        features: standard_features(),
        init_cmds: Vec::new(),
        perf_modes: None,
        cpu_boosts: None,
        gpu_boosts: None,
        disallowed_boost_pairs: None,
    });
    table.push(Descriptor {
        model_number_prefix: "RZ09-0423",
        name: "Razer Blade 17” (2022)",
        pid: 0x028b,
        features: standard_features(),
        init_cmds: Vec::new(),
        perf_modes: Some(limited_perf_modes_vec()),
        cpu_boosts: None,
        gpu_boosts: None,
        disallowed_boost_pairs: None,
    });
    table.push(Descriptor {
        model_number_prefix: "RZ09-0482",
        name: "Razer Blade 14” (2023)",
        pid: 0x029d,
        features: logo_less_features(),
        init_cmds: Vec::new(),
        perf_modes: None,
        cpu_boosts: None,
        gpu_boosts: None,
        disallowed_boost_pairs: None,
    });
    table.push(Descriptor {
        model_number_prefix: "RZ09-0485",
        name: "Razer Blade 15” (2023)",
        pid: 0x029e,
        features: standard_features(),
        init_cmds: Vec::new(),
        perf_modes: None,
        cpu_boosts: None,
        gpu_boosts: None,
        disallowed_boost_pairs: None,
    });
    table.push(Descriptor {
        model_number_prefix: "RZ09-0483",
        name: "Razer Blade 16” (2023)",
        pid: 0x029f,
        features: standard_features(),
        init_cmds: Vec::new(),
        perf_modes: None,
        cpu_boosts: None,
        gpu_boosts: None,
        disallowed_boost_pairs: None,
    });
    table.push(Descriptor {
        model_number_prefix: "RZ09-0484",
        name: "Razer Blade 18” (2023)",
        pid: 0x02a0,
        features: standard_features(),
        init_cmds: Vec::new(),
        perf_modes: None,
        cpu_boosts: None,
        gpu_boosts: None,
        disallowed_boost_pairs: None,
    });
    table.push(Descriptor {
        model_number_prefix: "RZ09-0508",
        name: "Razer Blade 14” (2024)",
        pid: 0x02b6,
        features: logo_less_features(),
        init_cmds: Vec::new(),
        perf_modes: None,
        cpu_boosts: None,
        gpu_boosts: None,
        disallowed_boost_pairs: None,
    });
    table.push(Descriptor {
        model_number_prefix: "RZ09-0510",
        name: "Razer Blade 16” (2024)",
        pid: 0x02b7,
        features: standard_features(),
        init_cmds: Vec::new(),
        perf_modes: None,
        cpu_boosts: None,
        gpu_boosts: None,
        disallowed_boost_pairs: None,
    });
    table.push(Descriptor {
        model_number_prefix: "RZ09-0509",
        name: "Razer Blade 18” (2024)",
        pid: 0x02b8,
        features: standard_features(),
        init_cmds: Vec::new(),
        perf_modes: None,
        cpu_boosts: None,
        gpu_boosts: None,
        disallowed_boost_pairs: None,
    });
    table.push(Descriptor {
        model_number_prefix: "RZ09-0528",
        name: "Razer Blade 16” (2025)",
        pid: 0x02c6,
        features: standard_features(),
        init_cmds: newer_model_init_cmds_vec(),
        perf_modes: Some(all_perf_modes_vec()),
        cpu_boosts: Some(vec![CpuBoost::Low, CpuBoost::Medium, CpuBoost::High]),
        gpu_boosts: Some(vec![GpuBoost::Low, GpuBoost::Medium, GpuBoost::High]),
        disallowed_boost_pairs: Some(vec![(CpuBoost::High, GpuBoost::High)]),
    });
    table.push(Descriptor {
        model_number_prefix: "RZ09-0530",
        name: "Razer Blade 14” (2025)",
        pid: 0x02c5,
        features: standard_features(),
        init_cmds: newer_model_init_cmds_vec(),
        perf_modes: Some(all_perf_modes_vec()),
        cpu_boosts: Some(vec![CpuBoost::Low, CpuBoost::Medium, CpuBoost::High]),
        gpu_boosts: Some(vec![GpuBoost::Low, GpuBoost::Medium, GpuBoost::High]),
        disallowed_boost_pairs: Some(vec![(CpuBoost::High, GpuBoost::High)]),
    });
    table.push(Descriptor {
        model_number_prefix: "RZ09-0529",
        name: "Razer Blade 18” (2025)",
        pid: 0x02c7,
        features: standard_features(),
        init_cmds: newer_model_init_cmds_vec(),
        perf_modes: Some(all_perf_modes_vec()),
        cpu_boosts: Some(vec![CpuBoost::Low, CpuBoost::Medium, CpuBoost::High]),
        gpu_boosts: Some(vec![GpuBoost::Low, GpuBoost::Medium, GpuBoost::High]),
        disallowed_boost_pairs: Some(vec![(CpuBoost::High, GpuBoost::High)]),
    });
    table.push(Descriptor {
        model_number_prefix: "RZ09-0581",
        name: "Razer Blade 16” (2026)",
        pid: 0x02e0,
        features: standard_features(),
        init_cmds: newer_model_init_cmds_vec(),
        perf_modes: Some(all_perf_modes_vec()),
        cpu_boosts: Some(vec![CpuBoost::Low, CpuBoost::Medium, CpuBoost::High]),
        gpu_boosts: Some(vec![GpuBoost::Low, GpuBoost::Medium, GpuBoost::High]),
        disallowed_boost_pairs: Some(vec![(CpuBoost::High, GpuBoost::High)]),
    });
    assert forall|i: int| 0 <= i < table@.len() implies #[trigger] table@[i]@ == supported_models()[i] by {
        assert(table@[i]@ =~= supported_models()[i]);
    }
    table
}

/// The table's model numbers all are "RZ09-" followed by four characters, no
/// two entries share a model number, and no two share a USB product id.
pub proof fn lemma_supported_models_distinct()
    ensures
        forall|i: int| 0 <= i < supported_models().len() ==> {
            let p = #[trigger] supported_models()[i].model_number_prefix;
            p.len() == 9 && p.take(5) == "RZ09-"@
        },
        forall|i: int, j: int|
            0 <= i < supported_models().len() && 0 <= j < supported_models().len() && i != j
            ==> #[trigger] supported_models()[i].model_number_prefix != #[trigger] supported_models()[j].model_number_prefix,
        forall|i: int, j: int|
            0 <= i < supported_models().len() && 0 <= j < supported_models().len() && i != j
            ==> #[trigger] supported_models()[i].pid != #[trigger] supported_models()[j].pid,
{
    reveal_strlit("RZ09-");
    reveal_strlit("RZ09-0427");
    reveal_strlit("RZ09-0421");
    reveal_strlit("RZ09-0423");
    reveal_strlit("RZ09-0482");
    reveal_strlit("RZ09-0485");
    reveal_strlit("RZ09-0483");
    reveal_strlit("RZ09-0484");
    reveal_strlit("RZ09-0508");
    reveal_strlit("RZ09-0510");
    reveal_strlit("RZ09-0509");
    reveal_strlit("RZ09-0528");
    reveal_strlit("RZ09-0530");
    reveal_strlit("RZ09-0529");
    reveal_strlit("RZ09-0581");
    let t = supported_models();
    assert forall|i: int| 0 <= i < t.len() implies {
        let p = #[trigger] t[i].model_number_prefix;
        p.len() == 9 && p.take(5) == "RZ09-"@
    } by {
        assert(t[i].model_number_prefix.take(5) =~= "RZ09-"@);
    }
    assert forall|i: int, j: int| 0 <= i < t.len() && 0 <= j < t.len() && i != j
        implies #[trigger] t[i].model_number_prefix != #[trigger] t[j].model_number_prefix by {
        let a = t[i].model_number_prefix;
        let b = t[j].model_number_prefix;
        assert(a[5] != b[5] || a[6] != b[6] || a[7] != b[7] || a[8] != b[8]);
    }
}

/// Every feature a supported model lists is one of the known feature names
/// (those of [`standard_feature_names`]).
pub proof fn lemma_supported_features_known()
    ensures
        forall|i: int, k: int|
            0 <= i < supported_models().len() && 0 <= k < supported_models()[i].features.len()
            ==> standard_feature_names().contains(#[trigger] supported_models()[i].features[k]),
{
    let std = standard_feature_names();
    let less = logo_less_feature_names();
    assert forall|k: int| 0 <= k < less.len() implies std.contains(#[trigger] less[k]) by {
        if k <= 2 {
            assert(std[k] == less[k]);
        } else {
            assert(std[k + 1] == less[k]);
        }
    }
    assert forall|k: int| 0 <= k < std.len() implies std.contains(#[trigger] std[k]) by {}
}

} // verus!
