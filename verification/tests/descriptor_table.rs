use librazer::descriptor::supported;
use librazer::types::{CpuBoost, GpuBoost, PerfMode};

#[test]
fn supported_models_match_readme_table() {
    let expected: [(&str, &str, u16); 14] = [
        ("RZ09-0427", "Razer Blade 14” (2022)", 0x028C),
        ("RZ09-0421", "Razer Blade 15” (2022)", 0x028A),
        ("RZ09-0423", "Razer Blade 17” (2022)", 0x028B),
        ("RZ09-0482", "Razer Blade 14” (2023)", 0x029D),
        ("RZ09-0485", "Razer Blade 15” (2023)", 0x029E),
        ("RZ09-0483", "Razer Blade 16” (2023)", 0x029F),
        ("RZ09-0484", "Razer Blade 18” (2023)", 0x02A0),
        ("RZ09-0508", "Razer Blade 14” (2024)", 0x02B6),
        ("RZ09-0510", "Razer Blade 16” (2024)", 0x02B7),
        ("RZ09-0509", "Razer Blade 18” (2024)", 0x02B8),
        ("RZ09-0528", "Razer Blade 16” (2025)", 0x02C6),
        ("RZ09-0530", "Razer Blade 14” (2025)", 0x02C5),
        ("RZ09-0529", "Razer Blade 18” (2025)", 0x02C7),
        ("RZ09-0581", "Razer Blade 16” (2026)", 0x02E0),
    ];
    let table = supported();
    assert_eq!(table.len(), expected.len());
    for (d, (prefix, name, pid)) in table.iter().zip(expected.iter()) {
        assert_eq!(d.model_number_prefix, *prefix);
        assert_eq!(d.name, *name);
        assert_eq!(d.pid, *pid);
    }
}

#[test]
fn newer_models_carry_init_sequence() {
    let table = supported();
    for d in table.iter() {
        let newer = d.name.contains("(2025)") || d.name.contains("(2026)");
        if newer {
            assert_eq!(d.init_cmds, vec![0x0081, 0x0086, 0x0f90, 0x0086, 0x0f10, 0x0087]);
        } else {
            assert!(d.init_cmds.is_empty());
        }
    }
}

#[test]
fn newer_models_refuse_high_high_boosts() {
    let table = supported();
    let d = table.iter().find(|d| d.model_number_prefix == "RZ09-0528").unwrap();
    assert_eq!(d.disallowed_boost_pairs, Some(vec![(CpuBoost::High, GpuBoost::High)]));
    assert_eq!(d.cpu_boosts, Some(vec![CpuBoost::Low, CpuBoost::Medium, CpuBoost::High]));
    assert_eq!(d.gpu_boosts, Some(vec![GpuBoost::Low, GpuBoost::Medium, GpuBoost::High]));
    assert_eq!(d.perf_modes.as_ref().map(|m| m.len()), Some(6));
    let old = table.iter().find(|d| d.model_number_prefix == "RZ09-0427").unwrap();
    assert_eq!(
        old.perf_modes,
        Some(vec![PerfMode::Battery, PerfMode::Silent, PerfMode::Balanced, PerfMode::Custom])
    );
    assert_eq!(old.disallowed_boost_pairs, None);
}

#[test]
fn has_feature_finds_listed_features_only() {
    let table = supported();
    let blade14_2023 = table.iter().find(|d| d.model_number_prefix == "RZ09-0482").unwrap();
    assert!(blade14_2023.has_feature("perf"));
    assert!(blade14_2023.has_feature("battery-care"));
    assert!(!blade14_2023.has_feature("lid-logo"));
    assert!(!blade14_2023.has_feature("per"));
    assert!(!blade14_2023.has_feature(""));
    let blade16_2025 = table.iter().find(|d| d.model_number_prefix == "RZ09-0528").unwrap();
    assert!(blade16_2025.has_feature("lid-logo"));
}

#[test]
fn model_numbers_and_pids_are_distinct() {
    let table = supported();
    for (i, a) in table.iter().enumerate() {
        assert!(a.model_number_prefix.starts_with("RZ09-"));
        assert_eq!(a.model_number_prefix.len(), 9);
        for b in table.iter().skip(i + 1) {
            assert_ne!(a.model_number_prefix, b.model_number_prefix);
            assert_ne!(a.pid, b.pid);
        }
    }
}

#[test]
fn perf_mode_names() {
    assert_eq!(PerfMode::Battery.name(), "Battery");
    assert_eq!(PerfMode::Hyperboost.name(), "Hyperboost");
    assert_eq!(PerfMode::Custom.name(), "Custom");
}

#[test]
fn every_listed_feature_is_known() {
    let known = ["battery-care", "fan", "kbd-backlight", "lid-logo", "lights-always-on", "perf"];
    for d in supported().iter() {
        for f in d.features.iter() {
            assert!(known.contains(f), "{} lists unknown feature {}", d.model_number_prefix, f);
        }
    }
}
