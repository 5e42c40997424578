use librazer::gpu::{DisplayOwner, GpuPreference};
use librazer::types::{CpuBoost, GpuBoost, PerfMode};
use librazer::ui::gpu::{display_owner_text, preference_choices, preference_click, preference_label, preference_tip, GpuAction};
use librazer::ui::macro_keys::{assignment_choice, needs_driver_mode, MacroAction, MacroKeysUiAction};
use librazer::ui::performance::{
    boost_button_enabled, boost_pair_blocked, button_color, cpu_boost_click, gpu_boost_click, is_extra_cpu_boost,
    is_extra_gpu_boost, is_hidden_mode, mode_buttons, mode_click, show_custom_controls, PerformanceAction, Rgb,
};

#[test]
fn gpu_section_texts() {
    assert_eq!(display_owner_text(DisplayOwner::Nvidia), "Display: NVIDIA dGPU");
    assert_eq!(display_owner_text(DisplayOwner::Integrated), "Display: iGPU");
    assert_eq!(display_owner_text(DisplayOwner::Unknown), "Display: Unknown");
    assert_eq!(preference_label(GpuPreference::Dedicated), "NVIDIA");
    assert!(preference_tip(GpuPreference::Auto).contains("driver default"));
    assert_eq!(preference_choices(), vec![GpuPreference::Integrated, GpuPreference::Auto, GpuPreference::Dedicated]);
}

#[test]
fn gpu_preference_clicks() {
    assert_eq!(preference_click(GpuPreference::Auto, GpuPreference::Auto), GpuAction::NoAction);
    assert_eq!(
        preference_click(GpuPreference::Auto, GpuPreference::Integrated),
        GpuAction::SetPreference(GpuPreference::Integrated)
    );
}

#[test]
fn macro_action_labels() {
    let labels: Vec<&str> = MacroAction::ALL.iter().map(|a| a.label()).collect();
    assert_eq!(
        labels,
        vec!["Disabled", "Page Up", "Page Down", "Cycle Refresh Rate", "Cycle Performance Mode", "Toggle Microphone Mute"]
    );
    for (i, a) in labels.iter().enumerate() {
        for b in labels.iter().skip(i + 1) {
            assert_ne!(a, b);
        }
    }
}

#[test]
fn macro_keys_section_decisions() {
    assert!(needs_driver_mode(true, false));
    assert!(!needs_driver_mode(true, true));
    assert!(!needs_driver_mode(false, false));
    assert_eq!(assignment_choice(1, MacroAction::PageUp, MacroAction::PageUp), MacroKeysUiAction::NoAction);
    assert_eq!(
        assignment_choice(2, MacroAction::PageUp, MacroAction::ToggleMicMute),
        MacroKeysUiAction::Assign(2, MacroAction::ToggleMicMute)
    );
}

#[test]
fn button_colors() {
    assert_eq!(button_color(true, true), Rgb { r: 0, g: 120, b: 60 });
    assert_eq!(button_color(true, false), Rgb { r: 60, g: 80, b: 40 });
    assert_eq!(button_color(false, true), Rgb { r: 140, g: 70, b: 0 });
    assert_eq!(button_color(false, false), Rgb { r: 80, g: 60, b: 40 });
}

#[test]
fn mode_buttons_in_display_order() {
    let available = [PerfMode::Custom, PerfMode::Hyperboost, PerfMode::Battery, PerfMode::Balanced];
    assert_eq!(
        mode_buttons(&available),
        vec![PerfMode::Battery, PerfMode::Balanced, PerfMode::Hyperboost, PerfMode::Custom]
    );
    assert!(mode_buttons(&[]).is_empty());
    assert_eq!(mode_buttons(&[PerfMode::Silent, PerfMode::Silent]), vec![PerfMode::Silent]);
}

#[test]
fn hidden_modes() {
    let base = [PerfMode::Balanced, PerfMode::Custom];
    let available = [PerfMode::Balanced, PerfMode::Hyperboost, PerfMode::Custom];
    assert!(is_hidden_mode(&available, &base, PerfMode::Hyperboost));
    assert!(!is_hidden_mode(&available, &base, PerfMode::Balanced));
    assert!(!is_hidden_mode(&base, &base, PerfMode::Hyperboost));
}

#[test]
fn custom_controls_visibility() {
    assert!(show_custom_controls(false, false, true));
    assert!(!show_custom_controls(false, true, false));
    assert!(show_custom_controls(true, true, false));
    assert!(!show_custom_controls(true, false, true));
}

#[test]
fn boost_restrictions() {
    let disallowed = [(CpuBoost::High, GpuBoost::High)];
    assert!(boost_pair_blocked(&disallowed, CpuBoost::High, GpuBoost::High, false));
    assert!(!boost_pair_blocked(&disallowed, CpuBoost::High, GpuBoost::High, true));
    assert!(!boost_pair_blocked(&disallowed, CpuBoost::High, GpuBoost::Medium, false));
    assert!(!boost_pair_blocked(&[], CpuBoost::Low, GpuBoost::Low, false));
    assert!(boost_button_enabled(true, false));
    assert!(!boost_button_enabled(true, true));
    assert!(!boost_button_enabled(false, false));
    assert!(is_extra_cpu_boost(&[CpuBoost::Low, CpuBoost::High], CpuBoost::Boost));
    assert!(!is_extra_cpu_boost(&[CpuBoost::Low, CpuBoost::High], CpuBoost::High));
    assert!(is_extra_gpu_boost(&[GpuBoost::Low], GpuBoost::High));
    assert!(!is_extra_gpu_boost(&[GpuBoost::Low], GpuBoost::Low));
}

#[test]
fn performance_clicks() {
    assert!(matches!(mode_click("Balanced", PerfMode::Balanced), PerformanceAction::NoAction));
    match mode_click("Balanced", PerfMode::Custom) {
        PerformanceAction::SetPerformanceMode(name) => assert_eq!(name, "Custom"),
        other => panic!("unexpected {:?}", other),
    }
    assert!(matches!(cpu_boost_click(CpuBoost::Low, CpuBoost::Low), PerformanceAction::NoAction));
    assert!(matches!(cpu_boost_click(CpuBoost::Low, CpuBoost::Undervolt), PerformanceAction::SetCpuBoost(CpuBoost::Undervolt)));
    assert!(matches!(gpu_boost_click(GpuBoost::Low, GpuBoost::High), PerformanceAction::SetGpuBoost(GpuBoost::High)));
    assert!(matches!(gpu_boost_click(GpuBoost::High, GpuBoost::High), PerformanceAction::NoAction));
}
