use training_modpack::menu::{base_menu, create_app, SubMenuType, TOGGLE_MAX};
use training_modpack::options::{Delay, OnOff};

#[test]
fn app_has_seven_tabs_in_order() {
    let app = create_app();
    let ids: Vec<&str> = app.tabs.iter().map(|t| t.id).collect();
    assert_eq!(ids, vec!["mash", "override", "defensive", "input", "button", "save_state", "misc"]);
    assert_eq!(app.selected_tab, Some(0));
    let total: usize = app.tabs.iter().map(|t| t.submenus.len()).sum();
    assert_eq!(total, 76);
}

#[test]
fn submenus_have_one_toggle_per_choice() {
    let app = create_app();
    let mash = &app.tabs[0];
    let mash_state = &mash.submenus[0];
    assert_eq!(mash_state.id, "mash_state");
    assert_eq!(mash_state.submenu_type, SubMenuType::ToggleMultiple);
    assert_eq!(mash_state.toggles.len(), 30);
    assert!(mash_state.toggles.iter().all(|t| t.value == 0 && t.max == TOGGLE_MAX));
    assert_eq!(mash_state.toggles[0].title, "Air Dodge");
    let triggers = &mash.submenus[2];
    assert_eq!(triggers.id, "mash_triggers");
    assert!(triggers.toggles.iter().all(|t| t.max == 1));
}

#[test]
fn sliders_have_range_and_no_toggles() {
    let app = create_app();
    let sliders: Vec<_> = app
        .tabs
        .iter()
        .flat_map(|t| t.submenus.iter())
        .filter(|s| s.submenu_type == SubMenuType::Slider)
        .collect();
    assert_eq!(sliders.len(), 2);
    for s in sliders {
        assert!(s.toggles.is_empty());
        let slider = s.slider.unwrap();
        assert_eq!((slider.lower, slider.upper), (0, 150));
    }
}

#[test]
fn base_menu_defaults() {
    let m = base_menu();
    assert_eq!(m.input_delay.to_vec(), Delay::D0().to_vec());
    assert_eq!(m.hud.to_vec(), OnOff::ON().to_vec());
    assert_eq!(m.save_state_save.to_string(), "Pro ZL; GCC L + DPad Down");
    assert_eq!(m.input_playback.to_string(), "Pro ZR; GCC R + DPad Up");
    assert_eq!(m.recording_duration.into_frames(), 150);
    assert_eq!(m.tech_state.to_string(), "No Tech + Roll Forwards + Roll Backwards + Tech In Place");
    assert_eq!(m.save_damage_limits_cpu.UPPER, 150);
}
