use live_earth_wallpaper::menu::{
    command_for_menu_id, earth_label, labels_label, mode_label, satellite_label,
    satellite_menu_id, startup_label, TrayCommand,
};
use live_earth_wallpaper::monitor::MultiMonitorMode;
use live_earth_wallpaper::satellite::Satellite;

#[test]
fn item_texts_carry_check_marks() {
    assert_eq!(mode_label(MultiMonitorMode::Span), "✓ Span Across Monitors");
    assert_eq!(mode_label(MultiMonitorMode::Duplicate), "Span Across Monitors");
    assert_eq!(earth_label(true), "✓ Show Earth");
    assert_eq!(earth_label(false), "Show Earth");
    assert_eq!(labels_label(true), "✓ Show Labels");
    assert_eq!(labels_label(false), "Show Labels");
    assert_eq!(startup_label(true), "✓ Run on Startup");
    assert_eq!(startup_label(false), "Run on Startup");
    assert_eq!(satellite_label(Satellite::Gk2a, Satellite::Gk2a), "✓ GK2A");
    assert_eq!(satellite_label(Satellite::Gk2a, Satellite::Himawari), "GK2A");
}

#[test]
fn satellite_items_select_their_satellite() {
    assert_eq!(satellite_menu_id(Satellite::Himawari), "sat_himawari_9");
    assert_eq!(satellite_menu_id(Satellite::GoesEast), "sat_goes_east");
    assert_eq!(satellite_menu_id(Satellite::Meteosat12), "sat_meteosat_12");
    for &s in Satellite::all() {
        assert_eq!(command_for_menu_id(&satellite_menu_id(s)), Some(TrayCommand::SelectSatellite(s)));
    }
}

#[test]
fn menu_ids_to_commands() {
    assert_eq!(command_for_menu_id("refresh"), Some(TrayCommand::RefreshNow));
    assert_eq!(command_for_menu_id("mode"), Some(TrayCommand::ToggleMode));
    assert_eq!(command_for_menu_id("earth"), Some(TrayCommand::ToggleEarth));
    assert_eq!(command_for_menu_id("labels"), Some(TrayCommand::ToggleLabels));
    assert_eq!(command_for_menu_id("startup"), Some(TrayCommand::ToggleStartup));
    assert_eq!(command_for_menu_id("exit"), Some(TrayCommand::Exit));
    assert_eq!(command_for_menu_id("Exit"), None);
    assert_eq!(command_for_menu_id(""), None);
}
