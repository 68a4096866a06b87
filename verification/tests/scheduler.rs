use live_earth_wallpaper::menu::TrayCommand;
use live_earth_wallpaper::monitor::MultiMonitorMode;
use live_earth_wallpaper::satellite::Satellite;
use live_earth_wallpaper::scheduler::{Action, Event, FetchOutcome, LayoutKey, Scheduler};

fn key() -> LayoutKey {
    LayoutKey { monitors: 1, total_width: 1920, total_height: 1080 }
}

fn started() -> Scheduler {
    let mut s = Scheduler::new(MultiMonitorMode::Span, key(), 0);
    s.step(Event::FetchFinished(FetchOutcome::Fresh, false));
    s
}

#[test]
fn initial_update_fetches() {
    let s = Scheduler::new(MultiMonitorMode::Duplicate, key(), 5);
    assert_eq!(s.satellite, Satellite::GoesEast);
    assert!(s.show_earth && !s.show_labels && !s.has_cached_earth);
    assert_eq!(
        s.initial_actions(),
        vec![
            Action::FetchAndUpdate { fall_back_to_cache: false },
            Action::RestartFullUpdateTimer,
            Action::RestartStarRefreshTimer
        ]
    );
}

#[test]
fn ticks_follow_the_intervals() {
    let mut s = started();
    assert_eq!(s.step(Event::Tick(59_999)), vec![]);
    assert_eq!(
        s.step(Event::Tick(60_000)),
        vec![Action::RenderCached { stale: false }, Action::RestartStarRefreshTimer]
    );
    s.step(Event::StarRefreshTimerRestarted(60_000));
    assert_eq!(s.step(Event::Tick(100_000)), vec![]);
    assert_eq!(
        s.step(Event::Tick(600_000)),
        vec![
            Action::FetchAndUpdate { fall_back_to_cache: false },
            Action::RestartFullUpdateTimer,
            Action::RestartStarRefreshTimer
        ]
    );
}

#[test]
fn stale_image_is_retried_with_fallback() {
    let mut s = started();
    assert_eq!(s.step(Event::FetchFinished(FetchOutcome::Cached, false)), vec![]);
    assert!(s.is_stale && s.has_cached_earth);
    assert_eq!(
        s.step(Event::Tick(60_000)),
        vec![Action::FetchAndUpdate { fall_back_to_cache: true }, Action::RestartStarRefreshTimer]
    );
    assert_eq!(
        s.step(Event::FetchFinished(FetchOutcome::Failed, true)),
        vec![Action::RenderCached { stale: true }]
    );
    assert_eq!(s.step(Event::FetchFinished(FetchOutcome::Fresh, false)), vec![]);
    assert!(!s.is_stale);
}

#[test]
fn failed_fetch_without_cache_draws_nothing() {
    let mut s = Scheduler::new(MultiMonitorMode::Span, key(), 0);
    assert_eq!(s.step(Event::FetchFinished(FetchOutcome::Failed, true)), vec![]);
    assert!(s.is_stale && !s.has_cached_earth);
    assert_eq!(
        s.step(Event::Tick(60_000)),
        vec![Action::FetchAndUpdate { fall_back_to_cache: true }, Action::RestartStarRefreshTimer]
    );
    assert_eq!(s.step(Event::Command(TrayCommand::ToggleMode)), vec![Action::ShowMode(MultiMonitorMode::Duplicate)]);
}

#[test]
fn toggles_redraw_and_undo() {
    let mut s = started();
    let before = s;
    assert_eq!(
        s.step(Event::Command(TrayCommand::ToggleMode)),
        vec![Action::ShowMode(MultiMonitorMode::Duplicate), Action::RenderCached { stale: false }]
    );
    s.step(Event::Command(TrayCommand::ToggleMode));
    assert_eq!(s, before);
    assert_eq!(
        s.step(Event::Command(TrayCommand::ToggleLabels)),
        vec![Action::ShowLabels(true), Action::RenderCached { stale: false }]
    );
    assert!(s.show_labels);
    assert_eq!(
        s.step(Event::Command(TrayCommand::ToggleEarth)),
        vec![Action::ShowEarth(false), Action::RenderStarsOnly, Action::RestartStarRefreshTimer]
    );
    assert_eq!(s.step(Event::Tick(600_000)), vec![Action::RenderStarsOnly, Action::RestartStarRefreshTimer]);
    assert_eq!(
        s.step(Event::Command(TrayCommand::ToggleEarth)),
        vec![
            Action::ShowEarth(true),
            Action::FetchAndUpdate { fall_back_to_cache: false },
            Action::RestartFullUpdateTimer,
            Action::RestartStarRefreshTimer
        ]
    );
}

#[test]
fn satellite_selection() {
    let mut s = started();
    assert_eq!(s.step(Event::Command(TrayCommand::SelectSatellite(Satellite::GoesEast))), vec![]);
    assert!(s.has_cached_earth);
    assert_eq!(
        s.step(Event::Command(TrayCommand::SelectSatellite(Satellite::Himawari))),
        vec![
            Action::ShowSatellite(Satellite::Himawari),
            Action::FetchAndUpdate { fall_back_to_cache: false },
            Action::RestartFullUpdateTimer,
            Action::RestartStarRefreshTimer
        ]
    );
    assert_eq!(s.satellite, Satellite::Himawari);
    assert!(!s.has_cached_earth);
}

#[test]
fn other_commands_and_layout_changes() {
    let mut s = started();
    assert_eq!(
        s.step(Event::Command(TrayCommand::RefreshNow)),
        vec![
            Action::FetchAndUpdate { fall_back_to_cache: false },
            Action::RestartFullUpdateTimer,
            Action::RestartStarRefreshTimer
        ]
    );
    assert_eq!(s.step(Event::Command(TrayCommand::ToggleStartup)), vec![Action::ToggleStartup]);
    assert_eq!(s.step(Event::Command(TrayCommand::Exit)), vec![Action::Exit]);
    assert_eq!(s.step(Event::Layout(key())), vec![]);
    let wide = LayoutKey { monitors: 2, total_width: 3840, total_height: 1080 };
    assert_eq!(s.step(Event::Layout(wide)), vec![Action::RenderCached { stale: false }]);
    assert_eq!(s.layout, wide);
    s.step(Event::FullUpdateTimerRestarted(1000));
    assert_eq!(s.last_full_update, 1000);
}
