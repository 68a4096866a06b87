//! When the wallpaper is refreshed: the decisions of the tray event loop.
//!
//! The loop feeds events in (tray commands, clock ticks, a changed monitor
//! layout, the outcome of a fetch, restarted timers) and performs the
//! actions that come back, in order. A full update fetches new imagery
//! every ten minutes while Earth is shown; the star field is redrawn every
//! minute from the cached image, and while the shown image is stale each
//! minute tries a fetch instead.

use vstd::prelude::*;
use crate::menu::TrayCommand;
use crate::monitor::MultiMonitorMode;
use crate::satellite::Satellite;

verus! {

/// Full update interval (fetch new Earth image) in minutes.
pub const FULL_UPDATE_INTERVAL_MINUTES: u64 = 10;
/// Star-only refresh interval in seconds (uses the cached Earth image).
pub const STAR_REFRESH_INTERVAL_SECS: u64 = 60;
/// Full update interval in milliseconds.
pub const FULL_UPDATE_INTERVAL_MS: u64 = 600000;
/// Star-only refresh interval in milliseconds.
pub const STAR_REFRESH_INTERVAL_MS: u64 = 60000;

/// What is compared to notice a changed display configuration.
#[derive(Debug, Clone, Copy, PartialEq, Eq, Structural)]
pub struct LayoutKey {
    pub monitors: usize,
    pub total_width: u32,
    pub total_height: u32,
}

/// How a fetch-and-update went.
#[derive(Debug, Clone, Copy, PartialEq, Eq, Structural)]
pub enum FetchOutcome {
    /// A new image was fetched and shown.
    Fresh,
    /// The fetch failed; the cached image was shown instead (in grey).
    Cached,
    /// Nothing could be shown.
    Failed,
}

/// Something the event loop is asked to do.
#[derive(Debug, Clone, Copy, PartialEq, Eq, Structural)]
pub enum Action {
    /// Fetch imagery of the current satellite, render and set the wallpaper,
    /// then report the outcome. When it fails and `fall_back_to_cache`, a
    /// redraw from the cache follows.
    FetchAndUpdate { fall_back_to_cache: bool },
    /// Render with the cached Earth image (in grey when `stale`).
    RenderCached { stale: bool },
    /// Render the sky without Earth.
    RenderStarsOnly,
    /// Restart the full-update timer (report `FullUpdateTimerRestarted`).
    RestartFullUpdateTimer,
    /// Restart the star-refresh timer (report `StarRefreshTimerRestarted`).
    RestartStarRefreshTimer,
    /// Show the monitor mode in the tray menu.
    ShowMode(MultiMonitorMode),
    /// Show whether Earth is displayed in the tray menu.
    ShowEarth(bool),
    /// Show whether labels are displayed in the tray menu.
    ShowLabels(bool),
    /// Show the current satellite in the tray menu.
    ShowSatellite(Satellite),
    /// Toggle run-on-startup and show the new setting in the tray menu.
    ToggleStartup,
    /// Leave the event loop.
    Exit,
}

/// Something that happened.
#[derive(Debug, Clone, Copy, PartialEq, Eq, Structural)]
pub enum Event {
    /// A tray menu command.
    Command(TrayCommand),
    /// The clock, in milliseconds since an arbitrary start.
    Tick(u64),
    /// The display configuration that was just observed.
    Layout(LayoutKey),
    /// The outcome of a `FetchAndUpdate` action, with its fallback flag.
    FetchFinished(FetchOutcome, bool),
    /// The full-update timer was restarted at this time.
    FullUpdateTimerRestarted(u64),
    /// The star-refresh timer was restarted at this time.
    StarRefreshTimerRestarted(u64),
}

/// The state of the event loop.
#[derive(Debug, Clone, Copy, PartialEq, Eq, Structural)]
pub struct Scheduler {
    pub mode: MultiMonitorMode,
    pub show_labels: bool,
    pub show_earth: bool,
    pub satellite: Satellite,
    /// An Earth image of the current satellite is cached on disk.
    pub has_cached_earth: bool,
    /// The image shown is a stale cached one.
    pub is_stale: bool,
    pub last_full_update: u64,
    pub last_star_refresh: u64,
    pub layout: LayoutKey,
}

pub open spec fn other_mode(m: MultiMonitorMode) -> MultiMonitorMode {
    match m {
        MultiMonitorMode::Span => MultiMonitorMode::Duplicate,
        MultiMonitorMode::Duplicate => MultiMonitorMode::Span,
    }
}

/// Time since `since`, zero for a clock that went backwards.
pub open spec fn elapsed(now: u64, since: u64) -> int {
    if now >= since {
        now - since
    } else {
        0
    }
}

/// Redraw after a display setting changed: from the cache while Earth is
/// shown and an image is cached, the bare sky while Earth is hidden,
/// nothing otherwise.
pub open spec fn redraw(s: Scheduler) -> Seq<Action> {
    if s.show_earth && s.has_cached_earth {
        seq![Action::RenderCached { stale: s.is_stale }]
    } else if !s.show_earth {
        seq![Action::RenderStarsOnly]
    } else {
        Seq::empty()
    }
}

/// Fetch anew (and restart the full-update timer) while Earth is shown,
/// draw the bare sky otherwise; then restart the star-refresh timer.
pub open spec fn refetch(s: Scheduler) -> Seq<Action> {
    (if s.show_earth {
        seq![Action::FetchAndUpdate { fall_back_to_cache: false }, Action::RestartFullUpdateTimer]
    } else {
        seq![Action::RenderStarsOnly]
    }) + seq![Action::RestartStarRefreshTimer]
}

pub open spec fn spec_on_command(s: Scheduler, cmd: TrayCommand) -> (Scheduler, Seq<Action>) {
    match cmd {
        TrayCommand::RefreshNow => (
            s,
            (if s.show_earth {
                seq![Action::FetchAndUpdate { fall_back_to_cache: false }]
            } else {
                seq![Action::RenderStarsOnly]
            }) + seq![Action::RestartFullUpdateTimer, Action::RestartStarRefreshTimer],
        ),
        TrayCommand::ToggleMode => {
            let t = Scheduler { mode: other_mode(s.mode), ..s };
            (t, seq![Action::ShowMode(t.mode)] + redraw(t))
        },
        TrayCommand::ToggleEarth => {
            let t = Scheduler { show_earth: !s.show_earth, ..s };
            (t, seq![Action::ShowEarth(t.show_earth)] + refetch(t))
        },
        TrayCommand::ToggleLabels => {
            let t = Scheduler { show_labels: !s.show_labels, ..s };
            (t, seq![Action::ShowLabels(t.show_labels)] + redraw(t))
        },
        TrayCommand::ToggleStartup => (s, seq![Action::ToggleStartup]),
        TrayCommand::SelectSatellite(sat) => {
            if sat == s.satellite {
                (s, Seq::empty())
            } else {
                let t = Scheduler { satellite: sat, has_cached_earth: false, ..s };
                (t, seq![Action::ShowSatellite(sat)] + refetch(t))
            }
        },
        TrayCommand::Exit => (s, seq![Action::Exit]),
    }
}

pub open spec fn spec_on_tick(s: Scheduler, now: u64) -> Seq<Action> {
    if s.show_earth && elapsed(now, s.last_full_update) >= FULL_UPDATE_INTERVAL_MS {
        seq![
            Action::FetchAndUpdate { fall_back_to_cache: false },
            Action::RestartFullUpdateTimer,
            Action::RestartStarRefreshTimer,
        ]
    } else if elapsed(now, s.last_star_refresh) >= STAR_REFRESH_INTERVAL_MS {
        (if s.show_earth {
            if s.is_stale {
                seq![Action::FetchAndUpdate { fall_back_to_cache: true }]
            } else if s.has_cached_earth {
                seq![Action::RenderCached { stale: false }]
            } else {
                Seq::empty()
            }
        } else {
            seq![Action::RenderStarsOnly]
        }) + seq![Action::RestartStarRefreshTimer]
    } else {
        Seq::empty()
    }
}

pub open spec fn spec_on_fetch(s: Scheduler, outcome: FetchOutcome, fall_back: bool) -> (
    Scheduler,
    Seq<Action>,
) {
    match outcome {
        FetchOutcome::Fresh => (
            Scheduler { has_cached_earth: true, is_stale: false, ..s },
            Seq::empty(),
        ),
        FetchOutcome::Cached => (
            Scheduler { has_cached_earth: true, is_stale: true, ..s },
            Seq::empty(),
        ),
        FetchOutcome::Failed => (
            Scheduler { is_stale: true, ..s },
            if fall_back && s.has_cached_earth {
                seq![Action::RenderCached { stale: true }]
            } else {
                Seq::empty()
            },
        ),
    }
}

/// The next state and the actions to perform for an event.
pub open spec fn spec_step(s: Scheduler, e: Event) -> (Scheduler, Seq<Action>) {
    match e {
        Event::Command(cmd) => spec_on_command(s, cmd),
        Event::Tick(now) => (s, spec_on_tick(s, now)),
        Event::Layout(key) => {
            if key == s.layout {
                (s, Seq::empty())
            } else {
                let t = Scheduler { layout: key, ..s };
                (t, redraw(t))
            }
        },
        Event::FetchFinished(outcome, fall_back) => spec_on_fetch(s, outcome, fall_back),
        Event::FullUpdateTimerRestarted(now) => (
            Scheduler { last_full_update: now, ..s },
            Seq::empty(),
        ),
        Event::StarRefreshTimerRestarted(now) => (
            Scheduler { last_star_refresh: now, ..s },
            Seq::empty(),
        ),
    }
}

fn push_redraw(s: &Scheduler, out: &mut Vec<Action>)
    ensures
        final(out)@ == old(out)@ + redraw(*s),
{
    if s.show_earth && s.has_cached_earth {
        out.push(Action::RenderCached { stale: s.is_stale });
    } else if !s.show_earth {
        out.push(Action::RenderStarsOnly);
    }
    assert(final(out)@ =~= old(out)@ + redraw(*s));
}

fn push_refetch(s: &Scheduler, out: &mut Vec<Action>)
    ensures
        final(out)@ == old(out)@ + refetch(*s),
{
    if s.show_earth {
        out.push(Action::FetchAndUpdate { fall_back_to_cache: false });
        out.push(Action::RestartFullUpdateTimer);
    } else {
        out.push(Action::RenderStarsOnly);
    }
    out.push(Action::RestartStarRefreshTimer);
    assert(final(out)@ =~= old(out)@ + refetch(*s));
}

impl Scheduler {
    /// The state at start-up: Earth shown without labels, GOES-East
    /// selected, nothing cached yet, both timers started at `now`.
    pub fn new(mode: MultiMonitorMode, layout: LayoutKey, now: u64) -> (s: Scheduler)
        ensures
            s == (Scheduler {
                mode,
                show_labels: false,
                show_earth: true,
                satellite: Satellite::GoesEast,
                has_cached_earth: false,
                is_stale: false,
                last_full_update: now,
                last_star_refresh: now,
                layout,
            }),
    {
        Scheduler {
            mode,
            show_labels: false,
            show_earth: true,
            satellite: Satellite::GoesEast,
            has_cached_earth: false,
            is_stale: false,
            last_full_update: now,
            last_star_refresh: now,
            layout,
        }
    }

    /// The first update: fetch when Earth is shown, the bare sky otherwise;
    /// then both timers start.
    pub fn initial_actions(&self) -> (r: Vec<Action>)
        ensures
            r@ == (if self.show_earth {
                seq![Action::FetchAndUpdate { fall_back_to_cache: false }]
            } else {
                seq![Action::RenderStarsOnly]
            }) + seq![Action::RestartFullUpdateTimer, Action::RestartStarRefreshTimer],
    {
        let mut out: Vec<Action> = Vec::new();
        if self.show_earth {
            out.push(Action::FetchAndUpdate { fall_back_to_cache: false });
        } else {
            out.push(Action::RenderStarsOnly);
        }
        out.push(Action::RestartFullUpdateTimer);
        out.push(Action::RestartStarRefreshTimer);
        let ghost expected = (if self.show_earth {
            seq![Action::FetchAndUpdate { fall_back_to_cache: false }]
        } else {
            seq![Action::RenderStarsOnly]
        }) + seq![Action::RestartFullUpdateTimer, Action::RestartStarRefreshTimer];
        assert(out@ =~= expected);
        out
    }

    /// Take in one event: update the state and return the actions to
    /// perform, in order.
    pub fn step(&mut self, event: Event) -> (r: Vec<Action>)
        ensures
            *final(self) == spec_step(*old(self), event).0,
            r@ == spec_step(*old(self), event).1,
    {
        let mut out: Vec<Action> = Vec::new();
        match event {
            Event::Command(cmd) => match cmd {
                TrayCommand::RefreshNow => {
                    if self.show_earth {
                        out.push(Action::FetchAndUpdate { fall_back_to_cache: false });
                    } else {
                        out.push(Action::RenderStarsOnly);
                    }
                    out.push(Action::RestartFullUpdateTimer);
                    out.push(Action::RestartStarRefreshTimer);
                    assert(out@ =~= spec_step(*old(self), event).1);
                },
                TrayCommand::ToggleMode => {
                    self.mode = match self.mode {
                        MultiMonitorMode::Span => MultiMonitorMode::Duplicate,
                        MultiMonitorMode::Duplicate => MultiMonitorMode::Span,
                    };
                    out.push(Action::ShowMode(self.mode));
                    push_redraw(self, &mut out);
                    assert(out@ =~= spec_step(*old(self), event).1);
                },
                TrayCommand::ToggleEarth => {
                    self.show_earth = !self.show_earth;
                    out.push(Action::ShowEarth(self.show_earth));
                    push_refetch(self, &mut out);
                    assert(out@ =~= spec_step(*old(self), event).1);
                },
                TrayCommand::ToggleLabels => {
                    self.show_labels = !self.show_labels;
                    out.push(Action::ShowLabels(self.show_labels));
                    push_redraw(self, &mut out);
                    assert(out@ =~= spec_step(*old(self), event).1);
                },
                TrayCommand::ToggleStartup => {
                    out.push(Action::ToggleStartup);
                    assert(out@ =~= spec_step(*old(self), event).1);
                },
                TrayCommand::SelectSatellite(sat) => {
                    if sat != self.satellite {
                        self.satellite = sat;
                        self.has_cached_earth = false;
                        out.push(Action::ShowSatellite(sat));
                        push_refetch(self, &mut out);
                        assert(out@ =~= spec_step(*old(self), event).1);
                    }
                },
                TrayCommand::Exit => {
                    out.push(Action::Exit);
                    assert(out@ =~= spec_step(*old(self), event).1);
                },
            },
            Event::Tick(now) => {
                let since_full = if now >= self.last_full_update {
                    now - self.last_full_update
                } else {
                    0
                };
                let since_star = if now >= self.last_star_refresh {
                    now - self.last_star_refresh
                } else {
                    0
                };
                if self.show_earth && since_full >= FULL_UPDATE_INTERVAL_MS {
                    out.push(Action::FetchAndUpdate { fall_back_to_cache: false });
                    out.push(Action::RestartFullUpdateTimer);
                    out.push(Action::RestartStarRefreshTimer);
                } else if since_star >= STAR_REFRESH_INTERVAL_MS {
                    if self.show_earth {
                        if self.is_stale {
                            out.push(Action::FetchAndUpdate { fall_back_to_cache: true });
                        } else if self.has_cached_earth {
                            out.push(Action::RenderCached { stale: false });
                        }
                    } else {
                        out.push(Action::RenderStarsOnly);
                    }
                    out.push(Action::RestartStarRefreshTimer);
                }
                assert(out@ =~= spec_step(*old(self), event).1);
            },
            Event::Layout(key) => {
                if key != self.layout {
                    self.layout = key;
                    push_redraw(self, &mut out);
                    assert(out@ =~= spec_step(*old(self), event).1);
                }
            },
            Event::FetchFinished(outcome, fall_back) => {
                match outcome {
                    FetchOutcome::Fresh => {
                        self.has_cached_earth = true;
                        self.is_stale = false;
                    },
                    FetchOutcome::Cached => {
                        self.has_cached_earth = true;
                        self.is_stale = true;
                    },
                    FetchOutcome::Failed => {
                        if fall_back && self.has_cached_earth {
                            out.push(Action::RenderCached { stale: true });
                        }
                        self.is_stale = true;
                    },
                }
                assert(out@ =~= spec_step(*old(self), event).1);
            },
            Event::FullUpdateTimerRestarted(now) => {
                self.last_full_update = now;
            },
            Event::StarRefreshTimerRestarted(now) => {
                self.last_star_refresh = now;
            },
        }
        out
    }
}


/// A redraw from the cache is asked for only while an image is cached.
pub open spec fn cache_backed(t: Scheduler, acts: Seq<Action>) -> bool {
    forall|i: int|
        0 <= i < acts.len() ==> (#[trigger] acts[i] matches Action::RenderCached { .. }
            ==> t.has_cached_earth)
}

/// No imagery is fetched.
pub open spec fn fetches_nothing(acts: Seq<Action>) -> bool {
    forall|i: int| 0 <= i < acts.len() ==> !(#[trigger] acts[i] is FetchAndUpdate)
}

/// A cached image is drawn in grey exactly when it is stale: every redraw
/// from the cache carries the staleness of the state it leaves.
pub open spec fn grey_follows_staleness(t: Scheduler, acts: Seq<Action>) -> bool {
    forall|i: int|
        0 <= i < acts.len() ==> (#[trigger] acts[i] matches Action::RenderCached { stale }
            ==> stale == t.is_stale)
}

/// Offline fallback is marked: whatever happens, a redraw from the cache is
/// in grey exactly when the image shown is stale.
pub proof fn lemma_grey_marks_stale_images(s: Scheduler, e: Event)
    ensures
        grey_follows_staleness(spec_step(s, e).0, spec_step(s, e).1),
{
    let (t, acts) = spec_step(s, e);
    assert forall|i: int| 0 <= i < acts.len() && (#[trigger] acts[i] matches Action::RenderCached { .. }) implies (acts[i] matches Action::RenderCached { stale } && stale == t.is_stale) by {
        match e {
            Event::Command(cmd) => {
                match cmd {
                    TrayCommand::ToggleMode | TrayCommand::ToggleLabels => {
                        assert(acts[i] == redraw(t)[i - 1]);
                    },
                    TrayCommand::ToggleEarth => {
                        assert(acts[i] == refetch(t)[i - 1]);
                    },
                    TrayCommand::SelectSatellite(sat) => {
                        if sat != s.satellite {
                            assert(acts[i] == refetch(t)[i - 1]);
                        }
                    },
                    _ => {},
                }
            },
            _ => {},
        }
    }
}

/// The wallpaper is never drawn from an empty cache: whatever happens, a
/// redraw from the cache is only asked for while an image is cached.
pub proof fn lemma_cached_renders_need_a_cache(s: Scheduler, e: Event)
    ensures
        cache_backed(spec_step(s, e).0, spec_step(s, e).1),
{
    let (t, acts) = spec_step(s, e);
    assert forall|i: int| 0 <= i < acts.len() && (#[trigger] acts[i] matches Action::RenderCached { .. }) implies t.has_cached_earth by {
        match e {
            Event::Command(cmd) => {
                match cmd {
                    TrayCommand::ToggleMode | TrayCommand::ToggleLabels => {
                        assert(acts[i] == redraw(t)[i - 1]);
                    },
                    TrayCommand::ToggleEarth => {
                        assert(acts[i] == refetch(t)[i - 1]);
                    },
                    TrayCommand::SelectSatellite(sat) => {
                        if sat != s.satellite {
                            assert(acts[i] == refetch(t)[i - 1]);
                        }
                    },
                    _ => {},
                }
            },
            _ => {},
        }
    }
}

/// While Earth is hidden no imagery is fetched: whatever happens, when the
/// state afterwards hides Earth, no fetch is asked for.
pub proof fn lemma_hidden_earth_fetches_nothing(s: Scheduler, e: Event)
    ensures
        !spec_step(s, e).0.show_earth ==> fetches_nothing(spec_step(s, e).1),
{
    let (t, acts) = spec_step(s, e);
    if !t.show_earth {
        assert forall|i: int| 0 <= i < acts.len() implies !(#[trigger] acts[i] is FetchAndUpdate) by {
            match e {
                Event::Command(cmd) => {
                    match cmd {
                        TrayCommand::ToggleMode | TrayCommand::ToggleLabels => {
                            if i > 0 {
                                assert(acts[i] == redraw(t)[i - 1]);
                            }
                        },
                        TrayCommand::ToggleEarth => {
                            if i > 0 {
                                assert(acts[i] == refetch(t)[i - 1]);
                            }
                        },
                        TrayCommand::SelectSatellite(sat) => {
                            if sat != s.satellite && i > 0 {
                                assert(acts[i] == refetch(t)[i - 1]);
                            }
                        },
                        _ => {},
                    }
                },
                _ => {},
            }
        }
    }
}

/// Toggling the monitor mode, Earth or labels twice restores the state.
pub proof fn lemma_toggle_twice_restores(s: Scheduler, cmd: TrayCommand)
    requires
        cmd == TrayCommand::ToggleMode || cmd == TrayCommand::ToggleEarth || cmd
            == TrayCommand::ToggleLabels,
    ensures
        spec_on_command(spec_on_command(s, cmd).0, cmd).0 == s,
{
}

/// The tray shows the state that a command leaves: the item a toggle or a
/// selection announces carries the new value.
pub proof fn lemma_tray_shows_new_state(s: Scheduler, cmd: TrayCommand)
    ensures
        ({
            let (t, acts) = spec_on_command(s, cmd);
            &&& cmd == TrayCommand::ToggleMode ==> acts[0] == Action::ShowMode(t.mode)
            &&& cmd == TrayCommand::ToggleEarth ==> acts[0] == Action::ShowEarth(t.show_earth)
            &&& cmd == TrayCommand::ToggleLabels ==> acts[0] == Action::ShowLabels(t.show_labels)
            &&& (cmd matches TrayCommand::SelectSatellite(sat) && sat != s.satellite) ==> acts[0]
                == Action::ShowSatellite(t.satellite)
        }),
{
}

/// Selecting the satellite already shown changes nothing and does nothing.
pub proof fn lemma_reselect_is_noop(s: Scheduler)
    ensures
        spec_on_command(s, TrayCommand::SelectSatellite(s.satellite)) == (s, Seq::<Action>::empty()),
{
}

/// Switching to another satellite drops the cached image (it shows a
/// different satellite) and fetches the new one while Earth is shown.
pub proof fn lemma_switch_drops_cache(s: Scheduler, sat: Satellite)
    requires
        sat != s.satellite,
    ensures
        !spec_on_command(s, TrayCommand::SelectSatellite(sat)).0.has_cached_earth,
        spec_on_command(s, TrayCommand::SelectSatellite(sat)).0.satellite == sat,
        s.show_earth ==> spec_on_command(s, TrayCommand::SelectSatellite(sat)).1[1]
            == (Action::FetchAndUpdate { fall_back_to_cache: false }),
{
}

/// After a fetch, the cache holds an image unless nothing could be shown
/// (then it is as before), and the shown image is stale exactly when it
/// is not a fresh one.
pub proof fn lemma_fetch_outcome_recorded(s: Scheduler, outcome: FetchOutcome, fall_back: bool)
    ensures
        spec_step(s, Event::FetchFinished(outcome, fall_back)).0.has_cached_earth == (outcome
            != FetchOutcome::Failed || s.has_cached_earth),
        spec_step(s, Event::FetchFinished(outcome, fall_back)).0.is_stale == (outcome
            != FetchOutcome::Fresh),
{
}

/// While Earth is shown, ten minutes after the last full update the next
/// tick fetches new imagery.
pub proof fn lemma_full_update_when_due(s: Scheduler, now: u64)
    requires
        s.show_earth,
        elapsed(now, s.last_full_update) >= FULL_UPDATE_INTERVAL_MS,
    ensures
        spec_step(s, Event::Tick(now)).1[0] == (Action::FetchAndUpdate { fall_back_to_cache: false }),
{
}

/// A stale image is not kept quietly: once the star-refresh interval has
/// passed, a fetch is tried, falling back to the cached image.
pub proof fn lemma_stale_image_retried(s: Scheduler, now: u64)
    requires
        s.show_earth,
        s.is_stale,
        elapsed(now, s.last_star_refresh) >= STAR_REFRESH_INTERVAL_MS,
    ensures
        spec_step(s, Event::Tick(now)).1[0] is FetchAndUpdate,
{
}

/// Before either interval has passed, a tick does nothing.
pub proof fn lemma_quiet_between_refreshes(s: Scheduler, now: u64)
    requires
        elapsed(now, s.last_full_update) < FULL_UPDATE_INTERVAL_MS,
        elapsed(now, s.last_star_refresh) < STAR_REFRESH_INTERVAL_MS,
    ensures
        spec_step(s, Event::Tick(now)) == (s, Seq::<Action>::empty()),
{
}

/// Events other than commands leave the displayed settings alone, and only
/// the exit command asks to leave.
pub proof fn lemma_only_exit_leaves(s: Scheduler, e: Event)
    ensures
        ({
            let (t, acts) = spec_step(s, e);
            &&& !(e is Command) ==> t.mode == s.mode && t.show_earth == s.show_earth
                && t.show_labels == s.show_labels && t.satellite == s.satellite
            &&& (exists|i: int| 0 <= i < acts.len() && #[trigger] acts[i] == Action::Exit) <==> e
                == Event::Command(TrayCommand::Exit)
        }),
{
    let (t, acts) = spec_step(s, e);
    if e == Event::Command(TrayCommand::Exit) {
        assert(acts[0] == Action::Exit);
    } else {
        assert forall|i: int| 0 <= i < acts.len() implies #[trigger] acts[i] != Action::Exit by {
            match e {
                Event::Command(cmd) => {
                    match cmd {
                        TrayCommand::ToggleMode | TrayCommand::ToggleLabels => {
                            if i > 0 {
                                assert(acts[i] == redraw(t)[i - 1]);
                            }
                        },
                        TrayCommand::ToggleEarth => {
                            if i > 0 {
                                assert(acts[i] == refetch(t)[i - 1]);
                            }
                        },
                        TrayCommand::SelectSatellite(sat) => {
                            if sat != s.satellite && i > 0 {
                                assert(acts[i] == refetch(t)[i - 1]);
                            }
                        },
                        _ => {},
                    }
                },
                _ => {},
            }
        }
    }
}

/// The actions that draw a wallpaper: a fetch followed by a render, a
/// render from the cache, or the bare sky.
pub open spec fn is_rendering(a: Action) -> bool {
    ||| a is FetchAndUpdate
    ||| a is RenderCached
    ||| a is RenderStarsOnly
}

/// 'Refresh Now' always redraws and changes no setting: it yields exactly
/// one rendering action, a fresh fetch (with no fallback to the cache)
/// while Earth is shown and the bare sky while Earth is hidden, followed by
/// restarting the full-update and the star-refresh timers.
pub proof fn lemma_refresh_now_redraws(s: Scheduler)
    ensures
        ({
            let (t, acts) = spec_step(s, Event::Command(TrayCommand::RefreshNow));
            &&& t == s
            &&& acts.len() == 3
            &&& is_rendering(acts[0])
            &&& s.show_earth ==> acts[0] == Action::FetchAndUpdate { fall_back_to_cache: false }
            &&& !s.show_earth ==> acts[0] == Action::RenderStarsOnly
            &&& acts[1] == Action::RestartFullUpdateTimer
            &&& acts[2] == Action::RestartStarRefreshTimer
        }),
{
}

} // verus!
