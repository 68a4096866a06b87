//! The tray menu: its commands, the texts of its items (a check mark shows
//! what is on) and the identifiers by which clicked items are recognised.

use vstd::prelude::*;
use crate::monitor::MultiMonitorMode;
use crate::satellite::{spec_name, Satellite};
use crate::text::{push_char, str_eq};

verus! {

/// Commands that can be triggered from the tray menu.
#[derive(Debug, Clone, Copy, PartialEq, Eq, Structural)]
pub enum TrayCommand {
    RefreshNow,
    ToggleMode,
    ToggleEarth,
    ToggleLabels,
    ToggleStartup,
    SelectSatellite(Satellite),
    Exit,
}

/// Prefix of the text of a checked menu item.
pub open spec fn check_mark() -> Seq<char> {
    "✓ "@
}

pub open spec fn spec_mode_label(mode: MultiMonitorMode) -> Seq<char> {
    match mode {
        MultiMonitorMode::Span => "✓ Span Across Monitors"@,
        MultiMonitorMode::Duplicate => "Span Across Monitors"@,
    }
}

pub open spec fn spec_earth_label(enabled: bool) -> Seq<char> {
    if enabled {
        "✓ Show Earth"@
    } else {
        "Show Earth"@
    }
}

pub open spec fn spec_labels_label(enabled: bool) -> Seq<char> {
    if enabled {
        "✓ Show Labels"@
    } else {
        "Show Labels"@
    }
}

pub open spec fn spec_startup_label(enabled: bool) -> Seq<char> {
    if enabled {
        "✓ Run on Startup"@
    } else {
        "Run on Startup"@
    }
}

/// Text of the monitor-mode item: checked in span mode.
pub fn mode_label(mode: MultiMonitorMode) -> (r: &'static str)
    ensures
        r@ == spec_mode_label(mode),
{
    match mode {
        MultiMonitorMode::Span => "✓ Span Across Monitors",
        MultiMonitorMode::Duplicate => "Span Across Monitors",
    }
}

/// Text of the show-Earth item.
pub fn earth_label(enabled: bool) -> (r: &'static str)
    ensures
        r@ == spec_earth_label(enabled),
{
    if enabled {
        "✓ Show Earth"
    } else {
        "Show Earth"
    }
}

/// Text of the show-labels item.
pub fn labels_label(enabled: bool) -> (r: &'static str)
    ensures
        r@ == spec_labels_label(enabled),
{
    if enabled {
        "✓ Show Labels"
    } else {
        "Show Labels"
    }
}

/// Text of the run-on-startup item.
pub fn startup_label(enabled: bool) -> (r: &'static str)
    ensures
        r@ == spec_startup_label(enabled),
{
    if enabled {
        "✓ Run on Startup"
    } else {
        "Run on Startup"
    }
}

/// Text of a satellite's item: its name, checked when it is the current one.
pub open spec fn spec_satellite_label(sat: Satellite, current: Satellite) -> Seq<char> {
    if sat == current {
        check_mark() + spec_name(sat)
    } else {
        spec_name(sat)
    }
}

/// Build the text of a satellite's item.
pub fn satellite_label(sat: Satellite, current: Satellite) -> (r: String)
    ensures
        r@ == spec_satellite_label(sat, current),
{
    if sat == current {
        let mut s = String::from_str("✓ ");
        s.append(sat.name());
        s
    } else {
        String::from_str(sat.name())
    }
}

/// A character of a satellite name as it appears in a menu identifier:
/// ASCII upper-case letters lowered, '-' turned into '_'.
pub open spec fn id_char(c: char) -> char {
    if 'A' <= c <= 'Z' {
        ((c as int) + 32) as char
    } else if c == '-' {
        '_'
    } else {
        c
    }
}

/// Menu identifier of a satellite's item: "sat_" and its name, lowered,
/// with '_' for '-'.
pub open spec fn spec_satellite_menu_id(sat: Satellite) -> Seq<char> {
    "sat_"@ + spec_name(sat).map_values(|c: char| id_char(c))
}

/// Build the menu identifier of a satellite's item.
pub fn satellite_menu_id(sat: Satellite) -> (r: String)
    ensures
        r@ == spec_satellite_menu_id(sat),
{
    let name = sat.name();
    let n = name.unicode_len();
    let mut s = String::from_str("sat_");
    let mut i: usize = 0;
    while i < n
        invariant
            n == name@.len(),
            name@ == spec_name(sat),
            i <= n,
            s@ == "sat_"@ + name@.subrange(0, i as int).map_values(|c: char| id_char(c)),
        decreases n - i,
    {
        let c = name.get_char(i);
        let d = if 'A' <= c && c <= 'Z' {
            ((c as u8) + 32) as char
        } else if c == '-' {
            '_'
        } else {
            c
        };
        assert(d == id_char(c));
        push_char(&mut s, d);
        i = i + 1;
        assert(name@.subrange(0, i as int).map_values(|c: char| id_char(c)) =~= name@.subrange(
            0,
            i - 1,
        ).map_values(|c: char| id_char(c)).push(id_char(c)));
        assert(s@ =~= "sat_"@ + name@.subrange(0, i as int).map_values(|c: char| id_char(c)));
    }
    assert(name@.subrange(0, n as int) =~= name@);
    s
}

/// The command of the menu item with the given identifier.
pub open spec fn spec_command_for_menu_id(id: Seq<char>) -> Option<TrayCommand> {
    if id == "refresh"@ {
        Some(TrayCommand::RefreshNow)
    } else if id == "mode"@ {
        Some(TrayCommand::ToggleMode)
    } else if id == "earth"@ {
        Some(TrayCommand::ToggleEarth)
    } else if id == "labels"@ {
        Some(TrayCommand::ToggleLabels)
    } else if id == "startup"@ {
        Some(TrayCommand::ToggleStartup)
    } else if id == "exit"@ {
        Some(TrayCommand::Exit)
    } else if id == "sat_himawari_9"@ {
        Some(TrayCommand::SelectSatellite(Satellite::Himawari))
    } else if id == "sat_goes_east"@ {
        Some(TrayCommand::SelectSatellite(Satellite::GoesEast))
    } else if id == "sat_goes_west"@ {
        Some(TrayCommand::SelectSatellite(Satellite::GoesWest))
    } else if id == "sat_gk2a"@ {
        Some(TrayCommand::SelectSatellite(Satellite::Gk2a))
    } else if id == "sat_meteosat_12"@ {
        Some(TrayCommand::SelectSatellite(Satellite::Meteosat12))
    } else {
        None
    }
}

/// Recognise a clicked menu item by its identifier; `None` for an
/// identifier that names no command.
pub fn command_for_menu_id(id: &str) -> (r: Option<TrayCommand>)
    ensures
        r == spec_command_for_menu_id(id@),
{
    if str_eq(id, "refresh") {
        Some(TrayCommand::RefreshNow)
    } else if str_eq(id, "mode") {
        Some(TrayCommand::ToggleMode)
    } else if str_eq(id, "earth") {
        Some(TrayCommand::ToggleEarth)
    } else if str_eq(id, "labels") {
        Some(TrayCommand::ToggleLabels)
    } else if str_eq(id, "startup") {
        Some(TrayCommand::ToggleStartup)
    } else if str_eq(id, "exit") {
        Some(TrayCommand::Exit)
    } else if str_eq(id, "sat_himawari_9") {
        Some(TrayCommand::SelectSatellite(Satellite::Himawari))
    } else if str_eq(id, "sat_goes_east") {
        Some(TrayCommand::SelectSatellite(Satellite::GoesEast))
    } else if str_eq(id, "sat_goes_west") {
        Some(TrayCommand::SelectSatellite(Satellite::GoesWest))
    } else if str_eq(id, "sat_gk2a") {
        Some(TrayCommand::SelectSatellite(Satellite::Gk2a))
    } else if str_eq(id, "sat_meteosat_12") {
        Some(TrayCommand::SelectSatellite(Satellite::Meteosat12))
    } else {
        None
    }
}


/// Two texts differ where their lengths differ, or where they hold
/// different characters at one position.
proof fn lemma_texts_differ(a: Seq<char>, b: Seq<char>, i: int)
    requires
        a.len() != b.len() || (0 <= i < a.len() && i < b.len() && a[i] != b[i]),
    ensures
        a != b,
{
}

/// A text with '_' as its fourth character is none of the plain command
/// identifiers.
proof fn lemma_not_plain_id(id: Seq<char>)
    requires
        id.len() > 3,
        id[3] == '_',
    ensures
        id != "refresh"@,
        id != "mode"@,
        id != "earth"@,
        id != "labels"@,
        id != "startup"@,
        id != "exit"@,
{
    reveal_strlit("refresh");
    reveal_strlit("mode");
    reveal_strlit("earth");
    reveal_strlit("labels");
    reveal_strlit("startup");
    reveal_strlit("exit");
    lemma_texts_differ(id, "refresh"@, 3);
    lemma_texts_differ(id, "mode"@, 3);
    lemma_texts_differ(id, "earth"@, 3);
    lemma_texts_differ(id, "labels"@, 3);
    lemma_texts_differ(id, "startup"@, 3);
    lemma_texts_differ(id, "exit"@, 3);
}

/// Every satellite's menu item is recognised as the command that selects
/// that satellite.
pub proof fn lemma_satellite_menu_id_selects(sat: Satellite)
    ensures
        spec_command_for_menu_id(spec_satellite_menu_id(sat)) == Some(
            TrayCommand::SelectSatellite(sat),
        ),
{
    reveal_strlit("sat_himawari_9");
    reveal_strlit("sat_goes_east");
    reveal_strlit("sat_goes_west");
    reveal_strlit("sat_gk2a");
    reveal_strlit("sat_meteosat_12");
    reveal_strlit("sat_");
    reveal_strlit("Himawari-9");
    reveal_strlit("GOES-East");
    reveal_strlit("GOES-West");
    reveal_strlit("GK2A");
    reveal_strlit("Meteosat-12");
    let id = spec_satellite_menu_id(sat);
    let himawari = "sat_himawari_9"@;
    let east = "sat_goes_east"@;
    let west = "sat_goes_west"@;
    let gk2a = "sat_gk2a"@;
    match sat {
        Satellite::Himawari => {
            assert(id =~= himawari);
        },
        Satellite::GoesEast => {
            assert(id =~= east);
            lemma_texts_differ(id, himawari, 0);
        },
        Satellite::GoesWest => {
            assert(id =~= west);
            lemma_texts_differ(id, himawari, 0);
            lemma_texts_differ(id, east, 9);
        },
        Satellite::Gk2a => {
            assert(id =~= gk2a);
            lemma_texts_differ(id, himawari, 0);
            lemma_texts_differ(id, east, 0);
            lemma_texts_differ(id, west, 0);
        },
        Satellite::Meteosat12 => {
            assert(id =~= "sat_meteosat_12"@);
            lemma_texts_differ(id, himawari, 0);
            lemma_texts_differ(id, east, 0);
            lemma_texts_differ(id, west, 0);
            lemma_texts_differ(id, gk2a, 0);
        },
    }
    lemma_not_plain_id(id);
}

/// A checked item reads as the check mark followed by the unchecked text.
pub proof fn lemma_check_mark_prefix(enabled: bool, sat: Satellite)
    ensures
        spec_mode_label(MultiMonitorMode::Span) == check_mark() + spec_mode_label(
            MultiMonitorMode::Duplicate,
        ),
        spec_earth_label(true) == check_mark() + spec_earth_label(false),
        spec_labels_label(true) == check_mark() + spec_labels_label(false),
        spec_startup_label(true) == check_mark() + spec_startup_label(false),
        spec_satellite_label(sat, sat) == check_mark() + spec_name(sat),
{
    reveal_strlit("✓ ");
    reveal_strlit("✓ Span Across Monitors");
    reveal_strlit("Span Across Monitors");
    reveal_strlit("✓ Show Earth");
    reveal_strlit("Show Earth");
    reveal_strlit("✓ Show Labels");
    reveal_strlit("Show Labels");
    reveal_strlit("✓ Run on Startup");
    reveal_strlit("Run on Startup");
    assert(spec_mode_label(MultiMonitorMode::Span) =~= check_mark() + spec_mode_label(
        MultiMonitorMode::Duplicate,
    ));
    assert(spec_earth_label(true) =~= check_mark() + spec_earth_label(false));
    assert(spec_labels_label(true) =~= check_mark() + spec_labels_label(false));
    assert(spec_startup_label(true) =~= check_mark() + spec_startup_label(false));
}

} // verus!
