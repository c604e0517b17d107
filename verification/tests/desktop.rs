use lum::appdetect::{executable_name, executable_name_of_units, should_pause};
use lum::autostart::{autostart_command, toggle_autostart};
use lum::config::TrayClickBehavior;
use lum::ddcci::{get_monitors, MonitorInfo};
use lum::engine::{
    begin_tick, day_phase, fade_phase, finish_tick, phase_name, sun_recalc_due, toggle_pause,
    DayPhase, FadePhase, PauseStep, TickEffect, TickState,
};
use lum::gamma::any_succeeded;
use lum::switch::toggle_outcome;
use lum::theme::{dark_from_registry, light_theme_value, theme_written, toggle_theme};
use lum::tray::{click_delay_ms, click_follows_dismissal, double_click_opens_settings};

#[test]
fn executable_names_are_the_lowercased_file_name() {
    assert_eq!(
        executable_name("C:\\Program Files\\Adobe\\Photoshop.EXE"),
        "photoshop.exe"
    );
    assert_eq!(executable_name("Lightroom.exe"), "lightroom.exe");
    assert_eq!(executable_name("C:\\dir\\"), "");
    assert_eq!(executable_name("C:\\ÄPP.EXE"), "äpp.exe");
}

#[test]
fn pause_list_matches_without_case() {
    let apps = vec!["Photoshop.exe".to_string(), "lightroom.exe".to_string()];
    assert!(should_pause(&apps, &Some("photoshop.exe".to_string())));
    assert!(should_pause(&apps, &Some("lightroom.exe".to_string())));
    assert!(!should_pause(&apps, &Some("code.exe".to_string())));
    assert!(!should_pause(&apps, &None));
    assert!(!should_pause(&[], &Some("photoshop.exe".to_string())));
}

#[test]
fn autostart_quotes_the_path() {
    assert_eq!(
        autostart_command("C:\\Program Files\\Lum\\lum.exe"),
        "\"C:\\Program Files\\Lum\\lum.exe\""
    );
    assert!(toggle_autostart(false));
    assert!(!toggle_autostart(true));
}

#[test]
fn theme_registry_values_round_trip() {
    assert_eq!(light_theme_value(true), 0);
    assert_eq!(light_theme_value(false), 1);
    assert!(dark_from_registry(true, light_theme_value(true)));
    assert!(!dark_from_registry(true, light_theme_value(false)));
    assert!(!dark_from_registry(false, 0));
    assert!(toggle_theme(false));
    assert!(!toggle_theme(true));
}

fn monitor(index: usize, description: &str) -> MonitorInfo {
    MonitorInfo {
        index,
        description: description.to_string(),
        supports_brightness: index == 0,
        supports_contrast: false,
        brightness_min: 0,
        brightness_max: 100,
    }
}

#[test]
fn monitor_cache_is_copied() {
    assert!(get_monitors(None).is_empty());
    let cache = Some(vec![monitor(0, "Dell"), monitor(1, "")]);
    let found = get_monitors(cache.as_ref());
    assert_eq!(found.len(), 2);
    assert_eq!(found[0].description, "Dell");
    assert!(found[0].supports_brightness);
    assert_eq!(found[1].index, 1);
}

#[test]
fn pausing_decisions() {
    let running = TickState { shown_paused: false, last_phase: Some(DayPhase::Day) };
    let mut state = running;
    assert_eq!(begin_tick(&mut state, false, false), PauseStep::Run);
    assert_eq!(state, running);
    assert_eq!(begin_tick(&mut state, true, false), PauseStep::Hold { reset_gamma: false });
    assert_eq!(state, TickState { shown_paused: true, last_phase: Some(DayPhase::Day) });
    let mut state = running;
    assert_eq!(begin_tick(&mut state, false, true), PauseStep::Hold { reset_gamma: true });
    assert!(state.shown_paused);
    // The display is reset once: a later tick of the same pause does not.
    assert_eq!(begin_tick(&mut state, false, true), PauseStep::Hold { reset_gamma: false });
    assert_eq!(toggle_pause(false), (true, true));
    assert_eq!(toggle_pause(true), (false, false));
}

#[test]
fn sun_times_are_recomputed_hourly() {
    assert!(sun_recalc_due(1, false, false));
    assert!(!sun_recalc_due(2, false, false));
    assert!(sun_recalc_due(3601, false, false));
    assert!(sun_recalc_due(5, true, false));
    assert!(sun_recalc_due(5, false, true));
}

#[test]
fn theme_follows_night() {
    let night = FadePhase::Night;
    let evening = FadePhase::Evening { elapsed_s: 10, total_s: 3600 };
    let morning = FadePhase::Morning { elapsed_s: 10, total_s: 3600 };
    let at = |last: Option<DayPhase>| TickState { shown_paused: true, last_phase: last };

    let mut state = at(Some(DayPhase::Evening));
    let effect = finish_tick(&mut state, night, true, true);
    assert_eq!(effect, TickEffect { phase: DayPhase::Night, theme: Some(true) });
    assert_eq!(state, TickState { shown_paused: false, last_phase: Some(DayPhase::Night) });

    let mut state = at(Some(DayPhase::Night));
    assert_eq!(finish_tick(&mut state, morning, true, true).theme, Some(false));
    let mut state = at(None);
    assert_eq!(finish_tick(&mut state, night, true, true).theme, Some(true));
    let mut state = at(Some(DayPhase::Day));
    assert_eq!(finish_tick(&mut state, evening, true, true).theme, None);
    let mut state = at(Some(DayPhase::Night));
    assert_eq!(finish_tick(&mut state, night, true, true).theme, None);
    let mut state = at(Some(DayPhase::Evening));
    assert_eq!(finish_tick(&mut state, night, false, true).theme, None);
    assert_eq!(state.last_phase, Some(DayPhase::Night));
    let mut state = at(Some(DayPhase::Evening));
    assert_eq!(finish_tick(&mut state, night, true, false).theme, Some(false));
}

#[test]
fn phases_have_their_names() {
    assert_eq!(phase_name(day_phase(FadePhase::Day)), "day");
    assert_eq!(phase_name(day_phase(FadePhase::Night)), "night");
    assert_eq!(phase_name(DayPhase::Evening), "evening");
    assert_eq!(phase_name(DayPhase::Morning), "morning");
}

#[test]
fn toggles_settle_on_what_was_written() {
    assert!(toggle_outcome(false, true));
    assert!(!toggle_outcome(true, true));
    assert!(!toggle_outcome(false, false));
    assert!(toggle_outcome(true, false));
    assert!(theme_written(0, 0));
    assert!(!theme_written(5, 0));
    assert!(!theme_written(0, 2));
}

#[test]
fn a_write_succeeds_when_one_display_took_it() {
    assert!(!any_succeeded(&[]));
    assert!(!any_succeeded(&[false, false]));
    assert!(any_succeeded(&[false, true, false]));
}

#[test]
fn executable_names_from_wide_paths() {
    let path: Vec<u16> = "C:\\Tools\\Code.EXE".encode_utf16().collect();
    assert_eq!(executable_name_of_units(&path), "code.exe");
    let mut odd: Vec<u16> = "C:\\x".encode_utf16().collect();
    odd.push(0xDC00);
    assert_eq!(executable_name_of_units(&odd), "x\u{FFFD}");
}

const SEC: i128 = 1_000_000_000;
const HOUR: i128 = 3600 * SEC;

#[test]
fn fade_phases_through_the_day() {
    // Sunrise 05:25, sunset 20:31, one-hour fades, no offsets.
    let sunrise = 5 * HOUR + 25 * 60 * SEC;
    let sunset = 20 * HOUR + 31 * 60 * SEC;
    assert_eq!(fade_phase(12 * HOUR, sunrise, sunset, 60, 0, 0), FadePhase::Day);
    assert_eq!(fade_phase(0, sunrise, sunset, 60, 0, 0), FadePhase::Night);
    assert_eq!(fade_phase(sunset, sunrise, sunset, 60, 0, 0), FadePhase::Night);
    assert_eq!(
        fade_phase(sunset - 30 * 60 * SEC, sunrise, sunset, 60, 0, 0),
        FadePhase::Evening { elapsed_s: 1800, total_s: 3600 }
    );
    assert_eq!(
        fade_phase(sunset - HOUR, sunrise, sunset, 60, 0, 0),
        FadePhase::Evening { elapsed_s: 0, total_s: 3600 }
    );
    assert_eq!(
        fade_phase(sunrise - HOUR, sunrise, sunset, 60, 0, 0),
        FadePhase::Morning { elapsed_s: 0, total_s: 3600 }
    );
    assert_eq!(
        fade_phase(sunrise - SEC / 2, sunrise, sunset, 60, 0, 0),
        FadePhase::Morning { elapsed_s: 3599, total_s: 3600 }
    );
    assert_eq!(fade_phase(sunrise, sunrise, sunset, 60, 0, 0), FadePhase::Day);
    // Offsets move the fades: the evening ends 30 minutes before sunset.
    assert_eq!(fade_phase(sunset - 30 * 60 * SEC, sunrise, sunset, 60, 30, 0), FadePhase::Night);
    assert_eq!(
        fade_phase(sunrise + 10 * 60 * SEC, sunrise, sunset, 60, 0, 15),
        FadePhase::Morning { elapsed_s: 3300, total_s: 3600 }
    );
    // Without a fade duration there is no fade.
    assert_eq!(fade_phase(sunset - SEC, sunrise, sunset, 0, 0, 0), FadePhase::Day);
}

#[test]
fn tray_click_timing() {
    assert_eq!(click_delay_ms(TrayClickBehavior::WindowsTimed, 500), 500);
    assert_eq!(click_delay_ms(TrayClickBehavior::WindowsTimed, 100), 200);
    assert_eq!(click_delay_ms(TrayClickBehavior::Immediate, 500), 0);
    assert_eq!(click_delay_ms(TrayClickBehavior::ImmediateWithSettings, 500), 0);
    assert!(!double_click_opens_settings(TrayClickBehavior::Immediate));
    assert!(double_click_opens_settings(TrayClickBehavior::ImmediateWithSettings));
    assert!(double_click_opens_settings(TrayClickBehavior::WindowsTimed));
    assert!(click_follows_dismissal(750_000_000, 500));
    assert!(!click_follows_dismissal(750_000_001, 500));
    assert!(click_follows_dismissal(0, 0));
}
