//! The decisions the once-per-second fade loop takes between its reads of the
//! clock, the settings and the focused window, and its writes to the display.
use vstd::prelude::*;

verus! {

/// What a tick does about pausing.
#[derive(Debug, Clone, Copy, PartialEq, Eq, Structural)]
pub enum PauseStep {
    /// Not paused: compute the phase and apply the effect.
    Run,
    /// Paused: the tick ends here and writes no effect; the display is reset
    /// to identity first when `reset_gamma` holds.
    Hold { reset_gamma: bool },
}

/// The part of the day a moment falls in.
#[derive(Debug, Clone, Copy, PartialEq, Eq, Structural)]
pub enum DayPhase {
    Day,
    Evening,
    Morning,
    Night,
}

/// What the fade loop keeps from one tick to the next: whether the shown state
/// is paused, and the phase of the last tick that ran (none before the first).
#[derive(Debug, Clone, Copy, PartialEq, Eq, Structural)]
pub struct TickState {
    pub shown_paused: bool,
    pub last_phase: Option<DayPhase>,
}

/// What a tick that runs does: the phase to show, and the theme to switch
/// to, if any. The effect for the phase is always written.
#[derive(Debug, Clone, Copy, PartialEq, Eq, Structural)]
pub struct TickEffect {
    pub phase: DayPhase,
    pub theme: Option<bool>,
}

pub open spec fn pause_step_spec(manually_paused: bool, app_paused: bool, shown_paused: bool) -> PauseStep {
    if manually_paused || app_paused {
        PauseStep::Hold { reset_gamma: app_paused && !shown_paused }
    } else {
        PauseStep::Run
    }
}

pub open spec fn day_phase_spec(p: FadePhase) -> DayPhase {
    match p {
        FadePhase::Night => DayPhase::Night,
        FadePhase::Evening { .. } => DayPhase::Evening,
        FadePhase::Morning { .. } => DayPhase::Morning,
        FadePhase::Day => DayPhase::Day,
    }
}

/// The theme switch due when the phase goes from `last` to `phase`: entering
/// night selects `dark_at_night`, leaving it selects the opposite, and any
/// other change, or automatic switching being off, selects nothing.
pub open spec fn theme_switch_spec(
    auto_switch: bool,
    phase: DayPhase,
    last: Option<DayPhase>,
    dark_at_night: bool,
) -> Option<bool> {
    if auto_switch && last != Some(phase) {
        if phase == DayPhase::Night && last != Some(DayPhase::Night) {
            Some(dark_at_night)
        } else if phase != DayPhase::Night && last == Some(DayPhase::Night) {
            Some(!dark_at_night)
        } else {
            None
        }
    } else {
        None
    }
}

/// The first half of a tick: the engine holds while it is paused by hand or
/// while a listed program has focus, and the state then shows paused. A
/// program's pause resets the display the first time it is seen, that is while
/// the state does not yet show a pause.
pub fn begin_tick(state: &mut TickState, manually_paused: bool, app_paused: bool) -> (r: PauseStep)
    ensures
        r == pause_step_spec(manually_paused, app_paused, old(state).shown_paused),
        r is Hold ==> *final(state) == (TickState { shown_paused: true, ..*old(state) }),
        r is Run ==> *final(state) == *old(state),
{
    if manually_paused || app_paused {
        let reset_gamma = app_paused && !state.shown_paused;
        state.shown_paused = true;
        PauseStep::Hold { reset_gamma }
    } else {
        PauseStep::Run
    }
}

/// The phase named by a point of the schedule.
pub fn day_phase(p: FadePhase) -> (r: DayPhase)
    ensures
        r == day_phase_spec(p),
{
    match p {
        FadePhase::Night => DayPhase::Night,
        FadePhase::Evening { .. } => DayPhase::Evening,
        FadePhase::Morning { .. } => DayPhase::Morning,
        FadePhase::Day => DayPhase::Day,
    }
}

/// The second half of a tick that runs, once the schedule gives its phase: the
/// state shows that phase, unpaused, and the theme switches on entering or
/// leaving night.
pub fn finish_tick(state: &mut TickState, phase: FadePhase, auto_switch: bool, dark_at_night: bool) -> (r: TickEffect)
    ensures
        r.phase == day_phase_spec(phase),
        r.theme == theme_switch_spec(auto_switch, day_phase_spec(phase), old(state).last_phase, dark_at_night),
        *final(state) == (TickState { shown_paused: false, last_phase: Some(day_phase_spec(phase)) }),
{
    let now = day_phase(phase);
    let last = state.last_phase;
    let changed = match last {
        Some(l) => l != now,
        None => true,
    };
    let was_night = match last {
        Some(l) => l == DayPhase::Night,
        None => false,
    };
    let now_night = now == DayPhase::Night;
    let theme = if auto_switch && changed {
        if now_night && !was_night {
            Some(dark_at_night)
        } else if !now_night && was_night {
            Some(!dark_at_night)
        } else {
            None
        }
    } else {
        None
    };
    state.shown_paused = false;
    state.last_phase = Some(now);
    TickEffect { phase: now, theme }
}

/// The name under which the state shows a phase.
pub open spec fn phase_name_spec(p: DayPhase) -> Seq<char> {
    match p {
        DayPhase::Day => "day"@,
        DayPhase::Evening => "evening"@,
        DayPhase::Morning => "morning"@,
        DayPhase::Night => "night"@,
    }
}

pub fn phase_name(p: DayPhase) -> (r: &'static str)
    ensures
        r@ == phase_name_spec(p),
{
    match p {
        DayPhase::Day => "day",
        DayPhase::Evening => "evening",
        DayPhase::Morning => "morning",
        DayPhase::Night => "night",
    }
}

/// Over one tick: a paused tick writes no effect and leaves the state showing
/// paused with its last phase kept; a tick that runs leaves it unpaused,
/// showing one of the four phases.
pub proof fn lemma_tick(
    state: TickState,
    manually_paused: bool,
    app_paused: bool,
    phase: FadePhase,
    auto_switch: bool,
    dark_at_night: bool,
)
    ensures
        (manually_paused || app_paused) <==> pause_step_spec(manually_paused, app_paused, state.shown_paused) is Hold,
        ({
            let n = phase_name_spec(day_phase_spec(phase));
            n == "day"@ || n == "evening"@ || n == "morning"@ || n == "night"@
        }),
{
}

/// The theme follows night: with automatic switching on, a tick that enters
/// night selects `dark_at_night`, and one that leaves night, by whatever phase
/// it comes to, selects the opposite; no tick switches the theme otherwise.
pub proof fn lemma_theme_follows_night(
    auto_switch: bool,
    phase: FadePhase,
    last: Option<DayPhase>,
    dark_at_night: bool,
)
    ensures
        auto_switch && last == Some(DayPhase::Night) && !(phase is Night) ==> theme_switch_spec(
            auto_switch,
            day_phase_spec(phase),
            last,
            dark_at_night,
        ) == Some(!dark_at_night),
        auto_switch && last != Some(DayPhase::Night) && phase is Night ==> theme_switch_spec(
            auto_switch,
            day_phase_spec(phase),
            last,
            dark_at_night,
        ) == Some(dark_at_night),
        theme_switch_spec(auto_switch, day_phase_spec(phase), last, dark_at_night) is Some
            ==> auto_switch && (last == Some(DayPhase::Night)) != (phase is Night),
{
}

/// Over a night the two switches undo each other: the tick after the one that
/// entered night, whatever phase it brings other than night, selects the
/// opposite of the theme selected on entering.
pub proof fn lemma_night_switches_undo(
    state: TickState,
    night: FadePhase,
    after: FadePhase,
    dark_at_night: bool,
)
    requires
        night is Night,
        !(after is Night),
        state.last_phase != Some(DayPhase::Night),
    ensures
        ({
            let entered = theme_switch_spec(true, day_phase_spec(night), state.last_phase, dark_at_night);
            let next = TickState { shown_paused: false, last_phase: Some(day_phase_spec(night)) };
            let left = theme_switch_spec(true, day_phase_spec(after), next.last_phase, dark_at_night);
            entered is Some && left is Some && left->Some_0 == !entered->Some_0
        }),
{
}

/// The phase a tick shows names the part of the day of the schedule point it
/// was computed from: "evening" exactly for the evening fade, "morning" exactly
/// for the morning fade, "night" and "day" for the rest. So the day/night
/// shortcut, which jumps to night from "day" or "morning", jumps to night
/// exactly from full day and from the morning fade.
pub proof fn lemma_shown_phase_names_schedule(p: FadePhase)
    ensures
        phase_name_spec(day_phase_spec(p)) == "evening"@ <==> p is Evening,
        phase_name_spec(day_phase_spec(p)) == "morning"@ <==> p is Morning,
        phase_name_spec(day_phase_spec(p)) == "night"@ <==> p is Night,
        phase_name_spec(day_phase_spec(p)) == "day"@ <==> p is Day,
        (phase_name_spec(day_phase_spec(p)) == "day"@ || phase_name_spec(day_phase_spec(p))
            == "morning"@) <==> (p is Day || p is Morning),
{
    reveal_strlit("day");
    reveal_strlit("evening");
    reveal_strlit("morning");
    reveal_strlit("night");
    assert("day"@.len() == 3 && "evening"@.len() == 7 && "morning"@.len() == 7 && "night"@.len() == 5);
    assert("evening"@[0] != "morning"@[0]);
}

/// Whether the sun times are recomputed on this tick: on a new day, after the
/// location changed, and on the first tick of every hour of running.
pub fn sun_recalc_due(tick_count: u64, new_day: bool, location_changed: bool) -> (r: bool)
    ensures
        r == (new_day || location_changed || tick_count % 3600 == 1),
{
    new_day || location_changed || tick_count % 3600 == 1
}

/// The state a pause toggle leads to, and whether the display is reset:
/// pausing resets it to identity, resuming leaves it to the next tick.
pub fn toggle_pause(paused: bool) -> (r: (bool, bool))
    ensures
        r.0 == !paused,
        r.1 == !paused,
{
    let next = !paused;
    (next, next)
}

/// Where a moment falls in the day's schedule.
#[derive(Debug, Clone, Copy, PartialEq, Eq, Structural)]
pub enum FadePhase {
    /// Full night.
    Night,
    /// The evening fade towards night, `elapsed_s` whole seconds into a fade
    /// of `total_s` seconds.
    Evening { elapsed_s: i64, total_s: i64 },
    /// The morning fade towards day, `elapsed_s` whole seconds into a fade of
    /// `total_s` seconds.
    Morning { elapsed_s: i64, total_s: i64 },
    /// Full day.
    Day,
}

pub open spec fn minutes_ns(m: int) -> int {
    m * 60_000_000_000
}

/// The phase at `now`, all times in nanoseconds on one local clock. The
/// evening fade ends `evening_offset_min` minutes before sunset and the morning
/// fade `morning_offset_min` minutes after sunrise; each lasts
/// `fade_duration_min` minutes. Night runs from the end of the evening fade to
/// the start of the morning fade.
pub open spec fn fade_phase_spec(
    now: int,
    sunrise: int,
    sunset: int,
    fade_duration_min: int,
    evening_offset_min: int,
    morning_offset_min: int,
) -> FadePhase {
    let fade = minutes_ns(fade_duration_min);
    let evening_end = sunset - minutes_ns(evening_offset_min);
    let evening_start = evening_end - fade;
    let morning_end = sunrise + minutes_ns(morning_offset_min);
    let morning_start = morning_end - fade;
    if now >= evening_end || now < morning_start {
        FadePhase::Night
    } else if now >= evening_start && now < evening_end {
        FadePhase::Evening {
            elapsed_s: ((now - evening_start) / 1_000_000_000) as i64,
            total_s: (fade_duration_min * 60) as i64,
        }
    } else if now >= morning_start && now < morning_end {
        FadePhase::Morning {
            elapsed_s: ((now - morning_start) / 1_000_000_000) as i64,
            total_s: (fade_duration_min * 60) as i64,
        }
    } else {
        FadePhase::Day
    }
}

pub open spec fn clock_range(t: i128) -> bool {
    -0x1_0000_0000_0000_0000_0000_0000 <= t <= 0x1_0000_0000_0000_0000_0000_0000
}

/// Classify `now` against the day's sunrise and sunset (nanosecond
/// timestamps). The fade progress is `elapsed_s / total_s` of the phase
/// returned.
pub fn fade_phase(
    now: i128,
    sunrise: i128,
    sunset: i128,
    fade_duration_min: u32,
    evening_offset_min: i32,
    morning_offset_min: i32,
) -> (r: FadePhase)
    requires
        clock_range(now),
        clock_range(sunrise),
        clock_range(sunset),
    ensures
        r == fade_phase_spec(
            now as int,
            sunrise as int,
            sunset as int,
            fade_duration_min as int,
            evening_offset_min as int,
            morning_offset_min as int,
        ),
{
    let minute: i128 = 60_000_000_000;
    let fade = fade_duration_min as i128 * minute;
    let evening_end = sunset - evening_offset_min as i128 * minute;
    let evening_start = evening_end - fade;
    let morning_end = sunrise + morning_offset_min as i128 * minute;
    let morning_start = morning_end - fade;
    let total_s = fade_duration_min as i64 * 60;
    if now >= evening_end || now < morning_start {
        FadePhase::Night
    } else if now >= evening_start && now < evening_end {
        FadePhase::Evening { elapsed_s: ((now - evening_start) / 1_000_000_000) as i64, total_s }
    } else if now >= morning_start && now < morning_end {
        FadePhase::Morning { elapsed_s: ((now - morning_start) / 1_000_000_000) as i64, total_s }
    } else {
        FadePhase::Day
    }
}

/// Inside a fade the progress `elapsed_s / total_s` lies in [0, 1): the fade
/// has started and not yet ended.
pub proof fn lemma_fade_progress_in_range(
    now: int,
    sunrise: int,
    sunset: int,
    fade_duration_min: nat,
    evening_offset_min: int,
    morning_offset_min: int,
)
    requires
        fade_duration_min * 60 <= i64::MAX,
    ensures
        match fade_phase_spec(
            now,
            sunrise,
            sunset,
            fade_duration_min as int,
            evening_offset_min,
            morning_offset_min,
        ) {
            FadePhase::Evening { elapsed_s, total_s } => 0 <= elapsed_s < total_s,
            FadePhase::Morning { elapsed_s, total_s } => 0 <= elapsed_s < total_s,
            _ => true,
        },
{
    let fade = minutes_ns(fade_duration_min as int);
    let evening_end = sunset - minutes_ns(evening_offset_min);
    let evening_start = evening_end - fade;
    let morning_end = sunrise + minutes_ns(morning_offset_min);
    let morning_start = morning_end - fade;
    if !(now >= evening_end || now < morning_start) {
        if now >= evening_start && now < evening_end {
            let d = now - evening_start;
            assert(0 <= d / 1_000_000_000 < fade_duration_min * 60) by (nonlinear_arith)
                requires
                    0 <= d < fade_duration_min * 60_000_000_000,
            ;
        } else if now >= morning_start && now < morning_end {
            let d = now - morning_start;
            assert(0 <= d / 1_000_000_000 < fade_duration_min * 60) by (nonlinear_arith)
                requires
                    0 <= d < fade_duration_min * 60_000_000_000,
            ;
        }
    }
}

/// The evening fade lasts the whole fade, whatever the offset: every moment
/// from `fade_duration_min` minutes before its end (`evening_offset_min`
/// minutes before sunset) up to that end, unless the morning schedule still
/// makes it night, is in the evening fade, as many whole seconds into it as
/// have passed since its start, and a tick shows it as "evening".
pub proof fn lemma_evening_fade_window(
    now: int,
    sunrise: int,
    sunset: int,
    fade_duration_min: nat,
    evening_offset_min: int,
    morning_offset_min: int,
)
    requires
        sunset - evening_offset_min * 60_000_000_000 - fade_duration_min * 60_000_000_000 <= now,
        now < sunset - evening_offset_min * 60_000_000_000,
        now >= sunrise + morning_offset_min * 60_000_000_000 - fade_duration_min * 60_000_000_000,
    ensures
        fade_phase_spec(
            now,
            sunrise,
            sunset,
            fade_duration_min as int,
            evening_offset_min,
            morning_offset_min,
        ) == (FadePhase::Evening {
            elapsed_s: ((now - (sunset - evening_offset_min * 60_000_000_000 - fade_duration_min
                * 60_000_000_000)) / 1_000_000_000) as i64,
            total_s: (fade_duration_min * 60) as i64,
        }),
        phase_name_spec(
            day_phase_spec(
                fade_phase_spec(
                    now,
                    sunrise,
                    sunset,
                    fade_duration_min as int,
                    evening_offset_min,
                    morning_offset_min,
                ),
            ),
        ) == "evening"@,
{
}

/// The morning fade lasts the whole fade: every moment from
/// `fade_duration_min` minutes before its end (`morning_offset_min` minutes
/// after sunrise) up to that end, before the evening fade begins, is in the
/// morning fade, as many whole seconds into it as have passed since its start,
/// and a tick shows it as "morning".
pub proof fn lemma_morning_fade_window(
    now: int,
    sunrise: int,
    sunset: int,
    fade_duration_min: nat,
    evening_offset_min: int,
    morning_offset_min: int,
)
    requires
        sunrise + morning_offset_min * 60_000_000_000 - fade_duration_min * 60_000_000_000 <= now,
        now < sunrise + morning_offset_min * 60_000_000_000,
        now < sunset - evening_offset_min * 60_000_000_000 - fade_duration_min * 60_000_000_000,
    ensures
        fade_phase_spec(
            now,
            sunrise,
            sunset,
            fade_duration_min as int,
            evening_offset_min,
            morning_offset_min,
        ) == (FadePhase::Morning {
            elapsed_s: ((now - (sunrise + morning_offset_min * 60_000_000_000 - fade_duration_min
                * 60_000_000_000)) / 1_000_000_000) as i64,
            total_s: (fade_duration_min * 60) as i64,
        }),
        phase_name_spec(
            day_phase_spec(
                fade_phase_spec(
                    now,
                    sunrise,
                    sunset,
                    fade_duration_min as int,
                    evening_offset_min,
                    morning_offset_min,
                ),
            ),
        ) == "morning"@,
{
}

/// Night runs from the end of the evening fade to the start of the morning
/// fade, and full day from the end of the morning fade to the start of the
/// evening fade.
pub proof fn lemma_night_and_day(
    now: int,
    sunrise: int,
    sunset: int,
    fade_duration_min: nat,
    evening_offset_min: int,
    morning_offset_min: int,
)
    ensures
        (now >= sunset - evening_offset_min * 60_000_000_000 || now < sunrise + morning_offset_min
            * 60_000_000_000 - fade_duration_min * 60_000_000_000) <==> fade_phase_spec(
            now,
            sunrise,
            sunset,
            fade_duration_min as int,
            evening_offset_min,
            morning_offset_min,
        ) is Night,
        (sunrise + morning_offset_min * 60_000_000_000 <= now && now < sunset - evening_offset_min
            * 60_000_000_000 - fade_duration_min * 60_000_000_000) ==> fade_phase_spec(
            now,
            sunrise,
            sunset,
            fade_duration_min as int,
            evening_offset_min,
            morning_offset_min,
        ) is Day,
{
}

} // verus!
