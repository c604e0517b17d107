//! The settings schema: the parts that hold integers, flags and text, their
//! defaults, and the representative-city table used when no location is set.
use vstd::prelude::*;
use vstd::slice::slice_subrange;
use vstd::string::*;
use crate::text::{
    after_last, ascii_upper, chars_of, decode_utf16, last_index_in, lemma_last_index_bounds,
    nul_position, until_nul, upper_range, utf16_decode, vec_eq_str,
};

verus! {

/// Fade timing configuration.
#[derive(Debug, Clone)]
pub struct FadeConfig {
    /// Minutes before sunset to begin evening fade.
    pub evening_offset_min: i32,
    /// Minutes after sunrise to finish morning fade.
    pub morning_offset_min: i32,
    /// Duration of the fade transition in minutes.
    pub fade_duration_min: u32,
    /// Use civil twilight (-6°) instead of fixed offsets.
    pub use_civil_twilight: bool,
}

/// Color temperature endpoints (Kelvin).
#[derive(Debug, Clone)]
pub struct ColorConfig {
    /// Daytime color temperature (Kelvin). 6500 = neutral daylight.
    pub day_temp_k: u32,
    /// Nighttime color temperature (Kelvin). 3400 = warm.
    pub night_temp_k: u32,
}

/// Brightness endpoints, in percent.
#[derive(Debug, Clone)]
pub struct BrightnessConfig {
    pub hardware_day_percent: u8,
    pub hardware_night_percent: u8,
    pub overlay_day_percent: u8,
    pub overlay_night_percent: u8,
}

/// Dark/light theme switching.
#[derive(Debug, Clone)]
pub struct ThemeConfig {
    pub auto_switch: bool,
    /// Offset from sunset/civil dusk, in minutes.
    pub dark_offset_min: i32,
    /// Offset from sunrise/civil dawn, in minutes.
    pub light_offset_min: i32,
}

/// User-configurable global keyboard shortcuts.
#[derive(Debug, Clone)]
pub struct HotkeyConfig {
    pub toggle_pause: String,
    pub brighter: String,
    pub darker: String,
    pub toggle_theme: String,
    pub toggle_day_night: String,
    pub boost: String,
    pub show_quick_controls: bool,
    pub quick_controls_duration_sec: u32,
}

impl Default for HotkeyConfig {
    fn default() -> (r: Self)
        ensures
            r.toggle_pause@ == "Alt+Pause"@,
            r.brighter@ == "Alt+Up"@,
            r.darker@ == "Alt+Down"@,
            r.toggle_theme@ == "Alt+F5"@,
            r.toggle_day_night@ == "Alt+F6"@,
            r.boost@ == "Alt+F7"@,
            r.show_quick_controls,
            r.quick_controls_duration_sec == 3,
    {
        HotkeyConfig {
            toggle_pause: String::from_str("Alt+Pause"),
            brighter: String::from_str("Alt+Up"),
            darker: String::from_str("Alt+Down"),
            toggle_theme: String::from_str("Alt+F5"),
            toggle_day_night: String::from_str("Alt+F6"),
            boost: String::from_str("Alt+F7"),
            show_quick_controls: true,
            quick_controls_duration_sec: 3,
        }
    }
}

/// What a left click on the tray icon does.
#[derive(Debug, Clone, Copy, PartialEq, Eq, Structural)]
pub enum TrayClickBehavior {
    Immediate,
    ImmediateWithSettings,
    WindowsTimed,
}

impl Default for TrayClickBehavior {
    fn default() -> (r: Self)
        ensures
            r == TrayClickBehavior::WindowsTimed,
    {
        TrayClickBehavior::WindowsTimed
    }
}

/// Advanced quick-panel interaction preferences.
#[derive(Debug, Clone, Copy)]
pub struct DeveloperConfig {
    pub tray_click_behavior: TrayClickBehavior,
    pub close_on_focus_loss: bool,
    pub minimum_gamma_percent: u8,
}

impl Default for DeveloperConfig {
    fn default() -> (r: Self)
        ensures
            r.tray_click_behavior == TrayClickBehavior::WindowsTimed,
            r.close_on_focus_loss,
            r.minimum_gamma_percent == 10,
    {
        DeveloperConfig {
            tray_click_behavior: TrayClickBehavior::WindowsTimed,
            close_on_focus_loss: true,
            minimum_gamma_percent: 10,
        }
    }
}

/// `value.clamp(lo, hi)` for `lo <= hi`.
pub open spec fn clamp_spec(value: int, lo: int, hi: int) -> int {
    if value < lo {
        lo
    } else if value > hi {
        hi
    } else {
        value
    }
}

impl DeveloperConfig {
    /// The lowest gamma level, in percent, that the ramps may dim to: the
    /// configured minimum kept within 1..=100.
    pub fn gamma_floor_percent(&self) -> (r: u8)
        ensures
            r == clamp_spec(self.minimum_gamma_percent as int, 1, 100),
            1 <= r <= 100,
    {
        let m = self.minimum_gamma_percent;
        if m < 1 {
            1
        } else if m > 100 {
            100
        } else {
            m
        }
    }
}


/// A point on the globe in ten-thousandths of a degree: `latitude_e4 = 523676`
/// is 52.3676°. North and east are positive.
#[derive(Debug, Clone, Copy, PartialEq, Eq)]
pub struct Coordinates {
    pub latitude_e4: i32,
    pub longitude_e4: i32,
}

/// The region part of a locale name such as `de-AT` or `pt_BR`: the text after
/// its last `-` or `_`, upper-cased.
pub open spec fn locale_region(locale: Seq<char>) -> Seq<char> {
    ascii_upper(after_last(locale, seq!['-', '_']))
}

/// The representative city for a Windows time-zone name and an upper-cased
/// locale region, in ten-thousandths of a degree (latitude, longitude).
pub open spec fn city_for(timezone: Seq<char>, region: Seq<char>) -> Option<(int, int)> {
    if timezone == "GMT Standard Time"@ {
        if region == "IE"@ {
            Some((533498, -62603))
        } else {
            Some((515074, -1278))
        }
    } else if timezone == "W. Europe Standard Time"@ {
        if region == "NL"@ {
            Some((523676, 49041))
        } else if region == "BE"@ {
            Some((508503, 43517))
        } else if region == "CH"@ {
            Some((469480, 74474))
        } else if region == "AT"@ {
            Some((482082, 163738))
        } else {
            Some((525200, 134050))
        }
    } else if timezone == "Romance Standard Time"@ {
        if region == "ES"@ {
            Some((404168, -37038))
        } else {
            Some((488566, 23522))
        }
    } else if timezone == "Central Europe Standard Time"@ {
        if region == "CZ"@ {
            Some((500755, 144378))
        } else if region == "HU"@ {
            Some((474979, 190402))
        } else if region == "SK"@ {
            Some((481486, 171077))
        } else {
            Some((522297, 210122))
        }
    } else if timezone == "E. Europe Standard Time"@ {
        if region == "FI"@ {
            Some((601699, 249384))
        } else {
            Some((470105, 288638))
        }
    } else if timezone == "FLE Standard Time"@ {
        if region == "EE"@ {
            Some((594370, 247536))
        } else if region == "LV"@ {
            Some((569496, 241052))
        } else if region == "LT"@ {
            Some((546872, 252797))
        } else {
            Some((504501, 305234))
        }
    } else if timezone == "Eastern Standard Time"@ {
        if region == "CA"@ {
            Some((436532, -793832))
        } else {
            Some((407128, -740060))
        }
    } else if timezone == "Central Standard Time"@ {
        if region == "CA"@ {
            Some((498951, -971384))
        } else {
            Some((418781, -876298))
        }
    } else if timezone == "Mountain Standard Time"@ {
        if region == "CA"@ {
            Some((510447, -1140719))
        } else {
            Some((397392, -1049903))
        }
    } else if timezone == "Pacific Standard Time"@ {
        if region == "CA"@ {
            Some((492827, -1231207))
        } else {
            Some((340522, -1182437))
        }
    } else if timezone == "Tokyo Standard Time"@ {
        Some((356762, 1396503))
    } else if timezone == "Korea Standard Time"@ {
        Some((375665, 1269780))
    } else if timezone == "China Standard Time"@ {
        Some((312304, 1214737))
    } else if timezone == "India Standard Time"@ {
        Some((286139, 772090))
    } else if timezone == "AUS Eastern Standard Time"@ {
        Some((-338688, 1512093))
    } else if timezone == "E. Australia Standard Time"@ {
        Some((-274698, 1530251))
    } else if timezone == "New Zealand Standard Time"@ {
        Some((-412866, 1747756))
    } else {
        region_city(region)
    }
}

/// The representative city for a locale region alone.
pub open spec fn region_city(region: Seq<char>) -> Option<(int, int)> {
    if region == "DE"@ {
        Some((525200, 134050))
    } else if region == "FR"@ {
        Some((488566, 23522))
    } else if region == "GB"@ {
        Some((515074, -1278))
    } else if region == "US"@ {
        Some((398283, -985795))
    } else if region == "CA"@ {
        Some((454215, -756972))
    } else if region == "AU"@ {
        Some((-352809, 1491300))
    } else if region == "JP"@ {
        Some((356762, 1396503))
    } else if region == "IN"@ {
        Some((286139, 772090))
    } else if region == "BR"@ {
        Some((-157939, -478828))
    } else if region == "MX"@ {
        Some((194326, -991332))
    } else {
        None
    }
}

/// Whether the city table holds a row of its own for `region` within the time
/// zone `timezone`, in place of the zone's default city.
pub open spec fn zone_has_row(timezone: Seq<char>, region: Seq<char>) -> bool {
    if timezone == "GMT Standard Time"@ {
        region == "IE"@
    } else if timezone == "W. Europe Standard Time"@ {
        region == "NL"@ || region == "BE"@ || region == "CH"@ || region == "AT"@
    } else if timezone == "Romance Standard Time"@ {
        region == "ES"@
    } else if timezone == "Central Europe Standard Time"@ {
        region == "CZ"@ || region == "HU"@ || region == "SK"@
    } else if timezone == "E. Europe Standard Time"@ {
        region == "FI"@
    } else if timezone == "FLE Standard Time"@ {
        region == "EE"@ || region == "LV"@ || region == "LT"@
    } else if timezone == "Eastern Standard Time"@ || timezone == "Central Standard Time"@
        || timezone == "Mountain Standard Time"@ || timezone == "Pacific Standard Time"@ {
        region == "CA"@
    } else {
        false
    }
}

/// Within one time zone, a region with a row of its own gets its own city: no
/// other region of that zone, listed or not, is placed at the same point.
pub proof fn lemma_zone_rows_distinct(timezone: Seq<char>, r1: Seq<char>, r2: Seq<char>)
    requires
        zone_has_row(timezone, r1),
        r1 != r2,
    ensures
        city_for(timezone, r1) is Some,
        city_for(timezone, r1) != city_for(timezone, r2),
{
}

/// Distinct regions of the region table are placed at distinct cities.
pub proof fn lemma_region_cities_distinct(a: Seq<char>, b: Seq<char>)
    requires
        region_city(a) is Some,
        region_city(a) == region_city(b),
    ensures
        a == b,
{
}

/// A zone's default city is the city that the region table gives the zone's
/// home country: Greenwich time places the regions without a row of their own
/// in London (GB), Western European time in Berlin (DE), Romance time in Paris
/// (FR), and Tokyo and India time every region in Tokyo (JP) and New Delhi (IN).
pub proof fn lemma_zone_defaults_match_region_table(region: Seq<char>)
    ensures
        !zone_has_row("GMT Standard Time"@, region) ==> city_for("GMT Standard Time"@, region)
            == region_city("GB"@),
        !zone_has_row("W. Europe Standard Time"@, region) ==> city_for(
            "W. Europe Standard Time"@,
            region,
        ) == region_city("DE"@),
        !zone_has_row("Romance Standard Time"@, region) ==> city_for(
            "Romance Standard Time"@,
            region,
        ) == region_city("FR"@),
        city_for("Tokyo Standard Time"@, region) == region_city("JP"@),
        city_for("India Standard Time"@, region) == region_city("IN"@),
{
    reveal_strlit("GMT Standard Time");
    reveal_strlit("W. Europe Standard Time");
    reveal_strlit("Romance Standard Time");
    reveal_strlit("Central Europe Standard Time");
    reveal_strlit("E. Europe Standard Time");
    reveal_strlit("FLE Standard Time");
    reveal_strlit("Eastern Standard Time");
    reveal_strlit("Central Standard Time");
    reveal_strlit("Mountain Standard Time");
    reveal_strlit("Pacific Standard Time");
    reveal_strlit("Tokyo Standard Time");
    reveal_strlit("Korea Standard Time");
    reveal_strlit("China Standard Time");
    reveal_strlit("India Standard Time");
    reveal_strlit("DE");
    reveal_strlit("FR");
    reveal_strlit("GB");
    reveal_strlit("US");
    reveal_strlit("CA");
    reveal_strlit("AU");
    reveal_strlit("JP");
    reveal_strlit("IN");
    assert("GB"@[0] != "DE"@[0] && "GB"@[0] != "FR"@[0]);
    assert("W. Europe Standard Time"@.len() != "GMT Standard Time"@.len());
    assert("Tokyo Standard Time"@.len() != "GMT Standard Time"@.len() && "Tokyo Standard Time"@.len() != "W. Europe Standard Time"@.len() && "Tokyo Standard Time"@.len() != "Romance Standard Time"@.len() && "Tokyo Standard Time"@.len() != "Central Europe Standard Time"@.len() && "Tokyo Standard Time"@.len() != "E. Europe Standard Time"@.len() && "Tokyo Standard Time"@.len() != "FLE Standard Time"@.len() && "Tokyo Standard Time"@.len() != "Eastern Standard Time"@.len() && "Tokyo Standard Time"@.len() != "Central Standard Time"@.len() && "Tokyo Standard Time"@.len() != "Mountain Standard Time"@.len() && "Tokyo Standard Time"@.len() != "Pacific Standard Time"@.len());
    assert("India Standard Time"@.len() != "GMT Standard Time"@.len() && "India Standard Time"@.len() != "W. Europe Standard Time"@.len() && "India Standard Time"@.len() != "Romance Standard Time"@.len() && "India Standard Time"@.len() != "Central Europe Standard Time"@.len() && "India Standard Time"@.len() != "E. Europe Standard Time"@.len() && "India Standard Time"@.len() != "FLE Standard Time"@.len() && "India Standard Time"@.len() != "Eastern Standard Time"@.len() && "India Standard Time"@.len() != "Central Standard Time"@.len() && "India Standard Time"@.len() != "Mountain Standard Time"@.len() && "India Standard Time"@.len() != "Pacific Standard Time"@.len());
    assert("India Standard Time"@[0] != "Tokyo Standard Time"@[0] && "India Standard Time"@[0] != "Korea Standard Time"@[0] && "India Standard Time"@[0] != "China Standard Time"@[0]);
    assert("JP"@[0] != "DE"@[0] && "JP"@[0] != "FR"@[0] && "JP"@[0] != "GB"@[0] && "JP"@[0] != "US"@[0] && "JP"@[0] != "CA"@[0] && "JP"@[0] != "AU"@[0]);
    assert("IN"@[0] != "DE"@[0] && "IN"@[0] != "FR"@[0] && "IN"@[0] != "GB"@[0] && "IN"@[0] != "US"@[0] && "IN"@[0] != "CA"@[0] && "IN"@[0] != "AU"@[0] && "IN"@[0] != "JP"@[0]);
}

/// Whether `c` is a point with latitude in `lat_lo..=lat_hi` and longitude in
/// `lon_lo..=lon_hi`, in ten-thousandths of a degree.
pub open spec fn placed_within(c: Option<(int, int)>, lat_lo: int, lat_hi: int, lon_lo: int, lon_hi: int) -> bool {
    c matches Some(p) && lat_lo <= p.0 <= lat_hi && lon_lo <= p.1 <= lon_hi
}

pub open spec fn european_zone(timezone: Seq<char>) -> bool {
    ||| timezone == "GMT Standard Time"@
    ||| timezone == "W. Europe Standard Time"@
    ||| timezone == "Romance Standard Time"@
    ||| timezone == "Central Europe Standard Time"@
    ||| timezone == "E. Europe Standard Time"@
    ||| timezone == "FLE Standard Time"@
}

pub open spec fn north_american_zone(timezone: Seq<char>) -> bool {
    ||| timezone == "Eastern Standard Time"@
    ||| timezone == "Central Standard Time"@
    ||| timezone == "Mountain Standard Time"@
    ||| timezone == "Pacific Standard Time"@
}

pub open spec fn asian_zone(timezone: Seq<char>) -> bool {
    ||| timezone == "Tokyo Standard Time"@
    ||| timezone == "Korea Standard Time"@
    ||| timezone == "China Standard Time"@
    ||| timezone == "India Standard Time"@
}

pub open spec fn australasian_zone(timezone: Seq<char>) -> bool {
    ||| timezone == "AUS Eastern Standard Time"@
    ||| timezone == "E. Australia Standard Time"@
    ||| timezone == "New Zealand Standard Time"@
}

/// Whatever the region, a time zone of the table places the user in its own
/// part of the world: the European zones between 35°N and 71°N and between
/// 25°W and 45°E, the North American ones between 25°N and 60°N and between
/// 130°W and 60°W, the Asian ones between the equator and 60°N and between 60°E
/// and 150°E, and the Australasian ones between 45°S and 10°S and between 110°E
/// and 180°E.
pub proof fn lemma_zone_cities_in_their_area(timezone: Seq<char>, region: Seq<char>)
    ensures
        european_zone(timezone) ==> placed_within(city_for(timezone, region), 350000, 710000, -250000, 450000),
        north_american_zone(timezone) ==> placed_within(
            city_for(timezone, region),
            250000,
            600000,
            -1300000,
            -600000,
        ),
        asian_zone(timezone) ==> placed_within(city_for(timezone, region), 0, 600000, 600000, 1500000),
        australasian_zone(timezone) ==> placed_within(
            city_for(timezone, region),
            -450000,
            -100000,
            1100000,
            1800000,
        ),
{
    reveal_strlit("GMT Standard Time");
    reveal_strlit("W. Europe Standard Time");
    reveal_strlit("Romance Standard Time");
    reveal_strlit("Central Europe Standard Time");
    reveal_strlit("E. Europe Standard Time");
    reveal_strlit("FLE Standard Time");
    reveal_strlit("Eastern Standard Time");
    reveal_strlit("Central Standard Time");
    reveal_strlit("Mountain Standard Time");
    reveal_strlit("Pacific Standard Time");
    reveal_strlit("Tokyo Standard Time");
    reveal_strlit("Korea Standard Time");
    reveal_strlit("China Standard Time");
    reveal_strlit("India Standard Time");
    reveal_strlit("AUS Eastern Standard Time");
    reveal_strlit("E. Australia Standard Time");
    reveal_strlit("New Zealand Standard Time");
    assert(
        "GMT Standard Time"@.len() == 17 && "GMT Standard Time"@[0] == 'G'
        && "W. Europe Standard Time"@.len() == 23 && "W. Europe Standard Time"@[0] == 'W'
        && "Romance Standard Time"@.len() == 21 && "Romance Standard Time"@[0] == 'R'
        && "Central Europe Standard Time"@.len() == 28 && "Central Europe Standard Time"@[0] == 'C'
        && "E. Europe Standard Time"@.len() == 23 && "E. Europe Standard Time"@[0] == 'E'
        && "FLE Standard Time"@.len() == 17 && "FLE Standard Time"@[0] == 'F'
        && "Eastern Standard Time"@.len() == 21 && "Eastern Standard Time"@[0] == 'E'
        && "Central Standard Time"@.len() == 21 && "Central Standard Time"@[0] == 'C'
        && "Mountain Standard Time"@.len() == 22 && "Mountain Standard Time"@[0] == 'M'
        && "Pacific Standard Time"@.len() == 21 && "Pacific Standard Time"@[0] == 'P'
        && "Tokyo Standard Time"@.len() == 19 && "Tokyo Standard Time"@[0] == 'T'
        && "Korea Standard Time"@.len() == 19 && "Korea Standard Time"@[0] == 'K'
        && "China Standard Time"@.len() == 19 && "China Standard Time"@[0] == 'C'
        && "India Standard Time"@.len() == 19 && "India Standard Time"@[0] == 'I'
        && "AUS Eastern Standard Time"@.len() == 25 && "AUS Eastern Standard Time"@[0] == 'A'
        && "E. Australia Standard Time"@.len() == 26 && "E. Australia Standard Time"@[0] == 'E'
        && "New Zealand Standard Time"@.len() == 25 && "New Zealand Standard Time"@[0] == 'N'
    );
}

/// The four North American zones run from east to west: for any region, the
/// city placed in Eastern time lies east of the one placed in Central time,
/// which lies east of the one in Mountain time, which lies east of the one in
/// Pacific time.
pub proof fn lemma_north_american_zones_east_to_west(region: Seq<char>)
    ensures
        city_for("Eastern Standard Time"@, region) matches Some(e) && city_for(
            "Central Standard Time"@,
            region,
        ) matches Some(c) && city_for("Mountain Standard Time"@, region) matches Some(m)
            && city_for("Pacific Standard Time"@, region) matches Some(p) && e.1 > c.1 > m.1 > p.1,
{
    reveal_strlit("GMT Standard Time");
    reveal_strlit("W. Europe Standard Time");
    reveal_strlit("Romance Standard Time");
    reveal_strlit("Central Europe Standard Time");
    reveal_strlit("E. Europe Standard Time");
    reveal_strlit("FLE Standard Time");
    reveal_strlit("Eastern Standard Time");
    reveal_strlit("Central Standard Time");
    reveal_strlit("Mountain Standard Time");
    reveal_strlit("Pacific Standard Time");
    reveal_strlit("Tokyo Standard Time");
    reveal_strlit("Korea Standard Time");
    reveal_strlit("China Standard Time");
    reveal_strlit("India Standard Time");
    reveal_strlit("AUS Eastern Standard Time");
    reveal_strlit("E. Australia Standard Time");
    reveal_strlit("New Zealand Standard Time");
    assert(
        "GMT Standard Time"@.len() == 17 && "GMT Standard Time"@[0] == 'G'
        && "W. Europe Standard Time"@.len() == 23 && "W. Europe Standard Time"@[0] == 'W'
        && "Romance Standard Time"@.len() == 21 && "Romance Standard Time"@[0] == 'R'
        && "Central Europe Standard Time"@.len() == 28 && "Central Europe Standard Time"@[0] == 'C'
        && "E. Europe Standard Time"@.len() == 23 && "E. Europe Standard Time"@[0] == 'E'
        && "FLE Standard Time"@.len() == 17 && "FLE Standard Time"@[0] == 'F'
        && "Eastern Standard Time"@.len() == 21 && "Eastern Standard Time"@[0] == 'E'
        && "Central Standard Time"@.len() == 21 && "Central Standard Time"@[0] == 'C'
        && "Mountain Standard Time"@.len() == 22 && "Mountain Standard Time"@[0] == 'M'
        && "Pacific Standard Time"@.len() == 21 && "Pacific Standard Time"@[0] == 'P'
        && "Tokyo Standard Time"@.len() == 19 && "Tokyo Standard Time"@[0] == 'T'
        && "Korea Standard Time"@.len() == 19 && "Korea Standard Time"@[0] == 'K'
        && "China Standard Time"@.len() == 19 && "China Standard Time"@[0] == 'C'
        && "India Standard Time"@.len() == 19 && "India Standard Time"@[0] == 'I'
        && "AUS Eastern Standard Time"@.len() == 25 && "AUS Eastern Standard Time"@[0] == 'A'
        && "E. Australia Standard Time"@.len() == 26 && "E. Australia Standard Time"@[0] == 'E'
        && "New Zealand Standard Time"@.len() == 25 && "New Zealand Standard Time"@[0] == 'N'
    );
}

fn city_of(tz: &Vec<char>, region: &Vec<char>) -> (r: Option<(i32, i32)>)
    ensures
        match city_for(tz@, region@) {
            Some(c) => r == Some((c.0 as i32, c.1 as i32)),
            None => r is None,
        },
{
    if vec_eq_str(tz, "GMT Standard Time") {
        if vec_eq_str(region, "IE") {
            Some((533498, -62603))
        } else {
            Some((515074, -1278))
        }
    } else if vec_eq_str(tz, "W. Europe Standard Time") {
        if vec_eq_str(region, "NL") {
            Some((523676, 49041))
        } else if vec_eq_str(region, "BE") {
            Some((508503, 43517))
        } else if vec_eq_str(region, "CH") {
            Some((469480, 74474))
        } else if vec_eq_str(region, "AT") {
            Some((482082, 163738))
        } else {
            Some((525200, 134050))
        }
    } else if vec_eq_str(tz, "Romance Standard Time") {
        if vec_eq_str(region, "ES") {
            Some((404168, -37038))
        } else {
            Some((488566, 23522))
        }
    } else if vec_eq_str(tz, "Central Europe Standard Time") {
        if vec_eq_str(region, "CZ") {
            Some((500755, 144378))
        } else if vec_eq_str(region, "HU") {
            Some((474979, 190402))
        } else if vec_eq_str(region, "SK") {
            Some((481486, 171077))
        } else {
            Some((522297, 210122))
        }
    } else if vec_eq_str(tz, "E. Europe Standard Time") {
        if vec_eq_str(region, "FI") {
            Some((601699, 249384))
        } else {
            Some((470105, 288638))
        }
    } else if vec_eq_str(tz, "FLE Standard Time") {
        if vec_eq_str(region, "EE") {
            Some((594370, 247536))
        } else if vec_eq_str(region, "LV") {
            Some((569496, 241052))
        } else if vec_eq_str(region, "LT") {
            Some((546872, 252797))
        } else {
            Some((504501, 305234))
        }
    } else if vec_eq_str(tz, "Eastern Standard Time") {
        if vec_eq_str(region, "CA") {
            Some((436532, -793832))
        } else {
            Some((407128, -740060))
        }
    } else if vec_eq_str(tz, "Central Standard Time") {
        if vec_eq_str(region, "CA") {
            Some((498951, -971384))
        } else {
            Some((418781, -876298))
        }
    } else if vec_eq_str(tz, "Mountain Standard Time") {
        if vec_eq_str(region, "CA") {
            Some((510447, -1140719))
        } else {
            Some((397392, -1049903))
        }
    } else if vec_eq_str(tz, "Pacific Standard Time") {
        if vec_eq_str(region, "CA") {
            Some((492827, -1231207))
        } else {
            Some((340522, -1182437))
        }
    } else if vec_eq_str(tz, "Tokyo Standard Time") {
        Some((356762, 1396503))
    } else if vec_eq_str(tz, "Korea Standard Time") {
        Some((375665, 1269780))
    } else if vec_eq_str(tz, "China Standard Time") {
        Some((312304, 1214737))
    } else if vec_eq_str(tz, "India Standard Time") {
        Some((286139, 772090))
    } else if vec_eq_str(tz, "AUS Eastern Standard Time") {
        Some((-338688, 1512093))
    } else if vec_eq_str(tz, "E. Australia Standard Time") {
        Some((-274698, 1530251))
    } else if vec_eq_str(tz, "New Zealand Standard Time") {
        Some((-412866, 1747756))
    } else {
        region_city_of(region)
    }
}

fn region_city_of(region: &Vec<char>) -> (r: Option<(i32, i32)>)
    ensures
        match region_city(region@) {
            Some(c) => r == Some((c.0 as i32, c.1 as i32)),
            None => r is None,
        },
{
    if vec_eq_str(region, "DE") {
        Some((525200, 134050))
    } else if vec_eq_str(region, "FR") {
        Some((488566, 23522))
    } else if vec_eq_str(region, "GB") {
        Some((515074, -1278))
    } else if vec_eq_str(region, "US") {
        Some((398283, -985795))
    } else if vec_eq_str(region, "CA") {
        Some((454215, -756972))
    } else if vec_eq_str(region, "AU") {
        Some((-352809, 1491300))
    } else if vec_eq_str(region, "JP") {
        Some((356762, 1396503))
    } else if vec_eq_str(region, "IN") {
        Some((286139, 772090))
    } else if vec_eq_str(region, "BR") {
        Some((-157939, -478828))
    } else if vec_eq_str(region, "MX") {
        Some((194326, -991332))
    } else {
        None
    }
}

/// Pick a representative city for solar calculations. Windows time-zone names
/// are used first; the locale region settles zones shared by several countries
/// and stands alone when the zone is not in the table.
pub fn guess_location(timezone: &str, locale: &str) -> (r: Option<Coordinates>)
    ensures
        match city_for(timezone@, locale_region(locale@)) {
            Some(c) => r == Some(Coordinates { latitude_e4: c.0 as i32, longitude_e4: c.1 as i32 }),
            None => r is None,
        },
{
    let tz = chars_of(timezone);
    let loc = chars_of(locale);
    let seps: Vec<char> = vec!['-', '_'];
    assert(seps@ =~= seq!['-', '_']);
    proof {
        lemma_last_index_bounds(loc@, seps@);
    }
    let start = match last_index_in(&loc, &seps) {
        Some(i) => i + 1,
        None => 0,
    };
    let region = upper_range(&loc, start, loc.len());
    assert(loc@.subrange(start as int, loc@.len() as int) =~= after_last(loc@, seq!['-', '_']));
    match city_of(&tz, &region) {
        Some((la, lo)) => Some(Coordinates { latitude_e4: la, longitude_e4: lo }),
        None => None,
    }
}

/// The text of a fixed-size UTF-16 buffer as the system fills it: the code
/// units before the first NUL, decoded.
pub fn utf16_array(value: &[u16]) -> (r: String)
    ensures
        r@ == utf16_decode(until_nul(value@)),
{
    let end = nul_position(value);
    let prefix = slice_subrange(value, 0, end);
    assert(prefix@ =~= value@.take(end as int));
    decode_utf16(prefix)
}

} // verus!
