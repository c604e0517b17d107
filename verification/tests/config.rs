use lum::config::DeveloperConfig;

#[test]
fn gamma_floor_defaults_to_ten_and_stays_in_range() {
    let mut developer = DeveloperConfig::default();
    assert_eq!(developer.gamma_floor_percent(), 10);
    developer.minimum_gamma_percent = 0;
    assert_eq!(developer.gamma_floor_percent(), 1);
    developer.minimum_gamma_percent = 255;
    assert_eq!(developer.gamma_floor_percent(), 100);
}

use lum::config::{guess_location, utf16_array, HotkeyConfig, TrayClickBehavior};

fn degrees(e4: i32) -> f64 {
    e4 as f64 / 10000.0
}

#[test]
fn locale_disambiguates_shared_timezone() {
    let berlin = guess_location("W. Europe Standard Time", "de-DE").unwrap();
    let vienna = guess_location("W. Europe Standard Time", "de-AT").unwrap();
    assert_eq!(
        (degrees(berlin.latitude_e4), degrees(berlin.longitude_e4)),
        (52.5200, 13.4050)
    );
    assert_eq!(
        (degrees(vienna.latitude_e4), degrees(vienna.longitude_e4)),
        (48.2082, 16.3738)
    );
}

#[test]
fn locale_is_used_when_timezone_is_unknown() {
    let location = guess_location("Unknown zone", "pt-BR").unwrap();
    assert_eq!(
        (degrees(location.latitude_e4), degrees(location.longitude_e4)),
        (-15.7939, -47.8828)
    );
}

#[test]
fn unknown_zone_and_region_give_no_location() {
    assert!(guess_location("Unknown zone", "xx-ZZ").is_none());
    assert!(guess_location("", "").is_none());
}

#[test]
fn region_is_read_after_the_last_separator_in_any_case() {
    let dublin = guess_location("GMT Standard Time", "en_ie").unwrap();
    assert_eq!((dublin.latitude_e4, dublin.longitude_e4), (533498, -62603));
    let london = guess_location("GMT Standard Time", "en-GB").unwrap();
    assert_eq!((london.latitude_e4, london.longitude_e4), (515074, -1278));
    // A locale without a separator is a region by itself.
    let ottawa = guess_location("Unknown zone", "ca").unwrap();
    assert_eq!((ottawa.latitude_e4, ottawa.longitude_e4), (454215, -756972));
    let sydney = guess_location("AUS Eastern Standard Time", "en-AU").unwrap();
    assert_eq!((sydney.latitude_e4, sydney.longitude_e4), (-338688, 1512093));
}

#[test]
fn timezone_names_match_exactly() {
    // Time-zone names are compared with their case, unlike regions.
    let region_only = guess_location("gmt standard time", "en-GB").unwrap();
    assert_eq!((region_only.latitude_e4, region_only.longitude_e4), (515074, -1278));
    assert!(guess_location("gmt standard time", "en-IE").is_none());
}

#[test]
fn utf16_buffers_stop_at_the_first_nul() {
    let mut buf = [0u16; 8];
    for (i, c) in "de-AT".encode_utf16().enumerate() {
        buf[i] = c;
    }
    buf[6] = 'x' as u16;
    assert_eq!(utf16_array(&buf), "de-AT");
    let full: Vec<u16> = "abc".encode_utf16().collect();
    assert_eq!(utf16_array(&full), "abc");
    assert_eq!(utf16_array(&[0xD800, 0]), "\u{FFFD}");
}

#[test]
fn hotkey_defaults() {
    let config = HotkeyConfig::default();
    assert_eq!(config.toggle_pause, "Alt+Pause");
    assert_eq!(config.brighter, "Alt+Up");
    assert_eq!(config.darker, "Alt+Down");
    assert_eq!(config.toggle_theme, "Alt+F5");
    assert_eq!(config.toggle_day_night, "Alt+F6");
    assert_eq!(config.boost, "Alt+F7");
    assert!(config.show_quick_controls);
    assert_eq!(config.quick_controls_duration_sec, 3);
    assert_eq!(TrayClickBehavior::default(), TrayClickBehavior::WindowsTimed);
}

#[test]
fn gamma_floor_keeps_values_in_range() {
    let mut developer = DeveloperConfig::default();
    developer.minimum_gamma_percent = 1;
    assert_eq!(developer.gamma_floor_percent(), 1);
    developer.minimum_gamma_percent = 100;
    assert_eq!(developer.gamma_floor_percent(), 100);
    developer.minimum_gamma_percent = 101;
    assert_eq!(developer.gamma_floor_percent(), 100);
    developer.minimum_gamma_percent = 37;
    assert_eq!(developer.gamma_floor_percent(), 37);
}
