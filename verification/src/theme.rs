//! Dark/light theme: how the choice is stored in the `AppsUseLightTheme` and
//! `SystemUsesLightTheme` registry values, and what a toggle chooses.
use vstd::prelude::*;

verus! {

/// The registry value that selects a theme: 0 for dark, 1 for light.
pub open spec fn light_theme_value_spec(dark: bool) -> u32 {
    if dark {
        0
    } else {
        1
    }
}

/// Whether a read of `AppsUseLightTheme` shows dark mode: only a successful
/// read of 0 does; a failed read counts as light.
pub open spec fn dark_from_registry_spec(read_ok: bool, data: u32) -> bool {
    read_ok && data == 0
}

/// The value written to select the theme.
pub fn light_theme_value(dark: bool) -> (r: u32)
    ensures
        r == light_theme_value_spec(dark),
{
    if dark {
        0
    } else {
        1
    }
}

/// Whether the theme read back from the registry is dark.
pub fn dark_from_registry(read_ok: bool, data: u32) -> (r: bool)
    ensures
        r == dark_from_registry_spec(read_ok, data),
{
    read_ok && data == 0
}

/// The theme a toggle switches to: dark when light is active, and the other
/// way round.
pub fn toggle_theme(currently_dark: bool) -> (dark: bool)
    ensures
        dark == !currently_dark,
{
    !currently_dark
}

/// Reading the theme back after a successful write gives the theme written.
pub proof fn lemma_theme_read_back(dark: bool)
    ensures
        dark_from_registry_spec(true, light_theme_value_spec(dark)) == dark,
{
}

/// Whether a theme write took: both registry values were written
/// (status 0, `ERROR_SUCCESS`).
pub fn theme_written(apps_status: i32, system_status: i32) -> (r: bool)
    ensures
        r == (apps_status == 0 && system_status == 0),
{
    apps_status == 0 && system_status == 0
}

} // verus!
