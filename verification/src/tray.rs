//! Tray icon clicks: how long a single click waits for a possible second
//! click, and when a click is swallowed.
use vstd::prelude::*;
use crate::config::TrayClickBehavior;

verus! {

/// How long a single click waits before it toggles the quick panel: in
/// `WindowsTimed` mode the system double-click time, but at least 200 ms;
/// otherwise no wait.
pub fn click_delay_ms(behavior: TrayClickBehavior, double_click_time_ms: u32) -> (r: u32)
    ensures
        r == (if behavior == TrayClickBehavior::WindowsTimed {
            if double_click_time_ms < 200 {
                200
            } else {
                double_click_time_ms
            }
        } else {
            0
        }),
{
    if behavior == TrayClickBehavior::WindowsTimed {
        if double_click_time_ms < 200 {
            200
        } else {
            double_click_time_ms
        }
    } else {
        0
    }
}

/// Whether a double click opens the settings window; in `Immediate` mode it
/// is ignored.
pub fn double_click_opens_settings(behavior: TrayClickBehavior) -> (r: bool)
    ensures
        r == (behavior != TrayClickBehavior::Immediate),
{
    behavior != TrayClickBehavior::Immediate
}

/// Whether a click that comes `elapsed_ns` nanoseconds after the panel was
/// dismissed by focus loss is that same dismissal (the click that took the
/// focus), so that it must not reopen the panel: it is when it comes within
/// the click delay plus 250 ms.
pub fn click_follows_dismissal(elapsed_ns: u128, delay_ms: u32) -> (r: bool)
    ensures
        r == (elapsed_ns <= (delay_ms as int + 250) * 1_000_000),
{
    let limit: u128 = (delay_ms as u128 + 250) * 1_000_000;
    elapsed_ns <= limit
}

} // verus!
