//! Starting with Windows: the command line stored under the user's `Run` key,
//! and the decision a toggle makes.
use vstd::prelude::*;
use vstd::string::*;

verus! {

/// The command line registered to start the program: the executable path in
/// double quotes, so that a path with spaces stays one argument.
pub fn autostart_command(exe_path: &str) -> (r: String)
    ensures
        r@ == seq!['"'] + exe_path@ + seq!['"'],
{
    let mut command = String::from_str("\"");
    command.append(exe_path);
    command.append("\"");
    proof {
        reveal_strlit("\"");
    }
    assert(command@ =~= seq!['"'] + exe_path@ + seq!['"']);
    command
}

/// The state a toggle leads to: enabled when it was disabled, and the other
/// way round. The caller registers or removes the entry to match.
pub fn toggle_autostart(currently_enabled: bool) -> (enabled: bool)
    ensures
        enabled == !currently_enabled,
{
    !currently_enabled
}

} // verus!
