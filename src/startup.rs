use vstd::prelude::*;

use crate::text::same_text;

verus! {

/// Command-line argument that marks a launch made by the autostart service.
pub const AUTOSTART_ARG: &'static str = "--autostart";

/// Whether some argument is exactly the autostart marker.
pub open spec fn has_autostart_arg(args: Seq<String>) -> bool {
    exists|i: int| 0 <= i < args.len() && #[trigger] args[i]@ == AUTOSTART_ARG@
}

/// Whether this launch came from the autostart service, in which case the main
/// window starts hidden and waits in the tray.
pub fn is_autostart_launch(args: &Vec<String>) -> (r: bool)
    ensures
        r == has_autostart_arg(args@),
{
    let mut i: usize = 0;
    while i < args.len()
        invariant
            0 <= i <= args@.len(),
            forall|j: int| 0 <= j < i ==> #[trigger] args@[j]@ != AUTOSTART_ARG@,
        decreases args@.len() - i,
    {
        if same_text(args[i].as_str(), AUTOSTART_ARG) {
            return true;
        }
        i = i + 1;
    }
    false
}

/// What to do with the autostart registration at startup.
#[derive(PartialEq, Eq, Structural, Clone, Copy, Debug)]
pub enum AutostartStep {
    Enable,
    Disable,
    Keep,
}

/// The step that brings the registration from `enabled` to `wanted`.
pub open spec fn autostart_step_spec(enabled: bool, wanted: bool) -> AutostartStep {
    if enabled == wanted {
        AutostartStep::Keep
    } else if wanted {
        AutostartStep::Enable
    } else {
        AutostartStep::Disable
    }
}

/// Decides how to bring the autostart registration, now `enabled`, to the
/// configured policy `wanted`.
pub fn autostart_step(enabled: bool, wanted: bool) -> (r: AutostartStep)
    ensures
        r == autostart_step_spec(enabled, wanted),
{
    if enabled == wanted {
        AutostartStep::Keep
    } else if wanted {
        AutostartStep::Enable
    } else {
        AutostartStep::Disable
    }
}

} // verus!
