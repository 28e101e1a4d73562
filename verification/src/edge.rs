//! Button edge tracker: turns a per-button level signal into press and
//! release edges, and selects the command string configured for the edge.

use vstd::prelude::*;

verus! {

/// The view of an optional command string.
pub open spec fn opt_cmd_view(o: Option<&str>) -> Option<Seq<char>> {
    match o {
        Some(cmd) => Some(cmd@),
        None => None,
    }
}

/// The command an edge step dispatches: none when the level is unchanged;
/// otherwise the command configured for the new level, unless that
/// command is unset or empty.
pub open spec fn spec_edge_command(
    previously_pressed: bool,
    currently_pressed: bool,
    if_pressed: Option<Seq<char>>,
    if_released: Option<Seq<char>>,
) -> Option<Seq<char>> {
    if previously_pressed == currently_pressed {
        None
    } else {
        match (if currently_pressed {
            if_pressed
        } else {
            if_released
        }) {
            Some(cmd) => if cmd.len() > 0 {
                Some(cmd)
            } else {
                None
            },
            None => None,
        }
    }
}

/// Performs one edge step for a tracked button: updates the latch to the
/// current level and returns the command to dispatch, if any.
///
/// Returns the `if_pressed` command exactly on a release-to-press edge
/// and the `if_released` command exactly on a press-to-release edge, in
/// both cases only when that command is set and non-empty; on a repeated
/// level it returns nothing and leaves the latch as it was.
pub fn run_button_press<'a>(
    previously_pressed: &mut bool,
    currently_pressed: bool,
    if_pressed: Option<&'a str>,
    if_released: Option<&'a str>,
) -> (r: Option<&'a str>)
    ensures
        *final(previously_pressed) == currently_pressed,
        opt_cmd_view(r) == spec_edge_command(
            *old(previously_pressed),
            currently_pressed,
            opt_cmd_view(if_pressed),
            opt_cmd_view(if_released),
        ),
{
    if *previously_pressed == currently_pressed {
        return None;
    }
    *previously_pressed = currently_pressed;
    let chosen = if currently_pressed {
        if_pressed
    } else {
        if_released
    };
    match chosen {
        Some(cmd) => {
            if cmd.unicode_len() > 0 {
                Some(cmd)
            } else {
                None
            }
        },
        None => None,
    }
}

/// The idempotence law: an edge step always leaves the latch equal to the
/// level it saw, so feeding the same level again dispatches nothing — two
/// identical reports produce at most one command.
pub proof fn lemma_edge_idempotent(
    currently_pressed: bool,
    if_pressed: Option<Seq<char>>,
    if_released: Option<Seq<char>>,
)
    ensures
        spec_edge_command(currently_pressed, currently_pressed, if_pressed, if_released) is None,
{
}

} // verus!
