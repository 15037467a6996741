use vstd::prelude::*;

use crate::commands::Command;
use crate::errors::GenericError;
use crate::geometry::{left_rect, right_rect, spec_left_rect, spec_right_rect, Dimensions};
use crate::store::{Properties, State, StateStore};

verus! {

/// What the dispatcher asks the windowing system to do after a transition.
#[derive(Clone, Copy, Debug, PartialEq, Eq, Structural)]
pub enum GeometryAction {
    /// Clear the maximize hint, then move and resize the window to exactly
    /// these outer dimensions.
    MoveResize(Dimensions),
    /// Set the window-manager maximize hint; no explicit move or resize —
    /// the window manager itself picks the maximized geometry.
    Maximize,
}

/// The error a command that needs a tracked window fails with when the
/// window has no entry.
pub open spec fn untracked_message() -> Seq<char> {
    "window not tracked"@
}

/// The error a command the dispatcher does not handle fails with.
pub open spec fn unsupported_message() -> Seq<char> {
    "unsupported command"@
}

/// Step 1, the baseline refresh: an untracked window, or one stored as
/// Windowed, has its entry reset to its live geometry, so the restore
/// target is always the most recent free-floating geometry.
pub open spec fn spec_refreshed(prior: Option<Properties>, current: Dimensions) -> Properties {
    match prior {
        None => Properties { state: State::Windowed, dimensions: current },
        Some(p) => if p.state is Windowed {
            Properties { state: State::Windowed, dimensions: current }
        } else {
            p
        },
    }
}

/// Step 2, drift detection: a window stored as pinned to a half of the work
/// area whose live geometry is no longer the computed half rectangle was
/// resized out of band; it is demoted to Windowed, with the drifted
/// geometry as its new restore target.
pub open spec fn spec_drift_checked(p: Properties, current: Dimensions, work: Dimensions) -> Properties {
    if p.state is SplitLeft && current != spec_left_rect(work) {
        Properties { state: State::Windowed, dimensions: current }
    } else if p.state is SplitRight && current != spec_right_rect(work) {
        Properties { state: State::Windowed, dimensions: current }
    } else {
        p
    }
}

/// The working entry that a command other than Save executes against: the
/// prior entry after baseline refresh and drift detection.
pub open spec fn spec_working(prior: Option<Properties>, current: Dimensions, work: Dimensions) -> Properties {
    spec_drift_checked(spec_refreshed(prior, current), current, work)
}

/// The whole transition: what a command run against a window with the given
/// prior entry, live geometry and work area stores for it afterwards, and
/// which geometry action it issues. A pure function of those four inputs
/// and nothing else.
///
/// Restore and Maximize need the window to be tracked already and fail
/// otherwise, leaving the store unchanged — Maximize must not silently
/// create an entry. Restore after a drift targets the re-baselined, drifted
/// geometry (so the move it issues keeps the window where the user put it),
/// not the pre-drift restore target; a test pins that choice. Restart and
/// Quit belong to the event loop, not the dispatcher, and fail here.
pub open spec fn spec_process(
    prior: Option<Properties>,
    current: Dimensions,
    work: Dimensions,
    cmd: Command,
) -> Result<(Properties, Option<GeometryAction>), Seq<char>> {
    let w = spec_working(prior, current, work);
    match cmd {
        Command::Restore => if prior is None {
            Err(untracked_message())
        } else {
            Ok(
                (
                    Properties { state: State::Windowed, dimensions: w.dimensions },
                    Some(GeometryAction::MoveResize(w.dimensions)),
                ),
            )
        },
        Command::SplitLeft => Ok(
            (
                Properties { state: State::SplitLeft, dimensions: w.dimensions },
                Some(GeometryAction::MoveResize(spec_left_rect(work))),
            ),
        ),
        Command::SplitRight => Ok(
            (
                Properties { state: State::SplitRight, dimensions: w.dimensions },
                Some(GeometryAction::MoveResize(spec_right_rect(work))),
            ),
        ),
        Command::Maximize => if prior is None {
            Err(untracked_message())
        } else {
            Ok(
                (
                    Properties { state: State::Maximized, dimensions: w.dimensions },
                    Some(GeometryAction::Maximize),
                ),
            )
        },
        Command::Save => Ok(
            (Properties { state: State::Windowed, dimensions: current }, None),
        ),
        Command::Restart => Err(unsupported_message()),
        Command::Quit => Err(unsupported_message()),
    }
}

/// The dispatcher's transition, executably: exactly `spec_process` on its
/// arguments.
pub fn process(prior: Option<Properties>, current: Dimensions, work: Dimensions, cmd: Command) -> (r:
    Result<(Properties, Option<GeometryAction>), GenericError>)
    ensures
        match spec_process(prior, current, work, cmd) {
            Ok(pa) => r matches Ok(x) && x == pa,
            Err(m) => r matches Err(e) && e@ == m,
        },
{
    let refreshed = match prior {
        None => Properties { state: State::Windowed, dimensions: current },
        Some(p) => if p.state == State::Windowed {
            Properties { state: State::Windowed, dimensions: current }
        } else {
            p
        },
    };
    let working = if refreshed.state == State::SplitLeft && current != left_rect(work) {
        Properties { state: State::Windowed, dimensions: current }
    } else if refreshed.state == State::SplitRight && current != right_rect(work) {
        Properties { state: State::Windowed, dimensions: current }
    } else {
        refreshed
    };
    match cmd {
        Command::Restore => if prior.is_none() {
            Err(GenericError::new("window not tracked"))
        } else {
            Ok(
                (
                    Properties { state: State::Windowed, dimensions: working.dimensions },
                    Some(GeometryAction::MoveResize(working.dimensions)),
                ),
            )
        },
        Command::SplitLeft => Ok(
            (
                Properties { state: State::SplitLeft, dimensions: working.dimensions },
                Some(GeometryAction::MoveResize(left_rect(work))),
            ),
        ),
        Command::SplitRight => Ok(
            (
                Properties { state: State::SplitRight, dimensions: working.dimensions },
                Some(GeometryAction::MoveResize(right_rect(work))),
            ),
        ),
        Command::Maximize => if prior.is_none() {
            Err(GenericError::new("window not tracked"))
        } else {
            Ok(
                (
                    Properties { state: State::Maximized, dimensions: working.dimensions },
                    Some(GeometryAction::Maximize),
                ),
            )
        },
        Command::Save => Ok(
            (Properties { state: State::Windowed, dimensions: current }, None),
        ),
        Command::Restart => Err(GenericError::new("unsupported command")),
        Command::Quit => Err(GenericError::new("unsupported command")),
    }
}

/// Runs one command against the store for the active window: on success the
/// window's entry becomes what `spec_process` says and the issued action is
/// returned; on failure the store is left exactly as it was. Entries of
/// other windows are never touched either way.
pub fn do_single_command(
    window_properties: &mut StateStore,
    active_window: u32,
    current: Dimensions,
    work: Dimensions,
    cmd: Command,
) -> (r: Result<Option<GeometryAction>, GenericError>)
    ensures
        ({
            let prior = if old(window_properties)@.contains_key(active_window) {
                Some(old(window_properties)@[active_window])
            } else {
                None::<Properties>
            };
            match spec_process(prior, current, work, cmd) {
                Ok(pa) => {
                    &&& r matches Ok(a) && a == pa.1
                    &&& final(window_properties)@ == old(window_properties)@.insert(
                        active_window,
                        pa.0,
                    )
                },
                Err(m) => {
                    &&& r matches Err(e) && e@ == m
                    &&& final(window_properties)@ == old(window_properties)@
                },
            }
        }),
{
    let prior = window_properties.lookup(active_window);
    match process(prior, current, work, cmd) {
        Ok((props, action)) => {
            window_properties.upsert(active_window, props);
            Ok(action)
        },
        Err(e) => Err(e),
    }
}

/// Demotes the window's entry to Windowed at its live geometry when it is
/// stored in the given state but its live geometry is not the rectangle
/// that state calls for: the drift check for a single state, as one store
/// update.
pub fn conditionally_store_dimensions(
    active_window: u32,
    window_properties: &mut StateStore,
    current_dimensions: Dimensions,
    correct_dimensions: Dimensions,
    state: State,
)
    ensures
        final(window_properties)@ == if old(window_properties)@.contains_key(active_window)
            && old(window_properties)@[active_window].state == state && current_dimensions
            != correct_dimensions {
            old(window_properties)@.insert(
                active_window,
                Properties { state: State::Windowed, dimensions: current_dimensions },
            )
        } else {
            old(window_properties)@
        },
{
    match window_properties.lookup(active_window) {
        Some(prop) => {
            if prop.state == state && current_dimensions != correct_dimensions {
                window_properties.upsert(
                    active_window,
                    Properties { state: State::Windowed, dimensions: current_dimensions },
                );
            }
        },
        None => {},
    }
}

/// Law: saving a window and immediately restoring it (its geometry still
/// what it was at save time) moves it to exactly the geometry recorded at
/// save time, and the entries of all other windows are left as they were.
pub proof fn lemma_save_then_restore(
    entries: Map<u32, Properties>,
    w: u32,
    g: Dimensions,
    work: Dimensions,
)
    ensures
        ({
            let prior = if entries.contains_key(w) {
                Some(entries[w])
            } else {
                None::<Properties>
            };
            &&& spec_process(prior, g, work, Command::Save) matches Ok(sp) && {
                let after_save = entries.insert(w, sp.0);
                let restored = spec_process(Some(sp.0), g, work, Command::Restore);
                &&& sp.1 is None
                &&& restored matches Ok(rp) && {
                    let after_restore = after_save.insert(w, rp.0);
                    &&& rp.1 == Some(GeometryAction::MoveResize(g))
                    &&& rp.0 == (Properties { state: State::Windowed, dimensions: g })
                    &&& forall|v: u32|
                        v != w ==> after_restore.contains_key(v) == entries.contains_key(v)
                    &&& forall|v: u32|
                        v != w && entries.contains_key(v) ==> after_restore[v] == entries[v]
                }
            }
        }),
{
}

/// Law: a window stored as pinned to a half of the work area whose live
/// geometry has drifted from the computed half rectangle is demoted to
/// Windowed, with the drifted geometry as its new restore target, before
/// any command executes against it.
pub proof fn lemma_drift_demotes(p: Properties, current: Dimensions, work: Dimensions)
    requires
        (p.state is SplitLeft && current != spec_left_rect(work)) || (p.state is SplitRight
            && current != spec_right_rect(work)),
    ensures
        spec_working(Some(p), current, work) == (Properties {
            state: State::Windowed,
            dimensions: current,
        }),
{
}

} // verus!
