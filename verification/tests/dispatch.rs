use stateful_split_screen::commands::Command;
use stateful_split_screen::dispatch::{
    conditionally_store_dimensions, do_single_command, process, GeometryAction,
};
use stateful_split_screen::geometry::Dimensions;
use stateful_split_screen::store::{Properties, State, StateStore};

fn dims(x: i16, y: i16, width: u16, height: u16) -> Dimensions {
    Dimensions { x, y, width, height }
}

#[test]
fn splitleft_tracks_and_resizes() {
    // Work area (0,0,1920,1080), untracked window at (100,100,800,600):
    // SplitLeft stores the free-floating geometry as the restore target and
    // issues a resize to the left half.
    let work = dims(0, 0, 1920, 1080);
    let current = dims(100, 100, 800, 600);
    let mut store = StateStore::new();
    let action = do_single_command(&mut store, 7, current, work, Command::SplitLeft).unwrap();
    assert_eq!(action, Some(GeometryAction::MoveResize(dims(0, 0, 960, 1080))));
    assert_eq!(
        store.lookup(7),
        Some(Properties { state: State::SplitLeft, dimensions: current })
    );
}

#[test]
fn restore_after_drift_rebaselines() {
    // Continuing from the split: the window is resized out of band, then
    // restored. The pinned interpretation: the drifted geometry becomes the
    // new Windowed baseline, and the issued move targets it (so the window
    // stays where the user put it), not the pre-drift restore target.
    let work = dims(0, 0, 1920, 1080);
    let current = dims(100, 100, 800, 600);
    let mut store = StateStore::new();
    do_single_command(&mut store, 7, current, work, Command::SplitLeft).unwrap();
    let drifted = dims(0, 0, 500, 1080);
    let action = do_single_command(&mut store, 7, drifted, work, Command::Restore).unwrap();
    assert_eq!(action, Some(GeometryAction::MoveResize(drifted)));
    assert_eq!(
        store.lookup(7),
        Some(Properties { state: State::Windowed, dimensions: drifted })
    );
}

#[test]
fn maximize_untracked_fails() {
    // Maximize on an untracked window fails rather than silently creating
    // an entry.
    let work = dims(0, 0, 1920, 1080);
    let current = dims(100, 100, 800, 600);
    let mut store = StateStore::new();
    let err = do_single_command(&mut store, 7, current, work, Command::Maximize).unwrap_err();
    assert_eq!(err.message(), "window not tracked");
    assert_eq!(store.len(), 0);
    assert_eq!(store.lookup(7), None);
}

#[test]
fn restore_untracked_fails() {
    let work = dims(0, 0, 1920, 1080);
    let mut store = StateStore::new();
    let err =
        do_single_command(&mut store, 7, dims(1, 2, 3, 4), work, Command::Restore).unwrap_err();
    assert_eq!(err.message(), "window not tracked");
    assert_eq!(store.len(), 0);
}

#[test]
fn save_then_restore_round_trips() {
    // Save followed immediately by Restore moves the window to exactly the
    // geometry recorded at save time, and no other entry changes.
    let work = dims(0, 0, 1920, 1080);
    let other = dims(5, 5, 50, 50);
    let mut store = StateStore::new();
    do_single_command(&mut store, 9, other, work, Command::Save).unwrap();
    let g = dims(300, 200, 640, 480);
    let saved = do_single_command(&mut store, 7, g, work, Command::Save).unwrap();
    assert_eq!(saved, None);
    let action = do_single_command(&mut store, 7, g, work, Command::Restore).unwrap();
    assert_eq!(action, Some(GeometryAction::MoveResize(g)));
    assert_eq!(
        store.lookup(7),
        Some(Properties { state: State::Windowed, dimensions: g })
    );
    assert_eq!(
        store.lookup(9),
        Some(Properties { state: State::Windowed, dimensions: other })
    );
    assert_eq!(store.len(), 2);
}

#[test]
fn split_then_restore_returns_to_saved_geometry() {
    // The main restore path: split without drift, then restore to the
    // geometry the window had when it was last free-floating.
    let work = dims(0, 0, 1920, 1080);
    let free = dims(100, 100, 800, 600);
    let mut store = StateStore::new();
    do_single_command(&mut store, 7, free, work, Command::SplitLeft).unwrap();
    let at_left = dims(0, 0, 960, 1080);
    let action = do_single_command(&mut store, 7, at_left, work, Command::Restore).unwrap();
    assert_eq!(action, Some(GeometryAction::MoveResize(free)));
    assert_eq!(
        store.lookup(7),
        Some(Properties { state: State::Windowed, dimensions: free })
    );
}

#[test]
fn splitright_ignores_work_area_origin() {
    // The right half's x origin is the bare half-width, not offset by the
    // work area's own origin: the known multi-head limitation, pinned.
    let work = dims(200, 30, 1000, 500);
    let current = dims(210, 40, 300, 300);
    let mut store = StateStore::new();
    let action = do_single_command(&mut store, 7, current, work, Command::SplitRight).unwrap();
    assert_eq!(action, Some(GeometryAction::MoveResize(dims(500, 30, 500, 500))));
    assert_eq!(
        store.lookup(7),
        Some(Properties { state: State::SplitRight, dimensions: current })
    );
}

#[test]
fn odd_work_area_width_halves_down() {
    let work = dims(0, 0, 1919, 1080);
    let current = dims(1, 2, 3, 4);
    let mut store = StateStore::new();
    let action = do_single_command(&mut store, 7, current, work, Command::SplitLeft).unwrap();
    assert_eq!(action, Some(GeometryAction::MoveResize(dims(0, 0, 959, 1080))));
}

#[test]
fn maximize_tracked_keeps_restore_target() {
    let work = dims(0, 0, 1920, 1080);
    let free = dims(100, 100, 800, 600);
    let mut store = StateStore::new();
    do_single_command(&mut store, 7, free, work, Command::SplitLeft).unwrap();
    let at_left = dims(0, 0, 960, 1080);
    let action = do_single_command(&mut store, 7, at_left, work, Command::Maximize).unwrap();
    assert_eq!(action, Some(GeometryAction::Maximize));
    assert_eq!(
        store.lookup(7),
        Some(Properties { state: State::Maximized, dimensions: free })
    );
}

#[test]
fn drift_rebaselines_before_new_split() {
    // A drifted left-pinned window hit by SplitRight: the drifted geometry
    // becomes the restore target of the new split entry.
    let work = dims(0, 0, 1920, 1080);
    let free = dims(100, 100, 800, 600);
    let mut store = StateStore::new();
    do_single_command(&mut store, 7, free, work, Command::SplitLeft).unwrap();
    let drifted = dims(10, 10, 700, 700);
    let action = do_single_command(&mut store, 7, drifted, work, Command::SplitRight).unwrap();
    assert_eq!(action, Some(GeometryAction::MoveResize(dims(960, 0, 960, 1080))));
    assert_eq!(
        store.lookup(7),
        Some(Properties { state: State::SplitRight, dimensions: drifted })
    );
}

#[test]
fn save_overwrites_split_entry() {
    let work = dims(0, 0, 1920, 1080);
    let free = dims(100, 100, 800, 600);
    let mut store = StateStore::new();
    do_single_command(&mut store, 7, free, work, Command::SplitLeft).unwrap();
    let at_left = dims(0, 0, 960, 1080);
    let action = do_single_command(&mut store, 7, at_left, work, Command::Save).unwrap();
    assert_eq!(action, None);
    assert_eq!(
        store.lookup(7),
        Some(Properties { state: State::Windowed, dimensions: at_left })
    );
}

#[test]
fn restart_and_quit_are_not_dispatched() {
    let work = dims(0, 0, 1920, 1080);
    let g = dims(1, 2, 3, 4);
    let mut store = StateStore::new();
    do_single_command(&mut store, 7, g, work, Command::Save).unwrap();
    for cmd in [Command::Restart, Command::Quit] {
        let err = do_single_command(&mut store, 7, g, work, cmd).unwrap_err();
        assert_eq!(err.message(), "unsupported command");
        assert_eq!(
            store.lookup(7),
            Some(Properties { state: State::Windowed, dimensions: g })
        );
        assert_eq!(store.len(), 1);
    }
}

#[test]
fn process_is_a_pure_transition() {
    // The transition is a function of (prior entry, live geometry, work
    // area, command) alone: calling it twice on the same inputs gives the
    // same result, without any store.
    let work = dims(0, 0, 1920, 1080);
    let prior = Some(Properties { state: State::SplitLeft, dimensions: dims(9, 9, 99, 99) });
    let current = dims(0, 0, 960, 1080);
    let first = process(prior, current, work, Command::Restore).unwrap();
    let second = process(prior, current, work, Command::Restore).unwrap();
    assert_eq!(first, second);
    assert_eq!(
        first.0,
        Properties { state: State::Windowed, dimensions: dims(9, 9, 99, 99) }
    );
    assert_eq!(first.1, Some(GeometryAction::MoveResize(dims(9, 9, 99, 99))));
}

#[test]
fn conditional_store_demotes_only_on_drift() {
    let mut store = StateStore::new();
    let stored = Properties { state: State::SplitLeft, dimensions: dims(1, 1, 10, 10) };
    store.upsert(7, stored);
    let correct = dims(0, 0, 960, 1080);

    // Geometry still correct: nothing changes.
    conditionally_store_dimensions(7, &mut store, correct, correct, State::SplitLeft);
    assert_eq!(store.lookup(7), Some(stored));

    // Stored state differs from the probed one: nothing changes.
    let drifted = dims(2, 2, 20, 20);
    conditionally_store_dimensions(7, &mut store, drifted, correct, State::SplitRight);
    assert_eq!(store.lookup(7), Some(stored));

    // Stored as the probed state and drifted: demoted to Windowed at the
    // drifted geometry.
    conditionally_store_dimensions(7, &mut store, drifted, correct, State::SplitLeft);
    assert_eq!(
        store.lookup(7),
        Some(Properties { state: State::Windowed, dimensions: drifted })
    );
}
