use stateful_split_screen::commands::Command;
use stateful_split_screen::data::command_message;
use stateful_split_screen::errors::GenericError;
use stateful_split_screen::geometry::{
    inner_size, left_rect, outer_geometry, right_rect, select_work_area, Dimensions, FrameExtents,
};
use stateful_split_screen::socket::socket_path_for;

#[test]
fn command_tags_round_trip() {
    let all = [
        (Command::Restore, "restore"),
        (Command::SplitLeft, "splitleft"),
        (Command::SplitRight, "splitright"),
        (Command::Maximize, "maximize"),
        (Command::Save, "save"),
        (Command::Restart, "restart"),
        (Command::Quit, "quit"),
    ];
    for (cmd, tag) in all {
        assert_eq!(cmd.tag(), tag);
        assert_eq!(Command::from_tag(tag), Some(cmd));
    }
    assert_eq!(Command::from_tag("fullscreen"), None);
    assert_eq!(Command::from_tag(""), None);
}

#[test]
fn command_message_carries_the_tag() {
    let m = command_message(Command::SplitRight);
    assert_eq!(m.get("command"), Some("splitright"));
}

#[test]
fn half_rectangles() {
    let work = Dimensions { x: 0, y: 0, width: 1920, height: 1080 };
    assert_eq!(left_rect(work), Dimensions { x: 0, y: 0, width: 960, height: 1080 });
    assert_eq!(right_rect(work), Dimensions { x: 960, y: 0, width: 960, height: 1080 });

    // The known limitation, pinned: the left half honors the work area's
    // origin, the right half's x origin is the bare half-width.
    let offset = Dimensions { x: 200, y: 30, width: 1000, height: 500 };
    assert_eq!(left_rect(offset), Dimensions { x: 200, y: 30, width: 500, height: 500 });
    assert_eq!(right_rect(offset), Dimensions { x: 500, y: 30, width: 500, height: 500 });

    let odd = Dimensions { x: 0, y: 0, width: 1919, height: 1080 };
    assert_eq!(left_rect(odd).width, 959);

    // The widest possible work area still halves into i16 range.
    let widest = Dimensions { x: 0, y: 0, width: 65535, height: 65535 };
    assert_eq!(
        right_rect(widest),
        Dimensions { x: 32767, y: 0, width: 32767, height: 65535 }
    );
}

#[test]
fn frame_extent_arithmetic() {
    let ext = FrameExtents { left: 1, right: 2, top: 3, bottom: 4 };
    let outer = outer_geometry(10, 20, 100, 200, ext);
    assert_eq!(outer, Dimensions { x: 8, y: 14, width: 103, height: 207 });
    assert_eq!(inner_size(103, 207, ext), (100, 200));

    let none = FrameExtents { left: 0, right: 0, top: 0, bottom: 0 };
    assert_eq!(
        outer_geometry(-5, -6, 70, 80, none),
        Dimensions { x: -5, y: -6, width: 70, height: 80 }
    );
}

#[test]
fn work_area_selection() {
    let areas = vec![
        Dimensions { x: 0, y: 0, width: 1920, height: 1080 },
        Dimensions { x: 0, y: 0, width: 1280, height: 1024 },
    ];
    assert_eq!(select_work_area(&areas, 1).unwrap(), areas[1]);
    let err = select_work_area(&areas, 2).unwrap_err();
    assert_eq!(err.message(), "couldn't find work area for screen");
}

#[test]
fn socket_path_prefers_cache_directory() {
    let cache = Some(String::from("/home/u/.cache"));
    let home = Some(String::from("/home/u"));
    assert_eq!(
        socket_path_for(cache, home).unwrap(),
        "/home/u/.cache/sss_socket"
    );
}

#[test]
fn socket_path_falls_back_to_home_directory() {
    let home = Some(String::from("/home/u"));
    assert_eq!(socket_path_for(None, home).unwrap(), "/home/u/.sss_socket");
}

#[test]
fn socket_path_requires_some_directory() {
    let err = socket_path_for(None, None).unwrap_err();
    assert_eq!(err.message(), "getting cache or home directory");
}

#[test]
fn generic_error_keeps_its_description() {
    let e = GenericError::new("window not tracked");
    assert_eq!(e.message(), "window not tracked");
}
