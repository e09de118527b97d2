use whydotool::backend::{PointerMessage, VirtualPointer, WaylandPointer};
use whydotool::output::{OutputEvent, Outputs};

fn display(outputs: &mut Outputs, id: u32, x: i32, y: i32, w: i32, h: i32) {
    outputs.add(id);
    outputs.handle_event(id, OutputEvent::Geometry { x, y });
    outputs.handle_event(id, OutputEvent::Mode { width: w, height: h });
}

fn two_displays() -> Outputs {
    let mut outputs = Outputs::new();
    display(&mut outputs, 1, 0, 0, 1920, 1080);
    display(&mut outputs, 2, 1920, 0, 1920, 1080);
    outputs
}

#[test]
fn no_display_has_zero_extent() {
    assert_eq!(Outputs::new().dimensions(), (0, 0));
}

#[test]
fn two_side_by_side_displays_extent() {
    assert_eq!(two_displays().dimensions(), (3840, 1080));
}

#[test]
fn native_absolute_motion_uses_whole_extent() {
    let pointer = VirtualPointer::Wayland(WaylandPointer::new(two_displays()));
    assert_eq!(
        pointer.motion_absolute(3840, 1080),
        PointerMessage::NativeMotionAbsolute { x: 3840, y: 1080, x_extent: 3840, y_extent: 1080 }
    );
}

#[test]
fn adding_a_display_never_shrinks_extent() {
    let mut outputs = two_displays();
    let before = outputs.dimensions();
    display(&mut outputs, 3, 10, 10, 100, 100);
    assert_eq!(outputs.dimensions(), before);
    display(&mut outputs, 4, 0, 1080, 1280, 1024);
    assert_eq!(outputs.dimensions(), (3840, 2104));
}

#[test]
fn repeated_geometry_keeps_extent() {
    let mut outputs = two_displays();
    outputs.handle_event(2, OutputEvent::Geometry { x: 1920, y: 0 });
    outputs.handle_event(2, OutputEvent::Mode { width: 1920, height: 1080 });
    outputs.handle_event(2, OutputEvent::Name("DP-2".to_string()));
    assert_eq!(outputs.dimensions(), (3840, 1080));
}

#[test]
fn event_for_unknown_display_is_ignored() {
    let mut outputs = two_displays();
    outputs.handle_event(9, OutputEvent::Mode { width: 10000, height: 10000 });
    assert_eq!(outputs.dimensions(), (3840, 1080));
    assert_eq!(outputs.len(), 2);
}

#[test]
fn displays_left_of_origin_do_not_lower_extent() {
    let mut outputs = Outputs::new();
    display(&mut outputs, 1, -1920, -100, 1920, 1080);
    assert_eq!(outputs.dimensions(), (0, 980));
}

#[test]
fn largest_geometry_fits() {
    let mut outputs = Outputs::new();
    display(&mut outputs, 1, i32::MAX, i32::MAX, i32::MAX, i32::MAX);
    assert_eq!(outputs.dimensions(), (u32::MAX - 1, u32::MAX - 1));
}
