use demo_core::paint::{Brush, Controller, MouseButtons, Screen, Stroke};

fn buttons(pressed: bool, down: bool, released: bool) -> MouseButtons {
    MouseButtons { pressed, down, released }
}

fn flags(screen: &Screen<(i32, i32)>) -> Vec<bool> {
    screen.history.iter().map(|s| s.connected).collect()
}

#[test]
fn new_canvas_is_blank() {
    let screen: Screen<u8> = Screen::new();
    assert!(screen.history.is_empty());
    assert!(!screen.last_was_connected);
}

#[test]
fn add_stroke_appends() {
    let mut screen = Screen::new();
    screen.add_stroke((1, 2), false);
    screen.add_stroke((3, 4), true);
    assert_eq!(
        screen.history,
        vec![Stroke { stamp: (1, 2), connected: false }, Stroke { stamp: (3, 4), connected: true }]
    );
    assert!(screen.last_was_connected);
    screen.add_stroke((5, 6), false);
    assert_eq!(screen.history.len(), 3);
    assert!(!screen.last_was_connected);
}

#[test]
fn clear_wipes_everything() {
    let mut screen = Screen::new();
    screen.add_stroke((1, 2), true);
    screen.clear();
    assert!(screen.history.is_empty());
    assert!(!screen.last_was_connected);
    screen.clear();
    assert!(screen.history.is_empty());
}

#[test]
fn first_stamp_is_never_joined() {
    let mut screen = Screen::new();
    screen.add_stroke((0, 0), true);
    screen.add_stroke((1, 1), true);
    screen.add_stroke((2, 2), false);
    assert!(!screen.joins_previous(0));
    assert!(screen.joins_previous(1));
    assert!(!screen.joins_previous(2));
    assert!(!screen.joins_previous(3));
    assert!(!screen.joins_previous(usize::MAX));
}

#[test]
fn press_stamps_twice_and_starts_drawing() {
    let mut screen = Screen::new();
    let mut brush = Brush::new((0, 0));
    assert!(!brush.drawing);
    brush.update(&mut screen, (5, 5), &buttons(true, true, false));
    assert!(brush.drawing);
    assert_eq!(brush.tip, (5, 5));
    assert_eq!(
        screen.history,
        vec![Stroke { stamp: (5, 5), connected: false }, Stroke { stamp: (5, 5), connected: true }]
    );
    assert!(screen.last_was_connected);
}

#[test]
fn drag_adds_connected_stamps() {
    let mut screen = Screen::new();
    let mut brush = Brush::new((0, 0));
    brush.update(&mut screen, (5, 5), &buttons(true, true, false));
    brush.update(&mut screen, (6, 5), &buttons(false, true, false));
    brush.update(&mut screen, (7, 6), &buttons(false, true, false));
    assert_eq!(flags(&screen), vec![false, true, true, true]);
    assert_eq!(screen.history[3].stamp, (7, 6));
    assert!(brush.drawing);
}

#[test]
fn release_stops_drawing() {
    let mut screen = Screen::new();
    let mut brush = Brush::new((0, 0));
    brush.update(&mut screen, (5, 5), &buttons(true, true, false));
    brush.update(&mut screen, (9, 9), &buttons(false, false, true));
    assert!(!brush.drawing);
    assert_eq!(brush.tip, (9, 9));
    assert_eq!(screen.history.len(), 2);
    brush.update(&mut screen, (9, 9), &buttons(false, true, false));
    assert_eq!(screen.history.len(), 2);
    assert!(!brush.drawing);
}

#[test]
fn brush_that_is_not_drawing_leaves_no_mark() {
    let mut screen = Screen::new();
    let mut brush = Brush::new((0, 0));
    brush.update(&mut screen, (1, 1), &buttons(false, true, false));
    brush.update(&mut screen, (2, 2), &buttons(false, false, false));
    assert!(screen.history.is_empty());
    assert!(!screen.last_was_connected);
    assert_eq!(brush.tip, (2, 2));
}

#[test]
fn press_and_release_in_one_frame() {
    let mut screen = Screen::new();
    let mut brush = Brush::new((0, 0));
    brush.update(&mut screen, (1, 1), &buttons(true, false, true));
    assert_eq!(flags(&screen), vec![false]);
    assert!(!screen.last_was_connected);
    assert!(!brush.drawing);
    brush.update(&mut screen, (2, 2), &buttons(true, true, true));
    assert_eq!(flags(&screen), vec![false, false, true]);
    assert!(!brush.drawing);
}

#[test]
fn controller_consults_the_brush_only_while_the_button_is_down() {
    let mut c = Controller::new((0, 0));
    c.update((1, 1), &buttons(false, false, false), false);
    assert_eq!(c.brush.tip, (0, 0));
    c.update((2, 2), &buttons(true, true, false), false);
    assert_eq!(c.brush.tip, (2, 2));
    assert!(c.brush.drawing);
    assert_eq!(c.screen.history.len(), 2);
    c.update((3, 3), &buttons(false, false, true), false);
    assert!(c.brush.drawing);
    assert_eq!(c.brush.tip, (2, 2));
    assert_eq!(c.screen.history.len(), 2);
    c.update((4, 4), &buttons(false, true, false), false);
    assert_eq!(flags(&c.screen), vec![false, true, true]);
}

#[test]
fn controller_clears_after_stamping() {
    let mut c = Controller::new((0, 0));
    c.update((2, 2), &buttons(true, true, false), false);
    c.update((3, 3), &buttons(false, true, false), true);
    assert!(c.screen.history.is_empty());
    assert!(!c.screen.last_was_connected);
    assert!(c.brush.drawing);
    c.update((4, 4), &buttons(false, true, false), false);
    assert_eq!(flags(&c.screen), vec![true]);
    let (stroke, join) = c.stroke(0);
    assert_eq!(stroke.stamp, (4, 4));
    assert!(!join);
}
