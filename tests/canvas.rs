use scribble::canvas::{Canvas, Repaint, BUTTON1_MASK, BUTTON_PRIMARY, BUTTON_SECONDARY};
use scribble::surface::{Color, Surface};

fn pixels(s: &Surface) -> Vec<Vec<Color>> {
    let mut out = Vec::new();
    for row in 0..s.height() {
        let mut line = Vec::new();
        for col in 0..s.width() {
            line.push(s.pixel(col, row).unwrap());
        }
        out.push(line);
    }
    out
}

fn all_white(s: &Surface) -> bool {
    pixels(s).iter().all(|line| line.iter().all(|c| *c == Color::White))
}

fn ready(width: usize, height: usize) -> Canvas {
    let mut c = Canvas::new();
    assert!(c.configure(width, height));
    c
}

#[test]
fn resize_gives_white_surface_of_that_size() {
    for (w, h) in [(0, 0), (3, 0), (0, 4), (1, 1), (7, 5), (200, 150)] {
        let c = ready(w, h);
        let s = c.draw().unwrap();
        assert_eq!(s.width(), w);
        assert_eq!(s.height(), h);
        assert!(all_white(s));
        assert_eq!(s.pixel(w, 0), None);
        assert_eq!(s.pixel(0, h), None);
    }
}

#[test]
fn resize_replaces_painted_surface() {
    let mut c = ready(20, 20);
    c.button_press(BUTTON_PRIMARY, 10, 10);
    assert!(c.configure(30, 12));
    let s = c.draw().unwrap();
    assert_eq!((s.width(), s.height()), (30, 12));
    assert!(all_white(s));
}

#[test]
fn clear_twice_equals_clear_once() {
    let mut s = Surface::new(12, 9);
    s.paint_dot(4, 4);
    s.paint_dot(10, 8);
    s.clear();
    let once = pixels(&s);
    s.clear();
    assert_eq!(pixels(&s), once);
    assert!(all_white(&s));
    assert_eq!((s.width(), s.height()), (12, 9));
}

#[test]
fn dot_covers_its_square_only() {
    let mut s = Surface::new(20, 20);
    s.paint_dot(10, 10);
    for row in 0..20 {
        for col in 0..20 {
            let inside = (7..13).contains(&col) && (7..13).contains(&row);
            let want = if inside { Color::Black } else { Color::White };
            assert_eq!(s.pixel(col, row), Some(want), "pixel ({}, {})", col, row);
        }
    }
}

#[test]
fn dot_at_edge_is_clipped() {
    let mut s = Surface::new(10, 10);
    s.paint_dot(0, 0);
    assert_eq!(s.pixel(0, 0), Some(Color::Black));
    assert_eq!(s.pixel(2, 2), Some(Color::Black));
    assert_eq!(s.pixel(3, 0), Some(Color::White));
    assert_eq!(s.pixel(0, 3), Some(Color::White));
    s.paint_dot(-2, 12);
    assert_eq!(s.pixel(0, 9), Some(Color::Black));
    assert_eq!(s.pixel(1, 9), Some(Color::White));
    s.paint_dot(i32::MIN, i32::MAX);
    s.paint_dot(i32::MAX, i32::MIN);
    assert_eq!(pixels(&s).concat().iter().filter(|c| **c == Color::Black).count(), 9 + 1);
}

#[test]
fn dot_order_does_not_matter() {
    let dots = [(3, 3), (5, 4), (14, 2), (6, 11), (5, 4)];
    let mut forward = ready(16, 13);
    for (x, y) in dots {
        forward.button_press(BUTTON_PRIMARY, x, y);
    }
    let mut backward = ready(16, 13);
    for (x, y) in dots.iter().rev() {
        backward.motion_notify(BUTTON1_MASK, *x, *y);
    }
    let a = pixels(forward.draw().unwrap());
    let b = pixels(backward.draw().unwrap());
    assert_eq!(a, b);
    for row in 0..13i32 {
        for col in 0..16i32 {
            let covered = dots
                .iter()
                .any(|(x, y)| x - 3 <= col && col < x + 3 && y - 3 <= row && row < y + 3);
            let want = if covered { Color::Black } else { Color::White };
            assert_eq!(a[row as usize][col as usize], want);
        }
    }
}

#[test]
fn primary_press_asks_for_dot_area() {
    let mut c = ready(100, 100);
    let r = c.button_press(BUTTON_PRIMARY, 40, 2);
    assert!(r.handled);
    assert_eq!(r.repaint, Repaint::Area { x: 37, y: -1, width: 6, height: 6 });
    let r = c.button_press(BUTTON_PRIMARY, i32::MIN, i32::MAX);
    assert_eq!(
        r.repaint,
        Repaint::Area { x: i32::MIN as i64 - 3, y: i32::MAX as i64 - 3, width: 6, height: 6 }
    );
}

#[test]
fn secondary_press_whitens_everything() {
    let mut c = ready(30, 30);
    for i in 0..10 {
        c.button_press(BUTTON_PRIMARY, i * 3, 29 - i * 3);
    }
    assert!(!all_white(c.draw().unwrap()));
    let r = c.button_press(BUTTON_SECONDARY, 1000, -1000);
    assert!(r.handled);
    assert_eq!(r.repaint, Repaint::Whole);
    let s = c.draw().unwrap();
    assert!(all_white(s));
    assert_eq!((s.width(), s.height()), (30, 30));
}

#[test]
fn other_buttons_change_nothing() {
    let mut c = ready(20, 20);
    c.button_press(BUTTON_PRIMARY, 5, 5);
    let before = pixels(c.draw().unwrap());
    for button in [0, 2, 4, 5, 8] {
        let r = c.button_press(button, 15, 15);
        assert!(r.handled);
        assert_eq!(r.repaint, Repaint::Nothing);
    }
    assert_eq!(pixels(c.draw().unwrap()), before);
}

#[test]
fn motion_paints_only_with_primary_held() {
    let mut c = ready(20, 20);
    let r = c.motion_notify(0, 10, 10);
    assert!(r.handled);
    assert_eq!(r.repaint, Repaint::Nothing);
    let r = c.motion_notify(0x1 | 0x4 | 0x200 | 0x400, 10, 10);
    assert_eq!(r.repaint, Repaint::Nothing);
    assert!(all_white(c.draw().unwrap()));
    let r = c.motion_notify(BUTTON1_MASK | 0x1, 10, 10);
    assert!(r.handled);
    assert_eq!(r.repaint, Repaint::Area { x: 7, y: 7, width: 6, height: 6 });
    assert_eq!(c.draw().unwrap().pixel(10, 10), Some(Color::Black));
}

#[test]
fn events_before_resize_do_nothing() {
    let mut c = Canvas::new();
    assert!(!c.is_ready());
    for button in [BUTTON_PRIMARY, BUTTON_SECONDARY, 2] {
        let r = c.button_press(button, 50, 50);
        assert!(r.handled);
        assert_eq!(r.repaint, Repaint::Nothing);
    }
    let r = c.motion_notify(BUTTON1_MASK, 50, 50);
    assert!(r.handled);
    assert_eq!(r.repaint, Repaint::Nothing);
    assert!(!c.is_ready());
    assert!(c.draw().is_none());
}

#[test]
fn close_releases_surface() {
    let mut c = ready(10, 10);
    assert!(c.is_ready());
    c.close();
    assert!(!c.is_ready());
    assert!(c.draw().is_none());
    let r = c.button_press(BUTTON_PRIMARY, 5, 5);
    assert_eq!(r.repaint, Repaint::Nothing);
    assert!(c.configure(4, 4));
    assert!(all_white(c.draw().unwrap()));
}

#[test]
fn end_to_end_scenario() {
    let mut c = Canvas::new();
    assert!(c.configure(200, 150));
    {
        let s = c.draw().unwrap();
        assert_eq!((s.width(), s.height()), (200, 150));
        assert!(all_white(s));
    }
    c.button_press(BUTTON_PRIMARY, 50, 50);
    {
        let s = c.draw().unwrap();
        assert_eq!(s.pixel(50, 50), Some(Color::Black));
        assert_eq!(s.pixel(0, 0), Some(Color::White));
    }
    c.button_press(BUTTON_SECONDARY, 123, 45);
    assert!(all_white(c.draw().unwrap()));
}
