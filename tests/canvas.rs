use pixel_canvas::canvas::{Canvas, CanvasError};
use pixel_canvas::cli::GraphicsArgs;
use pixel_canvas::colors::Rgb;
use pixel_canvas::commands::{Command, RedScreen};
use pixel_canvas::display::{next_display_action, DisplayAction};

fn canvas(width: usize, height: usize) -> Canvas {
    Canvas::new("Graphics", width, height).unwrap()
}

#[test]
fn new_canvas_is_all_black() {
    let c = canvas(3, 5);
    assert_eq!(c.buffer().len(), 15);
    assert!(c.buffer().iter().all(|&p| p == 0));
    let d = c.dimensions();
    assert_eq!((d.width, d.height), (3, 5));
    assert_eq!(c.title(), "Graphics");
}

#[test]
fn zero_extent_is_rejected() {
    assert!(matches!(Canvas::new("t", 0, 4), Err(CanvasError::InvalidDimensions)));
    assert!(matches!(Canvas::new("t", 4, 0), Err(CanvasError::InvalidDimensions)));
    assert!(matches!(Canvas::new("t", 0, 0), Err(CanvasError::InvalidDimensions)));
}

#[test]
fn packing_puts_red_in_the_high_byte() {
    assert_eq!(Rgb::new(0x12, 0x34, 0x56).packed(), 0x123456);
    assert_eq!(Rgb::new(255, 255, 255).packed(), 0xffffff);
    assert_eq!(Rgb::new(1, 2, 3).packed(), 65536 + 2 * 256 + 3);
}

#[test]
fn clear_sets_every_slot() {
    let mut c = canvas(4, 3);
    c.put_pixel(0, 0, &Rgb::new(9, 9, 9));
    c.clear_canvas(&Rgb::new(1, 2, 3));
    assert_eq!(c.buffer().len(), 12);
    assert!(c.buffer().iter().all(|&p| p == 66051));
}

#[test]
fn clear_twice_equals_clear_once() {
    let color = Rgb::new(10, 20, 30);
    let mut once = canvas(5, 4);
    once.clear_canvas(&color);
    let mut twice = canvas(5, 4);
    twice.clear_canvas(&color);
    twice.clear_canvas(&color);
    assert_eq!(once.buffer(), twice.buffer());
}

#[test]
fn origin_of_four_by_four_is_slot_six() {
    let mut c = canvas(4, 4);
    c.put_pixel(0, 0, &RedScreen::color());
    let mut expected = vec![0u32; 16];
    expected[6] = 0xff0000;
    assert_eq!(c.buffer(), &expected);
}

#[test]
fn corners_of_four_by_four() {
    let mut c = canvas(4, 4);
    c.put_pixel(-2, 1, &Rgb::new(0, 0, 1));
    c.put_pixel(1, 1, &Rgb::new(0, 0, 2));
    c.put_pixel(-2, -2, &Rgb::new(0, 0, 3));
    c.put_pixel(1, -2, &Rgb::new(0, 0, 4));
    assert_eq!(c.buffer()[0], 1);
    assert_eq!(c.buffer()[3], 2);
    assert_eq!(c.buffer()[12], 3);
    assert_eq!(c.buffer()[15], 4);
}

#[test]
fn domain_covers_every_slot_once() {
    let mut c = canvas(4, 6);
    let mut n: u8 = 0;
    for x in -2..=1 {
        for y in -3..=2 {
            n += 1;
            c.put_pixel(x, y, &Rgb::new(0, 0, n));
        }
    }
    let mut seen: Vec<u32> = c.buffer().clone();
    seen.sort();
    let expected: Vec<u32> = (1..=24).collect();
    assert_eq!(seen, expected);
}

#[test]
fn out_of_range_points_are_ignored() {
    let mut c = canvas(4, 4);
    c.clear_canvas(&Rgb::new(7, 7, 7));
    let before = c.buffer().clone();
    let red = Rgb::new(255, 0, 0);
    for (x, y) in [(2, 0), (-3, 0), (0, 2), (0, -3), (i32::MAX, 0), (0, i32::MIN), (i32::MIN, i32::MAX)] {
        c.put_pixel(x, y, &red);
    }
    assert_eq!(c.buffer(), &before);
}

#[test]
fn odd_canvas_follows_the_transform() {
    let mut c = canvas(3, 3);
    c.put_pixel(1, 0, &Rgb::new(0, 0, 5));
    assert_eq!(c.buffer()[2], 5);
    c.put_pixel(-1, -2, &Rgb::new(0, 0, 6));
    assert_eq!(c.buffer()[6], 6);
    c.put_pixel(2, 0, &Rgb::new(0, 0, 7));
    c.put_pixel(0, 1, &Rgb::new(0, 0, 7));
    assert!(!c.buffer().contains(&7));
}

#[test]
fn red_screen_on_default_canvas() {
    let args = GraphicsArgs { name: "red_screen".to_string(), width: None, height: None };
    let (w, h) = (args.canvas_width(), args.canvas_height());
    assert_eq!((w, h), (800, 800));
    let mut c = canvas(w, h);
    RedScreen::draw(&mut c);
    for k in 0..w * h {
        let x = (k % w) as i64 - 400;
        let y = 399 - (k / w) as i64;
        let expected = if x.abs() < 400 && y.abs() < 400 { 0xff0000 } else { 0 };
        assert_eq!(c.buffer()[k], expected, "slot {}", k);
    }
    assert_eq!(c.buffer().iter().filter(|&&p| p == 0xff0000).count(), 799 * 799);
}

#[test]
fn red_screen_keeps_outside_pixels() {
    let mut c = canvas(4, 4);
    c.clear_canvas(&Rgb::new(0, 1, 0));
    RedScreen::draw(&mut c);
    let r = 0xff0000;
    let g = 0x100;
    assert_eq!(c.buffer(), &vec![g, r, r, r, g, r, r, r, g, r, r, r, g, g, g, g]);
}

#[test]
fn explicit_extents_override_defaults() {
    let args = GraphicsArgs { name: "x".to_string(), width: Some(320), height: Some(200) };
    assert_eq!(args.canvas_width(), 320);
    assert_eq!(args.canvas_height(), 200);
}

#[test]
fn command_lookup_is_exact() {
    assert_eq!(Command::from_name("red_screen"), Some(Command::RedScreen));
    assert_eq!(Command::from_name("red"), None);
    assert_eq!(Command::from_name("Red_screen"), None);
    assert_eq!(Command::from_name(""), None);
}

#[test]
fn display_loop_decisions() {
    assert_eq!(next_display_action(true, false), DisplayAction::Present);
    assert_eq!(next_display_action(true, true), DisplayAction::Exit);
    assert_eq!(next_display_action(false, false), DisplayAction::Exit);
    assert_eq!(next_display_action(false, true), DisplayAction::Exit);
}
