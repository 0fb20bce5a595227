use audio_viz::surface::DrawCmd;
use audio_viz::surface::Surface;

#[test]
fn fresh_surface_is_black() {
    let s = Surface::new();
    assert_eq!(s.background_color(), 0);
    assert_eq!(s.command_count(), 0);
    assert_eq!(s.pixel(0, 0), 0);
    assert_eq!(s.pixel(479, 271), 0);
}

#[test]
fn clear_fills_with_background() {
    let mut s = Surface::new();
    s.set_background(0xF800);
    s.clear();
    assert_eq!(s.pixel(0, 0), 0xF800);
    assert_eq!(s.pixel(239, 135), 0xF800);
    assert_eq!(s.pixel(479, 271), 0xF800);
    assert_eq!(s.command_count(), 2);
    assert_eq!(s.command_at(0), DrawCmd::SetBackground { color: 0xF800 });
    assert_eq!(s.command_at(1), DrawCmd::Clear);
}

#[test]
fn clear_twice_equals_clear_once() {
    let mut once = Surface::new();
    once.set_background(0x07E0);
    once.fill_circle(100, 100, 20, 0xFFFF);
    once.clear();
    let mut twice = Surface::new();
    twice.set_background(0x07E0);
    twice.fill_circle(100, 100, 20, 0xFFFF);
    twice.clear();
    twice.clear();
    for y in 0u16..272 {
        for x in 0u16..480 {
            assert_eq!(once.pixel(x, y), twice.pixel(x, y));
        }
    }
    assert_eq!(once.background_color(), twice.background_color());
}

#[test]
fn fill_circle_zero_radius_draws_nothing() {
    let mut s = Surface::new();
    s.set_background(0x001F);
    s.clear();
    s.fill_circle(240, 131, 0, 0xFFFF);
    for y in 0u16..272 {
        for x in 0u16..480 {
            assert_eq!(s.pixel(x, y), 0x001F);
        }
    }
    assert_eq!(s.command_count(), 3);
    assert_eq!(s.command_at(2), DrawCmd::FillCircle { x: 240, y: 131, radius: 0, color: 0xFFFF });
}

#[test]
fn fill_circle_covers_exactly_the_disc() {
    let mut s = Surface::new();
    s.fill_circle(100, 100, 10, 0xFFFF);
    assert_eq!(s.pixel(100, 100), 0xFFFF);
    assert_eq!(s.pixel(110, 100), 0xFFFF);
    assert_eq!(s.pixel(111, 100), 0);
    assert_eq!(s.pixel(100, 90), 0xFFFF);
    assert_eq!(s.pixel(107, 107), 0xFFFF);
    assert_eq!(s.pixel(108, 108), 0);
}

#[test]
fn signed_bar_direction_follows_sign() {
    let mut s = Surface::new();
    s.draw_signed_bar(1280, 0, 40, 272, 0xF800);
    assert_eq!(s.pixel(0, 271), 0xF800);
    assert_eq!(s.pixel(39, 262), 0xF800);
    assert_eq!(s.pixel(0, 261), 0);
    assert_eq!(s.pixel(40, 271), 0);
    s.draw_signed_bar(-1280, 100, 10, 136, 0x07E0);
    assert_eq!(s.pixel(100, 136), 0x07E0);
    assert_eq!(s.pixel(109, 145), 0x07E0);
    assert_eq!(s.pixel(100, 146), 0);
    assert_eq!(s.pixel(100, 135), 0);
    assert_eq!(s.command_count(), 2);
    assert_eq!(
        s.command_at(0),
        DrawCmd::SignedBar { value: 1280, x: 0, width: 40, baseline: 272, color: 0xF800 },
    );
}

#[test]
fn largest_magnitude_bar_stays_on_screen() {
    let mut s = Surface::new();
    s.draw_signed_bar(i16::MIN, 0, 4, 136, 0xFFFF);
    assert_eq!(s.pixel(0, 136), 0xFFFF);
    assert_eq!(s.pixel(0, 271), 0xFFFF);
    assert_eq!(s.pixel(0, 135), 0);
    s.draw_signed_bar(i16::MAX, 10, 4, 272, 0x07E0);
    assert_eq!(s.pixel(10, 271), 0x07E0);
    assert_eq!(s.pixel(10, 17), 0x07E0);
    assert_eq!(s.pixel(10, 16), 0);
}
