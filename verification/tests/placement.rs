use cpu_monitor::geometry::alert_position;
use cpu_monitor::geometry::estimate_tray_anchor;
use cpu_monitor::geometry::place;

#[test]
fn place_clamps_to_the_right_edge() {
    // Anchor too far right for a 420-wide popup on a 1920-wide screen:
    // x falls back to 1920 - 420 - 8 and y sits just under the menu bar.
    let (x, y) = place(1920, 1080, 420, 600, Some((1870, 12)));
    assert_eq!(x, 1492);
    assert_eq!(y, 32);
}

#[test]
fn place_left_aligns_when_the_popup_fits() {
    let (x, y) = place(1920, 1080, 420, 600, Some((100, 12)));
    assert_eq!(x, 100);
    assert_eq!(y, 32);
}

#[test]
fn place_uses_the_fallback_anchor() {
    // Without an anchor the estimate is 50 pixels from the right edge,
    // which never leaves room for the popup, so it is edge-aligned.
    let (x, y) = place(1920, 1080, 420, 600, None);
    assert_eq!(x, 1492);
    assert_eq!(y, 32);
}

#[test]
fn place_raises_a_far_left_anchor_to_the_margin() {
    let (x, _) = place(1920, 1080, 420, 600, Some((-500, 12)));
    assert_eq!(x, 8);
}

#[test]
fn anchor_estimate_sits_in_the_menu_bar() {
    assert_eq!(estimate_tray_anchor(1920), (1820, 12));
}

#[test]
fn alert_position_sits_below_the_popup_spot() {
    let (x, y) = alert_position(1920, 1080, Some((1870, 12)));
    assert_eq!(x, 1492);
    assert_eq!(y, 42);
}

#[test]
fn place_on_a_tiny_screen_follows_the_upper_bound() {
    // When the popup is larger than the screen the upper clamp bound wins,
    // matching the established max-then-min order.
    let (x, y) = place(300, 300, 420, 600, None);
    assert_eq!(x, 300 - 420 - 8);
    assert_eq!(y, 300 - 600 - 8);
}
