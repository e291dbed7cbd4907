use cef_unity::accelerated_paint::linux_accelerated_paint_available;

#[test]
fn available_when_all_three_conditions_hold() {
    assert!(linux_accelerated_paint_available(true, Some(":0"), true));
}

#[test]
fn unavailable_without_the_graphics_processor() {
    assert!(!linux_accelerated_paint_available(false, Some(":0"), true));
}

#[test]
fn unavailable_without_a_display() {
    assert!(!linux_accelerated_paint_available(true, None, true));
}

#[test]
fn empty_display_is_no_display() {
    assert!(!linux_accelerated_paint_available(true, Some(""), true));
}

#[test]
fn unavailable_without_a_pool() {
    assert!(!linux_accelerated_paint_available(true, Some(":0"), false));
}
