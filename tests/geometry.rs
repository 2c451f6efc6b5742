use window_centerer::controller::{centered_origin, placement};
use window_centerer::monitors::{
    enumerate_monitors, enumeration_incomplete, MonitorInfo, VirtualScreen,
};
use window_centerer::rect::{Rect, Rectangle};

#[test]
fn width_and_height_are_signed_differences() {
    let r = Rect::new(10, 20, 110, 70);
    assert_eq!(r.width(), 100);
    assert_eq!(r.height(), 50);
    let inverted = Rect::new(50, 40, 10, 0);
    assert_eq!(inverted.width(), -40);
    assert_eq!(inverted.height(), -40);
    let offset = Rect::new(-1920, -100, 0, 980);
    assert_eq!(offset.width(), 1920);
    assert_eq!(offset.height(), 1080);
}

#[test]
fn extent_that_overflows_is_detected() {
    assert!(Rect::new(-5, -5, 5, 5).has_i32_extent());
    assert!(!Rect::new(i32::MIN, 0, i32::MAX, 0).has_i32_extent());
    assert!(Rect::new(0, i32::MAX, 0, -1).has_i32_extent());
    assert!(!Rect::new(0, i32::MAX, 0, -2).has_i32_extent());
    assert_eq!(Rect::empty().width(), 0);
}

#[test]
fn centers_800_by_600_on_full_hd() {
    let screen = Rect::new(0, 0, 1920, 1080);
    let window = Rect::new(100, 50, 900, 650);
    assert_eq!(centered_origin(&screen, &window), (560, 240));
}

#[test]
fn odd_sizes_truncate_each_half() {
    let screen = Rect::new(0, 0, 1921, 1081);
    let window = Rect::new(0, 0, 801, 601);
    assert_eq!(centered_origin(&screen, &window), (560, 240));
    // Halving each side on its own differs from halving the difference.
    let screen = Rect::new(0, 0, 1920, 1080);
    let window = Rect::new(0, 0, 801, 601);
    assert_eq!(centered_origin(&screen, &window), (560, 240));
    assert_eq!((1920 - 801) / 2, 559);
}

#[test]
fn negative_extents_truncate_toward_zero() {
    let screen = Rect::new(0, 0, 1920, 1080);
    let window = Rect::new(3, 3, 0, 0);
    // -3 / 2 is -1, not -2.
    assert_eq!(centered_origin(&screen, &window), (961, 541));
}

#[test]
fn enumeration_keeps_readable_displays_in_order() {
    let a = Rect::new(0, 0, 1920, 1080);
    let b = Rect::new(1920, 0, 3840, 1440);
    let c = Rect::new(-1280, 0, 0, 1024);
    let reports = vec![Some(a), None, Some(b), Some(c)];
    let ms = enumerate_monitors(&reports);
    assert_eq!(ms, vec![MonitorInfo::new(a), MonitorInfo::new(b), MonitorInfo::new(c)]);
    assert_eq!(*ms[1].get_display_monitor(), b);
    assert!(enumeration_incomplete(&reports));
    let screen = VirtualScreen::new(&reports);
    assert_eq!(screen.monitor_count(), 3);
    assert_eq!(screen.monitor_bounds(0), a);
    assert_eq!(screen.monitor_bounds(2), c);
    assert_eq!(screen.primary_bounds(), Some(a));
}

#[test]
fn complete_enumeration_gives_no_warning() {
    let reports = vec![Some(Rect::new(0, 0, 1920, 1080))];
    assert!(!enumeration_incomplete(&reports));
    let failed: Vec<Option<Rect>> = vec![None, None];
    assert!(enumeration_incomplete(&failed));
    assert!(enumerate_monitors(&failed).is_empty());
}

#[test]
fn no_display_means_no_placement() {
    let none: Vec<Option<Rect>> = Vec::new();
    assert!(enumeration_incomplete(&none));
    let screen = VirtualScreen::new(&none);
    assert_eq!(screen.monitor_count(), 0);
    assert_eq!(screen.primary_bounds(), None);
    assert_eq!(placement(&screen, &Rect::new(0, 0, 800, 600)), None);
    let unreadable = VirtualScreen::new(&vec![None]);
    assert_eq!(placement(&unreadable, &Rect::new(0, 0, 800, 600)), None);
}

#[test]
fn placement_uses_the_primary_display() {
    let reports = vec![Some(Rect::new(0, 0, 1920, 1080)), Some(Rect::new(1920, 0, 4480, 1440))];
    let screen = VirtualScreen::new(&reports);
    assert_eq!(placement(&screen, &Rect::new(300, 300, 1100, 900)), Some((560, 240)));
    let huge = Rect::new(i32::MIN, 0, i32::MAX, 10);
    assert_eq!(placement(&screen, &huge), None);
}
