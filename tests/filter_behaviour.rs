use backlash::Backlash;

fn band_width(b: &Backlash<i32>) -> i32 {
    let (lower, upper) = b.borders();
    upper - lower
}

fn contains_value(b: &Backlash<i32>) -> bool {
    let (lower, upper) = b.borders();
    lower <= b.value() && b.value() <= upper
}

#[test]
fn band_width_matches_reported_width() {
    let mut b = Backlash::<i32>::new(6);
    assert_eq!(band_width(&b), b.deadband_width());
    for x in [10, 9, 3, -20, -17, 0, 100] {
        b.update(x);
        assert_eq!(band_width(&b), b.deadband_width());
    }
    b.set_value(500);
    assert_eq!(band_width(&b), 6);
    b.set_deadband_width(9);
    assert_eq!(band_width(&b), 8);
    b.center_borders(-42);
    assert_eq!(band_width(&b), 8);
}

#[test]
fn output_stays_inside_band() {
    let mut b = Backlash::<i32>::new(8);
    assert!(contains_value(&b));
    for x in [1, 5, 30, 26, 22, -3, -1, 7] {
        b.update(x);
        assert!(contains_value(&b));
    }
    b.set_deadband_width(20);
    assert!(contains_value(&b));
}

#[test]
fn set_value_may_leave_band() {
    let mut b = Backlash::<i32>::new(4);
    b.set_value(50);
    assert_eq!(b.value(), 50);
    assert_eq!(b.borders(), (-2, 2));
    assert!(!contains_value(&b));
    b.center_borders(50);
    assert_eq!(b.borders(), (48, 52));
    assert!(contains_value(&b));
}

#[test]
fn update_within_band_changes_nothing() {
    let mut b = Backlash::<i32>::new(10);
    b.update(40);
    let before = (b.value(), b.borders());
    for x in [30, 35, 40, 31, 39] {
        assert_eq!(b.update(x), before.0);
        assert_eq!(b.borders(), before.1);
    }
}

#[test]
fn update_on_border_changes_nothing() {
    let mut b = Backlash::<i32>::new(10);
    assert_eq!(b.update(5), 0);
    assert_eq!(b.update(-5), 0);
    assert_eq!(b.borders(), (-5, 5));
    assert_eq!(b.update(6), 1);
    assert_eq!(b.borders(), (-4, 6));
}

#[test]
fn center_twice_same_as_once() {
    let mut b = Backlash::<i32>::new(10);
    b.center_borders(17);
    let once = b.borders();
    b.center_borders(17);
    assert_eq!(b.borders(), once);
    assert_eq!(once, (12, 22));
    assert_eq!(b.value(), 0);
}

#[test]
fn odd_width_truncates() {
    let mut b = Backlash::<i32>::new(7);
    assert_eq!(b.deadband_width(), 6);
    assert_eq!(b.borders(), (-3, 3));
    b.set_deadband_width(1);
    assert_eq!(b.deadband_width(), 0);
    b.set_deadband_width(-7);
    assert_eq!(b.deadband_width(), -6);
    b.set_deadband_width(12);
    assert_eq!(b.deadband_width(), 12);
}

#[test]
fn zero_width_follows_input() {
    let mut b = Backlash::<i32>::new(0);
    for x in [3, -8, 12, 12, 0] {
        assert_eq!(b.update(x), x);
        assert_eq!(b.borders(), (x, x));
    }
}

#[test]
fn negative_width_inverts_band() {
    let b = Backlash::<i32>::new(-4);
    assert_eq!(b.borders(), (2, -2));
    assert_eq!(b.deadband_width(), -4);
}

#[test]
fn set_width_recenters_on_output() {
    let mut b = Backlash::<i32>::new(4);
    assert_eq!(b.update(20), 18);
    b.set_deadband_width(10);
    assert_eq!(b.value(), 18);
    assert_eq!(b.borders(), (13, 23));
}

#[test]
fn other_integer_types() {
    let mut a = Backlash::<i8>::new(20);
    assert_eq!(a.update(127), 117);
    assert_eq!(a.borders(), (107, 127));
    assert_eq!(a.update(-128), -118);
    assert_eq!(a.borders(), (-128, -108));

    let mut b = Backlash::<i16>::new(4);
    assert_eq!(b.update(-300), -298);

    let mut c = Backlash::<i64>::new(1_000);
    assert_eq!(c.update(5_000_000_000), 4_999_999_500);

    let mut d = Backlash::<i128>::new(2);
    assert_eq!(d.update(-10), -9);
    assert_eq!(d.borders(), (-10, -8));
}
