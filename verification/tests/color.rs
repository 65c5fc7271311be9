use pixel_shapes::color::Color;

fn reference_channel(channel: u8, step: i64) -> u8 {
    ((channel as i64 + step) % 256).abs() as u8
}

#[test]
fn new_then_components_round_trips() {
    for r in (0..=255u32).step_by(5) {
        for g in (0..=255u32).step_by(3) {
            for b in (0..=255u32).step_by(15) {
                let color = Color::new(r as u8, g as u8, b as u8);
                assert_eq!(color.get_components(), (r as u8, g as u8, b as u8));
            }
        }
    }
}

#[test]
fn round_trip_at_the_corners() {
    for &(r, g, b) in &[(0u8, 0u8, 0u8), (255, 255, 255), (255, 0, 0), (0, 255, 0), (0, 0, 255), (1, 2, 3)] {
        assert_eq!(Color::new(r, g, b).get_components(), (r, g, b));
    }
}

#[test]
fn cycle_forward_advances_each_channel() {
    let mut color = Color::new(100, 150, 200);
    color.cycle(25);
    assert_eq!(color.get_components(), (125, 162, 208));
}

#[test]
fn cycle_forward_wraps_modulo_256() {
    let mut color = Color::new(250, 250, 250);
    color.cycle(25);
    assert_eq!(color.get_components(), (19, 6, 2));
}

#[test]
fn cycle_backward_mirrors_below_zero() {
    let mut color = Color::new(19, 150, 200);
    color.cycle(-25);
    assert_eq!(color.get_components(), (6, 138, 192));
}

#[test]
fn cycle_backward_from_white() {
    let mut color = Color::new(255, 255, 255);
    color.cycle(-25);
    assert_eq!(color.get_components(), (230, 243, 247));
}

#[test]
fn cycle_by_zero_changes_nothing() {
    let mut color = Color::new(7, 77, 177);
    color.cycle(0);
    assert_eq!(color.get_components(), (7, 77, 177));
}

#[test]
fn cycle_rounds_half_and_third_toward_zero() {
    let mut color = Color::new(10, 10, 10);
    color.cycle(-5);
    assert_eq!(color.get_components(), (5, 8, 9));
    let mut color = Color::new(10, 10, 10);
    color.cycle(5);
    assert_eq!(color.get_components(), (15, 12, 11));
}

#[test]
fn cycle_takes_the_largest_amounts() {
    let mut color = Color::new(0, 0, 0);
    color.cycle(i32::MAX);
    assert_eq!(color.get_components(), (255, 255, 170));
    let mut color = Color::new(0, 0, 0);
    color.cycle(i32::MIN);
    assert_eq!(color.get_components(), (0, 0, 170));
    let mut color = Color::new(255, 255, 255);
    color.cycle(i32::MAX);
    assert_eq!(color.get_components(), (254, 254, 169));
}

#[test]
fn cycle_agrees_with_the_formula() {
    let amounts = [-1000, -513, -256, -255, -77, -26, -25, -3, -2, -1, 0, 1, 2, 3, 25, 255, 256, 257, 1000];
    for &amount in &amounts {
        for channel in (0..=255u32).step_by(17) {
            let c = channel as u8;
            let mut color = Color::new(c, c, c);
            color.cycle(amount);
            let expected = (
                reference_channel(c, amount as i64),
                reference_channel(c, (amount / 2) as i64),
                reference_channel(c, (amount / 3) as i64),
            );
            assert_eq!(color.get_components(), expected);
        }
    }
}
