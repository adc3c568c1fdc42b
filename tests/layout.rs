use unit_sandbox::layout::{
    initial_units, unit_spawn, UNIT_COUNT, UNIT_HEALTH, UNIT_SPACING, UNIT_SPEED,
};
use unit_sandbox::panel::Editing;

#[test]
fn fifty_units_on_the_diagonal() {
    let units = initial_units();
    assert_eq!(units.len(), 50);
    assert_eq!(UNIT_COUNT, 50);
    for (i, u) in units.iter().enumerate() {
        assert_eq!(u.x, i as u32 * 50);
        assert_eq!(u.y, u.x);
        assert_eq!(u.speed, 50);
        assert_eq!(u.health, 1);
        assert_eq!(u.editing, Editing(false));
    }
}

#[test]
fn first_and_last_unit() {
    let units = initial_units();
    assert_eq!((units[0].x, units[0].y), (0, 0));
    assert_eq!((units[49].x, units[49].y), (2450, 2450));
    assert_eq!(unit_spawn(3), units[3]);
    assert_eq!(unit_spawn(3).x, 150);
}

#[test]
fn spawn_constants() {
    assert_eq!(UNIT_SPACING, 50);
    assert_eq!(UNIT_SPEED, 50);
    assert_eq!(UNIT_HEALTH, 1);
}
