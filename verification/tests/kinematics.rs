use nerteb_2d::line::Line;
use nerteb_2d::movable::Movable;
use nerteb_2d::rat::Rat;
use nerteb_2d::xy::Xy;

fn whole(x: i64, y: i64) -> Xy {
    Xy::new(Rat::from_int(x), Rat::from_int(y))
}

#[test]
fn one_tick_formula() {
    // velocity (3, -2), acceleration (1, 1), damping 1/4:
    // new velocity = (4, -1) * 3/4 = (3, -3/4), new position = old + that.
    let mut m = Movable::new(
        whole(0, 0),
        Xy::new(Rat::from_int(3), Rat::from_int(-2)),
        Xy::new(Rat::from_int(1), Rat::from_int(1)),
        Rat::new(1, 4),
    );
    m.move0();
    assert!(m.movement_vector.eq_val(Xy::new(Rat::from_int(3), Rat::new(-3, 4))));
    assert!(m.coordinates.eq_val(Xy::new(Rat::from_int(3), Rat::new(-3, 4))));
}

#[test]
fn scenario_two_ticks() {
    // position (100,100), velocity (5,0), acceleration (0,0), damping 0.01.
    let mut m = Movable::new(
        whole(100, 100),
        whole(5, 0),
        whole(0, 0),
        Rat::new(1, 100),
    );
    m.move0();
    assert!(m.movement_vector.eq_val(Xy::new(Rat::new(495, 100), Rat::from_int(0))));
    assert!(m.coordinates.eq_val(Xy::new(Rat::new(10495, 100), Rat::from_int(100))));
    m.move0();
    assert!(m.movement_vector.eq_val(Xy::new(Rat::new(49005, 10000), Rat::from_int(0))));
    assert!(m.coordinates.eq_val(Xy::new(Rat::new(1098505, 10000), Rat::from_int(100))));
}

#[test]
fn uniform_motion_advances_linearly() {
    // No acceleration and no damping: five ticks advance the position by
    // five times the velocity and keep the velocity.
    let mut m = Movable::new(whole(10, 20), whole(2, 1), whole(0, 0), Rat::from_int(0));
    m.step_ticks(5);
    assert!(m.movement_vector.eq_val(whole(2, 1)));
    assert!(m.coordinates.eq_val(whole(20, 25)));
}

#[test]
fn full_damping_stops_immediately() {
    // Damping 1: the velocity collapses to zero on the first tick and the
    // position never moves again, whatever the acceleration.
    let mut m = Movable::new(whole(2, 2), whole(5, 7), whole(3, 3), Rat::from_int(1));
    m.step_ticks(4);
    assert!(m.movement_vector.eq_val(whole(0, 0)));
    assert!(m.coordinates.eq_val(whole(2, 2)));
}

#[test]
fn zero_ticks_change_nothing() {
    let mut m = Movable::new(whole(1, 2), whole(3, 4), whole(5, 6), Rat::new(1, 2));
    m.step_ticks(0);
    assert!(m.coordinates.eq_val(whole(1, 2)));
    assert!(m.movement_vector.eq_val(whole(3, 4)));
}

#[test]
fn can_step_accepts_small_state() {
    let m = Movable::new(whole(100, 100), whole(5, 0), whole(0, 0), Rat::new(1, 100));
    assert!(m.can_step());
}

#[test]
fn can_step_rejects_overflowing_state() {
    let huge = Xy::new(Rat::new(i64::MAX, 1), Rat::from_int(0));
    let m = Movable::new(whole(0, 0), huge, huge, Rat::from_int(0));
    assert!(!m.can_step());
}

#[test]
fn line_reads_shared_endpoints() {
    let points = vec![whole(50, 50), whole(100, 50), whole(100, 100), whole(50, 100)];
    let a = Line::from_points(&points, 0, 1);
    let b = Line::from_points(&points, 1, 2);
    let (a0, a1) = a.endpoints(&points);
    let (b0, b1) = b.endpoints(&points);
    assert!(a0.eq_val(whole(50, 50)));
    assert!(a1.eq_val(whole(100, 50)));
    assert!(b0.eq_val(whole(100, 50)));
    assert!(b1.eq_val(whole(100, 100)));
    assert_eq!(a.index2, b.index1);
}
