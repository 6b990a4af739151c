use nexrad_volumetric::color::Rgb;
use nexrad_volumetric::error::Error;
use nexrad_volumetric::project::{ColoredPoint, Vec3};
use nexrad_volumetric::state::{ProcessingStatistics, State};

fn one_point() -> ColoredPoint {
    let black = Rgb { r: 0, g: 0, b: 0 };
    ColoredPoint {
        pos: Vec3 { x: 1, y: 2, z: 3 },
        strength_milli: 10_000,
        raw: black,
        density: black,
        hybrid: black,
    }
}

#[test]
fn starts_idle_and_empty() {
    let s = State::new();
    assert!(!s.processing);
    assert!(s.points.is_none());
    assert!(s.statistics.is_none());
}

#[test]
fn reentrant_run_is_rejected_and_state_unchanged() {
    let mut s = State::new();
    assert_eq!(s.begin_run(), Ok(()));
    assert!(s.processing);
    assert_eq!(s.begin_run(), Err(Error::Reentrancy));
    assert!(s.processing);
    assert!(s.points.is_none());
    assert!(s.statistics.is_none());
}

#[test]
fn completion_publishes_atomically() {
    let mut s = State::new();
    s.begin_run().unwrap();
    let stats = ProcessingStatistics { pointing_ms: 7, ..Default::default() };
    s.complete_run(vec![one_point()], stats);
    assert!(!s.processing);
    assert_eq!(s.points.as_ref().unwrap().len(), 1);
    assert_eq!(s.statistics.unwrap().pointing_ms, 7);
}

#[test]
fn failure_releases_the_flag_and_keeps_last_good_result() {
    let mut s = State::new();
    s.begin_run().unwrap();
    s.complete_run(vec![one_point()], ProcessingStatistics::default());
    s.begin_run().unwrap();
    s.fail_run();
    assert!(!s.processing);
    assert_eq!(s.points.as_ref().unwrap().len(), 1);
    assert!(s.statistics.is_some());
    // And the next run may start again.
    assert_eq!(s.begin_run(), Ok(()));
}
