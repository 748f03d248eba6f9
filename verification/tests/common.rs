use doukutsu_core::common::{Direction, TimingMode};

#[test]
fn direction_indices_round_trip() {
    for i in 0..5usize {
        let d = Direction::from_int(i).unwrap();
        assert_eq!(d.index() as usize, i);
    }
    assert_eq!(Direction::from_int(5), None);
}

#[test]
fn direction_vectors() {
    assert_eq!(Direction::Left.vector_x(), -1);
    assert_eq!(Direction::Right.vector_x(), 1);
    assert_eq!(Direction::Up.vector_x(), 0);
    assert_eq!(Direction::Up.vector_y(), -1);
    assert_eq!(Direction::Bottom.vector_y(), 1);
    assert_eq!(Direction::Left.vector_y(), 0);
}

#[test]
fn timing_rates() {
    assert_eq!(TimingMode::_50Hz.get_tps(), 50);
    assert_eq!(TimingMode::_60Hz.get_tps(), 60);
    assert_eq!(TimingMode::from_tps(50), TimingMode::_50Hz);
    assert_eq!(TimingMode::from_tps(60), TimingMode::_60Hz);
    assert_eq!(TimingMode::from_tps(0), TimingMode::FrameSynchronized);
}
