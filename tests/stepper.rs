use motor_control::{coil_is_high, Direction, Motor, PhaseTable, TableError};

fn half_step_motor() -> Motor {
    Motor::new(PhaseTable::half_step())
}

#[test]
fn new_motor_is_stopped_at_phase_zero() {
    let m = half_step_motor();
    assert_eq!(m.current_index(), 0);
    assert_eq!(m.outputs(), 0);
    assert_eq!(m.table_len(), 8);
}

#[test]
fn eight_forward_steps_write_the_half_step_cycle() {
    let mut m = half_step_motor();
    let mut written = Vec::new();
    for _ in 0..8 {
        m.step_forward();
        written.push(m.outputs());
    }
    assert_eq!(
        written,
        vec![0b0001, 0b0011, 0b0010, 0b0110, 0b0100, 0b1100, 0b1000, 0b1001]
    );
    assert_eq!(m.current_index(), 0);
}

#[test]
fn four_forward_steps_write_the_full_step_cycle() {
    let mut m = Motor::new(PhaseTable::full_step());
    let mut written = Vec::new();
    for _ in 0..4 {
        m.step_forward();
        written.push(m.outputs());
    }
    assert_eq!(written, vec![0b1010, 0b0110, 0b0101, 0b1001]);
    assert_eq!(m.current_index(), 0);
}

#[test]
fn forward_then_back_restores_index_on_both_tables() {
    for full in [true, false] {
        let len = if full { 4 } else { 8 };
        for start in 0..len {
            let table = if full { PhaseTable::full_step() } else { PhaseTable::half_step() };
            let mut m = Motor::new(table);
            for _ in 0..start {
                m.step_forward();
            }
            assert_eq!(m.current_index(), start);
            m.step_forward();
            let first = m.outputs();
            m.step_back();
            let second = m.outputs();
            assert_eq!(m.current_index(), start);
            assert_ne!(first, second);
        }
    }
}

#[test]
fn forward_then_back_writes_the_phase_after() {
    let mut m = half_step_motor();
    m.step_forward();
    assert_eq!(m.outputs(), 0b0001);
    m.step_back();
    assert_eq!(m.outputs(), 0b0011);
    assert_eq!(m.current_index(), 0);
}

#[test]
fn step_back_from_zero_wraps_to_last_phase() {
    let mut m = half_step_motor();
    m.step_back();
    assert_eq!(m.outputs(), 0b0001);
    assert_eq!(m.current_index(), 7);
    m.step_back();
    assert_eq!(m.outputs(), 0b1001);
    assert_eq!(m.current_index(), 6);
}

#[test]
fn table_length_forward_steps_return_to_start() {
    let mut m = half_step_motor();
    m.step_forward();
    m.step_forward();
    m.step_forward();
    let start = m.current_index();
    for _ in 0..m.table_len() {
        m.step_forward();
    }
    assert_eq!(m.current_index(), start);
}

#[test]
fn stop_is_idempotent_and_keeps_phase() {
    let mut m = half_step_motor();
    m.step_forward();
    m.step_forward();
    assert_eq!(m.outputs(), 0b0011);
    m.stop();
    assert_eq!(m.outputs(), 0);
    assert_eq!(m.current_index(), 2);
    m.stop();
    assert_eq!(m.outputs(), 0);
    assert_eq!(m.current_index(), 2);
}

#[test]
fn step_by_direction_matches_named_steps() {
    let mut a = half_step_motor();
    let mut b = half_step_motor();
    a.step(Direction::Forward);
    b.step_forward();
    assert_eq!(a.current_index(), b.current_index());
    assert_eq!(a.outputs(), b.outputs());
    a.step(Direction::Backward);
    b.step_back();
    assert_eq!(a.current_index(), b.current_index());
    assert_eq!(a.outputs(), b.outputs());
}

#[test]
fn custom_table_is_checked() {
    assert!(matches!(PhaseTable::from_patterns(vec![]), Err(TableError::Empty)));
    assert!(matches!(
        PhaseTable::from_patterns(vec![0b0001, 0b0010, 0x10, 0x20]),
        Err(TableError::NotAPattern { index: 2 })
    ));
    let t = PhaseTable::from_patterns(vec![0b1000, 0b0100]).unwrap();
    assert_eq!(t.len(), 2);
    assert_eq!(t.pattern(1), 0b0100);
    let mut m = Motor::new(t);
    m.step_forward();
    m.step_forward();
    assert_eq!(m.outputs(), 0b0100);
    assert_eq!(m.current_index(), 0);
}

#[test]
fn coil_levels_follow_bit_order() {
    let levels: Vec<bool> = (0..4).map(|c| coil_is_high(0b1010, c)).collect();
    assert_eq!(levels, vec![true, false, true, false]);
    let levels: Vec<bool> = (0..4).map(|c| coil_is_high(0b0001, c)).collect();
    assert_eq!(levels, vec![false, false, false, true]);
}
