use bats::bats_dsp::position::Position;
use bats::bats_lib::position::Position as LibPosition;

/// The position `beat` beats in, split into a beat and sub beat as in `Position::new`.
fn position(beat: f64) -> Position {
    let sub_beat_scalar = (1u64 << 32) as f64;
    Position::with_components(beat.trunc() as u32, (beat.fract() * sub_beat_scalar) as u32)
}

/// The position `beat` beats in, split into a beat and sub beat as in `Position::new`.
fn lib_position(beat: f64) -> LibPosition {
    let lower = (beat.fract() * (1u64 << 32) as f64) as u32;
    LibPosition::with_components(beat.trunc() as u32, lower)
}

#[test]
fn position_new_beat_position_with_has_beat_and_sub_beat() {
    let p = position(11.5);
    assert_eq!(p.beat(), 11);
    assert_eq!(p.sub_beat(), ((1u64 << 32) / 2) as u32);
}

#[test]
fn position_add_beat_adds_components_and_carries_the_sub_beat() {
    assert_eq!(position(1.625) + position(3.75), position(5.375));
}

#[test]
fn position_wraps_around_on_add() {
    assert_eq!(Position::max_value() + Position::delta(), position(0.0));
    assert_eq!(
        Position::max_value() + (Position::delta() + position(1.0)),
        position(1.0)
    );
}

#[test]
fn to_debug() {
    let debug_string = position(4.5).debug_string();
    assert!(
        debug_string.contains("4.5"),
        "\"{debug_string}\" does not contain 4.5."
    );
}

#[test]
fn position_default_value_is_zero() {
    assert_eq!(Position::default(), position(0.0));
    assert_eq!(Position::default().beat(), 0);
    assert_eq!(Position::default().sub_beat(), 0);
}

#[test]
fn debug_string_gives_every_decimal() {
    assert_eq!(position(4.0).debug_string(), "Position { beat: 4.0 }");
    assert_eq!(position(12.625).debug_string(), "Position { beat: 12.625 }");
    assert_eq!(
        Position::with_components(0, 1).debug_string(),
        "Position { beat: 0.00000000023283064365386962890625 }"
    );
}

#[test]
fn set_beat_keeps_sub_beat() {
    let mut p = position(17.25);
    p.set_beat(3);
    assert_eq!(p, position(3.25));
}

#[test]
fn add_assign_advances() {
    let mut p = position(15.5);
    p.add_assign(position(0.75));
    assert_eq!(p, position(16.25));
    let mut q = lib_position(1.5);
    q.add_assign(lib_position(2.5));
    assert_eq!(q, lib_position(4.0));
}

#[test]
fn default_value_is_zero() {
    assert_eq!(LibPosition::default(), lib_position(0.0));
    assert_eq!(LibPosition::default().beat(), 0);
    assert_eq!(LibPosition::default().sub_beat(), 0);
}

#[test]
fn new_beat_position_with_has_beat_and_sub_beat() {
    let p = lib_position(11.5);
    assert_eq!(p.beat(), 11);
    assert_eq!(p.sub_beat(), ((1u64 << 32) / 2) as u32);
}

#[test]
fn add_beat_adds_components_and_carries_the_sub_beat() {
    assert_eq!(lib_position(1.625) + lib_position(3.75), lib_position(5.375));
}

#[test]
fn positions_order_by_beat_then_sub_beat() {
    assert!(position(1.75) < position(2.0));
    assert!(position(2.25) < position(2.5));
    assert!(position(3.0) > position(2.75));
    assert!(position(2.5) <= position(2.5));
    assert_eq!(
        position(4.5).partial_cmp(&position(4.5)),
        Some(std::cmp::Ordering::Equal)
    );
    assert_eq!(Position::max_value().partial_cmp(&position(0.0)), Some(std::cmp::Ordering::Greater));
}
