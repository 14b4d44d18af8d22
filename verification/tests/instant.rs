use tomu_hal::time::Instant;

#[test]
fn elapsed_across_wraparound() {
    let start: u32 = 0xFFFF_FFF0;
    let captured = Instant::at(start);
    let later = start.wrapping_add(32);
    assert_eq!(later, 0x10);
    assert_eq!(captured.elapsed_at(later), 32);
}

#[test]
fn elapsed_without_ticks_is_zero() {
    for count in [0u32, 1, 0x8000_0000, 0xFFFF_FFF0, u32::MAX] {
        assert_eq!(Instant::at(count).elapsed_at(count), 0);
    }
}

#[test]
fn elapsed_without_wraparound() {
    assert_eq!(Instant::at(100).elapsed_at(250), 150);
    assert_eq!(Instant::at(0).elapsed_at(u32::MAX), u32::MAX);
}

#[test]
fn elapsed_one_tick_over_the_top() {
    assert_eq!(Instant::at(u32::MAX).elapsed_at(0), 1);
}

#[test]
fn elapsed_one_tick_short_of_a_round() {
    assert_eq!(Instant::at(5).elapsed_at(4), u32::MAX);
}

#[test]
fn elapsed_recovers_every_advance() {
    for start in [0u32, 1, 0x7FFF_FFFF, 0xFFFF_FFF0, u32::MAX] {
        for ticks in [0u32, 1, 32, 0x8000_0000, u32::MAX] {
            let captured = Instant::at(start);
            assert_eq!(captured.elapsed_at(start.wrapping_add(ticks)), ticks);
        }
    }
}

#[test]
fn a_copy_measures_from_the_same_capture() {
    let captured = Instant::at(0xFFFF_FFF0);
    let copy = captured;
    assert_eq!(captured.elapsed_at(0x10), copy.elapsed_at(0x10));
}

#[test]
fn whole_rounds_of_the_counter_are_not_seen() {
    let start: u32 = 5;
    let ticks: u64 = (1u64 << 32) + 7;
    let reading = ((u64::from(start) + ticks) % (1u64 << 32)) as u32;
    assert_eq!(reading, 12);
    assert_eq!(Instant::at(start).elapsed_at(reading), 7);
}
