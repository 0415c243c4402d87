use pokedriver::frame_sync::{get_fps, FrameSync};
use pokedriver::timer::{
    average_delta, check_update_time, delta, fps_as_duration, remaining_update_time, ticks, time_since_start,
    LogBuffer, TimeContext, TimeContextGroup,
};

#[test]
fn refresh_rate_is_sixty() {
    assert_eq!(get_fps(), 60);
}

#[test]
fn poll_counter_wraps_each_window() {
    let mut f = FrameSync::new(60);
    assert!(f.cycle_completed());
    for i in 1..60u16 {
        f.update();
        assert_eq!(f.get_event_frame(), i);
        assert!(!f.cycle_completed());
    }
    f.update();
    assert_eq!(f.get_event_frame(), 0);
    assert!(f.cycle_completed());
}

#[test]
fn short_cycle_phase_is_proportional() {
    let mut f = FrameSync::new(15);
    let mut frames = Vec::new();
    for _ in 0..8 {
        f.update();
        frames.push(f.get_frame());
    }
    // polls * 15 / 60, rounded down
    assert_eq!(frames, vec![0, 0, 0, 1, 1, 1, 1, 2]);
    f.reset_frames();
    assert_eq!(f.get_frame(), 0);
    assert_eq!(f.get_event_frame(), 0);
}

#[test]
fn long_cycle_phase_moves_a_frame_per_poll() {
    let mut f = FrameSync::new(120);
    for k in 1..120usize {
        f.update();
        assert_eq!(f.get_frame(), k);
    }
    f.update();
    assert_eq!(f.get_frame(), 0);
    let f = f.set_frames(200);
    assert_eq!(f.get_frame(), 0);
}

#[test]
fn log_buffer_fills_then_wraps() {
    let mut b = LogBuffer::new(3, 7);
    assert_eq!(b.contents(), vec![7]);
    b.push(1);
    assert_eq!(b.latest(), 1);
    assert_eq!(b.contents(), vec![7, 1]);
    b.push(2);
    assert_eq!(b.contents(), vec![7, 1, 2]);
    b.push(3);
    assert_eq!(b.contents(), vec![3, 1, 2]);
    assert_eq!(b.latest(), 3);
    b.push(4);
    assert_eq!(b.contents(), vec![3, 4, 2]);
}

#[test]
fn frame_averages() {
    let mut tc = TimeContext::new();
    assert_eq!(delta(&tc), 16_000_000);
    assert_eq!(average_delta(&tc), 16_000_000);
    tc.record_frame(20_000_000);
    assert_eq!(delta(&tc), 20_000_000);
    assert_eq!(average_delta(&tc), 18_000_000);
    tc.record_frame(3);
    assert_eq!(average_delta(&tc), 12_000_001);
    assert_eq!(ticks(&tc), 2);
    for _ in 0..400 {
        tc.record_frame(u64::MAX);
    }
    assert_eq!(average_delta(&tc), u64::MAX);
}

#[test]
fn fixed_rate_updates_drain_owed_time() {
    assert_eq!(fps_as_duration(60), 16_666_666);
    assert_eq!(fps_as_duration(1), 1_000_000_000);
    assert_eq!(fps_as_duration(0), u64::MAX);
    let mut tc = TimeContext::new();
    tc.record_frame(40_000_000);
    assert_eq!(remaining_update_time(&mut tc), 40_000_000);
    assert!(check_update_time(&mut tc, 60));
    assert!(check_update_time(&mut tc, 60));
    assert!(!check_update_time(&mut tc, 60));
    assert_eq!(remaining_update_time(&mut tc), 40_000_000 - 2 * 16_666_666);
    assert!(!check_update_time(&mut tc, 0));
}

#[test]
fn owed_time_saturates() {
    let mut tc = TimeContext::new();
    tc.record_frame(u64::MAX);
    tc.record_frame(5);
    assert_eq!(remaining_update_time(&mut tc), u64::MAX);
}

#[test]
fn clock_ticks() {
    let mut tc = TimeContext::new();
    tc.tick();
    tc.tick();
    assert_eq!(ticks(&tc), 2);
    let _ = time_since_start(&tc);
    let _ = delta(&tc);
}

#[test]
fn group_creates_contexts_on_demand() {
    let mut g = TimeContextGroup::new();
    g.get(2).record_frame(9);
    assert_eq!(delta(g.get(2)), 9);
    assert_eq!(ticks(g.get(0)), 0);
    g.tick_all();
    assert_eq!(ticks(g.get(0)), 1);
    assert_eq!(ticks(g.get(1)), 1);
    assert_eq!(ticks(g.get(2)), 2);
}
