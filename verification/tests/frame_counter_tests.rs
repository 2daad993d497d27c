use training_modpack::frame_counter::{
    full_reset, get_frame_count, is_counting, register_counter, reset_all, reset_frame_count,
    should_delay, start_counting, stop_counting, tick_idx, tick_ingame, tick_real, FrameCounter,
    FrameCounterType,
};

#[test]
fn register_returns_consecutive_indices() {
    let mut counters: Vec<FrameCounter> = Vec::new();
    assert_eq!(register_counter(&mut counters, FrameCounterType::InGame), 0);
    assert_eq!(register_counter(&mut counters, FrameCounterType::Real), 1);
    assert_eq!(counters.len(), 2);
    assert_eq!(get_frame_count(&counters, 1), 0);
    assert!(!is_counting(&counters, 0));
}

#[test]
fn start_stop_and_tick() {
    let mut counters: Vec<FrameCounter> = Vec::new();
    let i = register_counter(&mut counters, FrameCounterType::InGame);
    tick_ingame(&mut counters);
    assert_eq!(get_frame_count(&counters, i), 0);
    start_counting(&mut counters, i);
    assert!(is_counting(&counters, i));
    tick_ingame(&mut counters);
    tick_ingame(&mut counters);
    assert_eq!(get_frame_count(&counters, i), 2);
    tick_real(&mut counters);
    assert_eq!(get_frame_count(&counters, i), 2);
    stop_counting(&mut counters, i);
    tick_ingame(&mut counters);
    assert_eq!(get_frame_count(&counters, i), 2);
    tick_idx(&mut counters, i);
    assert_eq!(get_frame_count(&counters, i), 3);
    reset_frame_count(&mut counters, i);
    assert_eq!(get_frame_count(&counters, i), 0);
}

#[test]
fn real_counter_ticks_only_on_real_frames() {
    let mut counters: Vec<FrameCounter> = Vec::new();
    let r = register_counter(&mut counters, FrameCounterType::Real);
    let g = register_counter(&mut counters, FrameCounterType::InGameNoReset);
    start_counting(&mut counters, r);
    start_counting(&mut counters, g);
    tick_real(&mut counters);
    tick_real(&mut counters);
    tick_ingame(&mut counters);
    assert_eq!(get_frame_count(&counters, r), 2);
    assert_eq!(get_frame_count(&counters, g), 1);
}

#[test]
fn reset_all_clears_only_in_game_counters() {
    let mut counters: Vec<FrameCounter> = Vec::new();
    let a = register_counter(&mut counters, FrameCounterType::InGame);
    let b = register_counter(&mut counters, FrameCounterType::InGameNoReset);
    let c = register_counter(&mut counters, FrameCounterType::Real);
    for i in [a, b, c] {
        start_counting(&mut counters, i);
        tick_idx(&mut counters, i);
    }
    reset_all(&mut counters);
    assert_eq!(get_frame_count(&counters, a), 0);
    assert!(!is_counting(&counters, a));
    assert_eq!(get_frame_count(&counters, b), 1);
    assert!(is_counting(&counters, b));
    assert_eq!(get_frame_count(&counters, c), 1);
    assert!(is_counting(&counters, c));
}

#[test]
fn full_reset_stops_and_clears() {
    let mut counters: Vec<FrameCounter> = Vec::new();
    let a = register_counter(&mut counters, FrameCounterType::InGame);
    start_counting(&mut counters, a);
    tick_ingame(&mut counters);
    full_reset(&mut counters, a);
    assert_eq!(get_frame_count(&counters, a), 0);
    assert!(!is_counting(&counters, a));
}

#[test]
fn should_delay_counts_down_the_delay() {
    let mut counters: Vec<FrameCounter> = Vec::new();
    let a = register_counter(&mut counters, FrameCounterType::InGame);
    // a delay of 3 frames: true on the first three checks, then false and reset
    let mut answers = Vec::new();
    for _ in 0..5 {
        answers.push(should_delay(&mut counters, 3, a));
        tick_ingame(&mut counters);
    }
    assert_eq!(answers, vec![true, true, true, false, true]);
}

#[test]
fn zero_delay_never_delays() {
    let mut counters: Vec<FrameCounter> = Vec::new();
    let a = register_counter(&mut counters, FrameCounterType::InGame);
    assert!(!should_delay(&mut counters, 0, a));
    assert!(!is_counting(&counters, a));
}

#[test]
fn zero_delay_does_not_look_at_the_counter() {
    let mut counters: Vec<FrameCounter> = Vec::new();
    assert!(!should_delay(&mut counters, 0, 7));
    assert!(counters.is_empty());
}
