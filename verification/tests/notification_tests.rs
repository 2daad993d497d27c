use training_modpack::combo::{once_per_frame, update_frame_advantage, FrameAdvantageTracker, FrameObservation};
use training_modpack::frame_counter::{
    get_frame_count, is_counting, register_counter, tick_ingame, FrameCounter, FrameCounterType,
};
use training_modpack::notifications::{
    clear_all_notifications, clear_notifications, color_notification, notification, Notification,
};
use training_modpack::resources::ResColor;

fn black() -> ResColor {
    ResColor { r: 0, g: 0, b: 0, a: 255 }
}

#[test]
fn notification_lifecycle() {
    let mut n = Notification::new("Save State".to_string(), "Saved".to_string(), 3, black());
    assert!(!n.has_drawn());
    n.set_drawn();
    assert!(n.has_drawn());
    assert!(!n.check_completed());
    n.tick();
    assert_eq!(n.length, 2);
    n.tick();
    assert!(n.check_completed());
}

#[test]
fn queue_appends_and_clears_by_header() {
    let mut q: Vec<Notification> = Vec::new();
    notification(&mut q, "A".to_string(), "one".to_string(), 10);
    color_notification(&mut q, "B".to_string(), "two".to_string(), 20, ResColor { r: 1, g: 2, b: 3, a: 4 });
    notification(&mut q, "A".to_string(), "three".to_string(), 30);
    assert_eq!(q.len(), 3);
    assert_eq!(q[0].color, black());
    assert_eq!(q[1].color, ResColor { r: 1, g: 2, b: 3, a: 4 });
    clear_notifications(&mut q, "A");
    assert_eq!(q.len(), 1);
    assert_eq!(q[0].header, "B");
    assert_eq!(q[0].message, "two");
    clear_all_notifications(&mut q);
    assert!(q.is_empty());
}

#[test]
fn frame_advantage_notification() {
    let mut q: Vec<Notification> = Vec::new();
    notification(&mut q, "Other".to_string(), "x".to_string(), 10);
    update_frame_advantage(&mut q, 3, true);
    assert_eq!(q.len(), 1);
    assert_eq!(q[0].header, "Frame Advantage");
    assert_eq!(q[0].message, "+3");
    assert_eq!(q[0].length, 60);
    assert_eq!(q[0].color, ResColor { r: 31, g: 198, b: 0, a: 255 });
    update_frame_advantage(&mut q, -2, true);
    assert_eq!(q[0].message, "-2");
    assert_eq!(q[0].color, ResColor { r: 200, g: 8, b: 8, a: 255 });
    update_frame_advantage(&mut q, 0, true);
    assert_eq!(q[0].message, "+0");
    assert_eq!(q[0].color, black());
    update_frame_advantage(&mut q, -2147483648, true);
    assert_eq!(q[0].message, "-2147483648");
    update_frame_advantage(&mut q, 7, false);
    assert_eq!(q[0].message, "-2147483648");
}

fn obs(player: bool, cpu: bool, connects: bool) -> FrameObservation {
    FrameObservation {
        is_player_pass: true,
        cpu_mashing: false,
        player_is_actionable: player,
        cpu_is_actionable: cpu,
        player_connects: connects,
    }
}

#[test]
fn frame_advantage_is_cpu_frames_minus_player_frames() {
    let mut counters: Vec<FrameCounter> = Vec::new();
    let p = register_counter(&mut counters, FrameCounterType::InGame);
    let c = register_counter(&mut counters, FrameCounterType::InGame);
    let mut t = FrameAdvantageTracker {
        player_was_actionable: true,
        cpu_was_actionable: true,
        is_counting: false,
        player_counter: p,
        cpu_counter: c,
    };
    // The player's hit connects: both counters start.
    assert_eq!(once_per_frame(&mut t, &mut counters, obs(false, false, true)), None);
    assert!(t.is_counting);
    assert!(is_counting(&counters, p) && is_counting(&counters, c));
    // Two frames of both in lag, then the player can act.
    tick_ingame(&mut counters);
    assert_eq!(once_per_frame(&mut t, &mut counters, obs(false, false, false)), None);
    tick_ingame(&mut counters);
    assert_eq!(once_per_frame(&mut t, &mut counters, obs(true, false, false)), None);
    assert!(!is_counting(&counters, p));
    assert_eq!(get_frame_count(&counters, p), 2);
    // Three more frames until the CPU can act.
    tick_ingame(&mut counters);
    tick_ingame(&mut counters);
    tick_ingame(&mut counters);
    assert_eq!(once_per_frame(&mut t, &mut counters, obs(true, true, false)), Some(3));
    assert!(!t.is_counting);
    assert_eq!(get_frame_count(&counters, p), 0);
    assert_eq!(get_frame_count(&counters, c), 0);
}

#[test]
fn cpu_pass_and_mashing_change_nothing() {
    let mut counters: Vec<FrameCounter> = Vec::new();
    let p = register_counter(&mut counters, FrameCounterType::InGame);
    let c = register_counter(&mut counters, FrameCounterType::InGame);
    let start = FrameAdvantageTracker {
        player_was_actionable: false,
        cpu_was_actionable: false,
        is_counting: true,
        player_counter: p,
        cpu_counter: c,
    };
    let mut t = start;
    let mut o = obs(true, true, false);
    o.is_player_pass = false;
    assert_eq!(once_per_frame(&mut t, &mut counters, o), None);
    assert_eq!(t, start);
    let mut o = obs(true, true, false);
    o.cpu_mashing = true;
    assert_eq!(once_per_frame(&mut t, &mut counters, o), None);
    assert_eq!(t, start);
}

#[test]
fn display_shows_then_drops_notifications() {
    use_display();
}

fn use_display() {
    let mut q: Vec<Notification> = Vec::new();
    let d = training_modpack::notifications::draw_notifications(&mut q, true, false);
    assert!(!d.visible && d.newly_shown.is_none());
    notification(&mut q, "A".to_string(), "first".to_string(), 3);
    notification(&mut q, "B".to_string(), "second".to_string(), 2);
    let d = training_modpack::notifications::draw_notifications(&mut q, true, false);
    assert!(d.visible);
    let (h, m, c) = d.newly_shown.unwrap();
    assert_eq!((h.as_str(), m.as_str(), c), ("A", "first", black()));
    assert_eq!(q[0].length, 2);
    let d = training_modpack::notifications::draw_notifications(&mut q, true, true);
    assert!(!d.visible && d.newly_shown.is_none());
    // "A" had its last frame: "B" is next.
    assert_eq!(q.len(), 1);
    assert_eq!(q[0].header, "B");
    let d = training_modpack::notifications::draw_notifications(&mut q, false, false);
    assert!(!d.visible);
    assert!(q.is_empty());
}
