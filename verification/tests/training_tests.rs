use training_modpack::frame_counter::{
    get_frame_count, is_counting, register_counter, start_counting, tick_ingame, FrameCounter,
    FrameCounterType,
};
use training_modpack::ledge::{
    get_ledge_option, reset_ledge_case, reset_ledge_delay, roll_ledge_case, roll_ledge_delay,
    weights_equal, LedgeState, NOT_SET,
};
use training_modpack::mash::{
    buffer_action, check_buffer, clear_queue, full_reset, get_buffered_action, get_current_buffer, get_flag,
    should_delay_aerial,
    is_dashing_for_dash_attack, is_playback_queued, queued_playback_slot, reset, MashSituation,
    MashState, PlaybackStatus,
};
use training_modpack::menu::base_menu;
use training_modpack::reset::{on_reset, TrainingState};
use training_modpack::sdi::SdiState;
use training_modpack::options::{
    Direction, Action, AttackAngle, Delay, LedgeOption, LongDelay, MashTrigger, MedDelay, OnOff,
    ThrowOption,
};
use training_modpack::shield::{
    allow_oos, handle_oos_offset, is_aerial, need_suspend_shield, reset_oos_offset, set_shield_decay,
    should_pause_shield_decay, suspend_shield, ShieldState,
};
use training_modpack::throw::{
    reset_pummel_delay, reset_throw_case, reset_throw_delay, roll_pummel_delay, roll_throw_case,
    roll_throw_delay, ThrowState,
};

fn counting_counter(counters: &mut Vec<FrameCounter>) -> usize {
    let i = register_counter(counters, FrameCounterType::InGame);
    start_counting(counters, i);
    tick_ingame(counters);
    i
}

#[test]
fn ledge_delay_rolls_once_and_resets() {
    let mut counters: Vec<FrameCounter> = Vec::new();
    let i = counting_counter(&mut counters);
    let mut menu = base_menu();
    menu.ledge_delay = LongDelay::D20();
    let mut s = LedgeState { delay: NOT_SET, case: LedgeOption::empty(), delay_counter: i };
    // Nothing rolled: resetting leaves the counter alone.
    reset_ledge_delay(&mut s, &mut counters);
    assert_eq!(get_frame_count(&counters, i), 1);
    roll_ledge_delay(&mut s, &menu);
    assert_eq!(s.delay, 20);
    menu.ledge_delay = LongDelay::D50();
    roll_ledge_delay(&mut s, &menu);
    assert_eq!(s.delay, 20);
    reset_ledge_delay(&mut s, &mut counters);
    assert_eq!(s.delay, NOT_SET);
    assert_eq!(get_frame_count(&counters, i), 0);
    assert!(!is_counting(&counters, i));
    menu.ledge_delay = LongDelay::empty();
    roll_ledge_delay(&mut s, &menu);
    assert_eq!(s.delay, 0);
}

#[test]
fn ledge_case_and_option() {
    let mut menu = base_menu();
    menu.ledge_state = LedgeOption::JUMP();
    let mut s = LedgeState { delay: NOT_SET, case: LedgeOption::empty(), delay_counter: 0 };
    roll_ledge_case(&mut s, &menu);
    assert_eq!(s.case, LedgeOption::JUMP());
    menu.ledge_state = LedgeOption::ROLL();
    roll_ledge_case(&mut s, &menu);
    assert_eq!(s.case, LedgeOption::JUMP());

    menu.ledge_jump_override = Action::FAIR();
    menu.ledge_neutral_override = Action::empty();
    menu.mash_state = Action::AIR_DODGE();
    assert_eq!(get_ledge_option(&s, &menu), Some(Action::FAIR()));
    menu.ledge_jump_override = Action::empty();
    menu.mash_triggers = MashTrigger::LEDGE();
    assert_eq!(get_ledge_option(&s, &menu), Some(Action::AIR_DODGE()));
    menu.mash_triggers = MashTrigger::HIT();
    assert_eq!(get_ledge_option(&s, &menu), None);

    reset_ledge_case(&mut s);
    assert_eq!(s.case, LedgeOption::empty());
    assert!(weights_equal(&vec![1, 2], &vec![1, 2]));
    assert!(!weights_equal(&vec![1, 2], &vec![1, 3]));
    assert!(!weights_equal(&vec![1], &vec![1, 0]));
}

#[test]
fn throw_delays_and_case() {
    let mut counters: Vec<FrameCounter> = Vec::new();
    let t = counting_counter(&mut counters);
    let p = counting_counter(&mut counters);
    let mut menu = base_menu();
    menu.throw_delay = MedDelay::D45();
    menu.pummel_delay = MedDelay::D10();
    menu.throw_state = ThrowOption::DOWN();
    let mut s = ThrowState {
        throw_delay: NOT_SET,
        pummel_delay: NOT_SET,
        case: ThrowOption::empty(),
        throw_delay_counter: t,
        pummel_delay_counter: p,
    };
    roll_throw_delay(&mut s, &menu);
    roll_pummel_delay(&mut s, &menu);
    roll_throw_case(&mut s, &menu);
    assert_eq!((s.throw_delay, s.pummel_delay), (45, 10));
    assert_eq!(s.case, ThrowOption::DOWN());
    reset_throw_delay(&mut s, &mut counters);
    assert_eq!(s.throw_delay, NOT_SET);
    assert_eq!(s.pummel_delay, 10);
    assert_eq!(get_frame_count(&counters, t), 0);
    assert_eq!(get_frame_count(&counters, p), 1);
    reset_pummel_delay(&mut s, &mut counters);
    assert_eq!(s.pummel_delay, NOT_SET);
    assert_eq!(get_frame_count(&counters, p), 0);
    reset_throw_case(&mut s);
    assert_eq!(s.case, ThrowOption::empty());
}

fn shield_state() -> ShieldState {
    ShieldState {
        multi_hit_offset: 0,
        shield_delay: 0,
        was_in_shieldstun: false,
        suspend_shield: false,
        shield_decay: false,
    }
}

#[test]
fn shield_drop_and_aerials() {
    assert!(is_aerial(Action::NAIR()));
    assert!(is_aerial(Action::DAIR()));
    assert!(!is_aerial(Action::JAB()));
    assert!(!is_aerial(Action::NAIR().union(Action::FAIR())));
    assert!(!need_suspend_shield(Action::empty()));
    assert!(!need_suspend_shield(Action::U_SMASH()));
    assert!(!need_suspend_shield(Action::GRAB()));
    assert!(!need_suspend_shield(Action::SHIELD()));
    assert!(need_suspend_shield(Action::JUMP()));
    assert!(need_suspend_shield(Action::GRAB().union(Action::JUMP())));
    let mut s = shield_state();
    suspend_shield(&mut s, Action::SPOT_DODGE());
    assert!(s.suspend_shield);
    suspend_shield(&mut s, Action::GRAB());
    assert!(!s.suspend_shield);
    assert!(should_pause_shield_decay(&s));
    set_shield_decay(&mut s, true);
    assert!(!should_pause_shield_decay(&s));
}

#[test]
fn out_of_shield_offset_counts_hits() {
    let mut menu = base_menu();
    menu.oos_offset = Delay::D2();
    menu.reaction_time = Delay::D4();
    let mut s = shield_state();
    reset_oos_offset(&mut s, &menu);
    assert_eq!(s.multi_hit_offset, 3);
    assert!(!allow_oos(&s));
    for hit in 0..3 {
        handle_oos_offset(&mut s, &menu, true);
        assert_eq!(s.shield_delay, 4);
        // Staying in shieldstun does not count another hit.
        handle_oos_offset(&mut s, &menu, true);
        assert_eq!(s.multi_hit_offset, 2 - hit);
        handle_oos_offset(&mut s, &menu, false);
        assert!(!s.was_in_shieldstun);
    }
    assert!(allow_oos(&s));
    handle_oos_offset(&mut s, &menu, true);
    assert_eq!(s.multi_hit_offset, 0);
}

fn mash_state(counter: usize) -> MashState {
    MashState {
        queue: Vec::new(),
        current_aerial: Action::NAIR(),
        falling_aerial: false,
        aerial_delay: 0,
        aerial_delay_counter: counter,
        attack_angle: AttackAngle::empty(),
        full_hop: false,
        fast_fall: false,
    }
}

fn no_playback() -> PlaybackStatus {
    PlaybackStatus { is_playback: false, is_recording: false, is_standby: false }
}

#[test]
fn buffering_queues_action_and_follow_up() {
    let mut counters: Vec<FrameCounter> = Vec::new();
    let c = counting_counter(&mut counters);
    let mut menu = base_menu();
    menu.follow_up = Action::JUMP();
    menu.aerial_delay = Delay::D7();
    menu.attack_angle = AttackAngle::UP();
    let mut m = mash_state(c);
    assert_eq!(get_current_buffer(&m), Action::empty());
    buffer_action(&mut m, &menu, no_playback(), Action::FAIR());
    assert_eq!(m.queue, vec![Action::JUMP(), Action::FAIR()]);
    assert_eq!(get_current_buffer(&m), Action::FAIR());
    assert_eq!(m.aerial_delay, 7);
    assert_eq!(m.attack_angle, AttackAngle::UP());
    // Something is already buffered: nothing changes.
    buffer_action(&mut m, &menu, no_playback(), Action::DAIR());
    assert_eq!(m.queue, vec![Action::JUMP(), Action::FAIR()]);

    let mut shield = shield_state();
    reset(&mut m, &mut shield, &mut counters);
    assert_eq!(m.queue, vec![Action::JUMP()]);
    assert!(shield.suspend_shield);
    assert_eq!(m.aerial_delay, 0);
    assert_eq!(get_frame_count(&counters, c), 0);
    full_reset(&mut m, &mut shield, &mut counters);
    assert!(m.queue.is_empty());
    assert!(!shield.suspend_shield);
}

#[test]
fn buffering_is_refused_during_protected_playback() {
    let mut menu = base_menu();
    menu.follow_up = Action::empty();
    menu.playback_mash = OnOff::ON();
    let mut m = mash_state(0);
    let playing = PlaybackStatus { is_playback: true, is_recording: false, is_standby: false };
    buffer_action(&mut m, &menu, playing, Action::JUMP());
    assert!(m.queue.is_empty());
    buffer_action(&mut m, &menu, playing, Action::PLAYBACK_2());
    assert_eq!(m.queue, vec![Action::PLAYBACK_2()]);
    assert!(is_playback_queued(&m));
    assert_eq!(queued_playback_slot(&m), 1);
    clear_queue(&mut m);
    buffer_action(&mut m, &menu, no_playback(), Action::empty());
    assert!(m.queue.is_empty());
    menu.playback_mash = OnOff::OFF();
    buffer_action(&mut m, &menu, playing, Action::DASH_ATTACK());
    assert_eq!(m.queue, vec![Action::DASH_ATTACK()]);
    assert!(is_dashing_for_dash_attack(&m, true));
    assert!(!is_dashing_for_dash_attack(&m, false));
}

fn nothing() -> MashSituation {
    MashSituation {
        is_loading: false,
        in_tech: false,
        in_clatter: false,
        in_tumble: false,
        in_hitstun: false,
        in_parry: false,
        in_shieldstun: false,
        in_footstool: false,
        in_ledgetrump: false,
        in_landing: false,
        is_grounded: false,
        is_airborne: false,
        within_close_distance: false,
        within_mid_distance: false,
        within_far_distance: false,
    }
}

#[test]
fn buffered_action_by_situation() {
    let mut menu = base_menu();
    menu.mash_state = Action::SPOT_DODGE();
    menu.mash_triggers = MashTrigger::HIT().union(MashTrigger::GROUNDED());
    menu.tumble_override = Action::UP_B();
    menu.hitstun_override = Action::empty();
    menu.shieldstun_override = Action::empty();
    let mut s = nothing();
    assert_eq!(get_buffered_action(&menu, s), None);
    s.in_hitstun = true;
    assert_eq!(get_buffered_action(&menu, s), Some(Action::SPOT_DODGE()));
    s.in_tumble = true;
    assert_eq!(get_buffered_action(&menu, s), Some(Action::UP_B()));
    s.is_loading = true;
    assert_eq!(get_buffered_action(&menu, s), None);
    let mut s = nothing();
    s.in_shieldstun = true;
    assert_eq!(get_buffered_action(&menu, s), None);
    let mut s = nothing();
    s.is_grounded = true;
    assert_eq!(get_buffered_action(&menu, s), Some(Action::SPOT_DODGE()));
    s.is_grounded = false;
    s.is_airborne = true;
    assert_eq!(get_buffered_action(&menu, s), None);
    menu.mash_triggers = MashTrigger::ALWAYS();
    assert_eq!(get_buffered_action(&menu, s), Some(Action::SPOT_DODGE()));
}

#[test]
fn check_buffer_replaces_the_buffer() {
    let mut counters: Vec<FrameCounter> = Vec::new();
    let c = counting_counter(&mut counters);
    let mut menu = base_menu();
    menu.mash_state = Action::SPOT_DODGE();
    menu.mash_triggers = MashTrigger::ALWAYS();
    menu.follow_up = Action::empty();
    let mut m = mash_state(c);
    m.queue = vec![Action::JAB()];
    let mut sh = shield_state();
    // A dash attack that is beginning is not interrupted.
    check_buffer(&mut m, &mut sh, &mut counters, &menu, no_playback(), nothing(), true);
    assert_eq!(m.queue, vec![Action::JAB()]);
    check_buffer(&mut m, &mut sh, &mut counters, &menu, no_playback(), nothing(), false);
    assert_eq!(m.queue, vec![Action::SPOT_DODGE()]);
    assert_eq!(get_frame_count(&counters, c), 0);
    menu.mash_triggers = MashTrigger::empty();
    check_buffer(&mut m, &mut sh, &mut counters, &menu, no_playback(), nothing(), false);
    assert_eq!(m.queue, vec![Action::SPOT_DODGE()]);
}

#[test]
fn aerial_delay_waits() {
    let mut counters: Vec<FrameCounter> = Vec::new();
    let c = register_counter(&mut counters, FrameCounterType::InGame);
    let mut m = mash_state(c);
    assert!(!should_delay_aerial(&m, &mut counters, false, true));
    m.aerial_delay = 2;
    assert!(should_delay_aerial(&m, &mut counters, false, false));
    assert!(!should_delay_aerial(&m, &mut counters, true, true));
    assert!(should_delay_aerial(&m, &mut counters, false, true));
    tick_ingame(&mut counters);
    assert!(should_delay_aerial(&m, &mut counters, false, true));
    tick_ingame(&mut counters);
    assert!(!should_delay_aerial(&m, &mut counters, false, true));
}

#[test]
fn command_flags_until_the_action_is_out() {
    let mut counters: Vec<FrameCounter> = Vec::new();
    let c = register_counter(&mut counters, FrameCounterType::InGame);
    let mut m = mash_state(c);
    m.queue = vec![Action::JUMP(), Action::FAIR()];
    let mut sh = shield_state();
    assert_eq!(get_flag(&mut m, &mut sh, &mut counters, false, false, false, 8), 8);
    assert_eq!(m.queue.len(), 2);
    assert_eq!(get_flag(&mut m, &mut sh, &mut counters, true, false, false, 8), 8);
    assert_eq!(m.queue, vec![Action::JUMP()]);
    assert_eq!(get_flag(&mut m, &mut sh, &mut counters, false, true, true, 8), 0);
    assert_eq!(m.queue, vec![Action::JUMP()]);
    m.queue = vec![Action::JUMP(), Action::FAIR()];
    assert_eq!(get_flag(&mut m, &mut sh, &mut counters, true, false, true, 8), 8);
    assert!(m.queue.is_empty());
}

#[test]
fn training_reset_forgets_rolls() {
    let mut counters: Vec<FrameCounter> = Vec::new();
    let aerial = counting_counter(&mut counters);
    let ledge = counting_counter(&mut counters);
    let throw = counting_counter(&mut counters);
    let survivor = register_counter(&mut counters, FrameCounterType::InGameNoReset);
    training_modpack::frame_counter::start_counting(&mut counters, survivor);
    tick_ingame(&mut counters);
    let mut menu = base_menu();
    menu.sdi_state = Direction::UP();
    menu.shield_tilt = Direction::DOWN();
    let mut m = mash_state(aerial);
    m.queue = vec![Action::JAB()];
    let mut t = TrainingState {
        mash: m,
        shield: shield_state(),
        sdi: SdiState { counter: 3, direction: Direction::empty() },
        ledge: LedgeState { delay: 20, case: LedgeOption::ROLL(), delay_counter: ledge },
        throw: ThrowState { throw_delay: 5, pummel_delay: 10, case: ThrowOption::UP(), throw_delay_counter: throw, pummel_delay_counter: throw },
        shield_tilt: Direction::empty(),
    };
    on_reset(&mut t, &mut counters, &menu);
    assert!(t.mash.queue.is_empty());
    assert_eq!((t.sdi.counter, t.sdi.direction), (0, Direction::UP()));
    assert_eq!(t.ledge.delay, NOT_SET);
    assert_eq!(t.ledge.case, LedgeOption::ROLL());
    assert_eq!(t.throw.throw_delay, NOT_SET);
    assert_eq!(t.throw.pummel_delay, 10);
    assert_eq!(t.shield_tilt, Direction::DOWN());
    for i in [aerial, ledge, throw] {
        assert_eq!(get_frame_count(&counters, i), 0);
        assert!(!is_counting(&counters, i));
    }
    assert_eq!(get_frame_count(&counters, survivor), 1);
    assert!(is_counting(&counters, survivor));
}
