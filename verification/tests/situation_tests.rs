use training_modpack::frame_counter::{
    get_frame_count, register_counter, start_counting, tick_ingame, FrameCounter, FrameCounterType,
};
use training_modpack::input_record::{InputRecordState, InputRecorder};
use training_modpack::ledge::{
    force_option, is_enable_transition_term, LedgeDecision, LedgeObservation, LedgeState, NOT_SET,
};
use training_modpack::mash::{MashState, PlaybackStatus};
use training_modpack::menu::{base_menu, TrainingModpackMenu};
use training_modpack::options::{
    Action, AttackAngle, LedgeOption, LongDelay, MashTrigger, MedDelay, MissTechFlags, Shield, TechFlags,
    ThrowOption,
};
use training_modpack::shield::{
    check_button_off, check_button_on, get_param_float, handle_shield_decay, mod_handle_sub_guard_cont,
    needs_oos_handling_drop_shield, should_hold_shield, EscapeOption, GuardObservation, ShieldButtonQuery,
    ShieldParam, ShieldParamOverride, ShieldState,
};
use training_modpack::tech::{
    change_motion, get_command_flag_cat as tech_command_flag_cat, mod_handle_change_status, DownSituation,
    GetupStatus, RollMotion, RollWay, TechState, TechStatus, TechSurface,
};
use training_modpack::throw::{get_command_flag_throw_direction, ThrowDecision, ThrowObservation, ThrowState};

fn mash_with(queue: Vec<Action>, counter: usize) -> MashState {
    MashState {
        queue,
        current_aerial: Action::NAIR(),
        falling_aerial: false,
        aerial_delay: 0,
        aerial_delay_counter: counter,
        attack_angle: AttackAngle::empty(),
        full_hop: false,
        fast_fall: false,
    }
}

fn shield() -> ShieldState {
    ShieldState { multi_hit_offset: 0, shield_delay: 0, was_in_shieldstun: false, suspend_shield: false, shield_decay: false }
}

fn idle() -> PlaybackStatus {
    PlaybackStatus { is_playback: false, is_recording: false, is_standby: false }
}

fn quiet_menu() -> TrainingModpackMenu {
    let mut menu = base_menu();
    menu.mash_triggers = MashTrigger::empty();
    menu.follow_up = Action::empty();
    menu
}

#[test]
fn shield_drop_for_out_of_shield_options() {
    let mut menu = quiet_menu();
    menu.shield_state = Shield::HOLD();
    let mut s = shield();
    assert!(needs_oos_handling_drop_shield(&mash_with(vec![Action::JUMP()], 0), &mut s, &menu));
    assert!(needs_oos_handling_drop_shield(&mash_with(vec![Action::BAIR()], 0), &mut s, &menu));
    assert!(!needs_oos_handling_drop_shield(&mash_with(vec![Action::SHIELD()], 0), &mut s, &menu));
    assert!(!s.suspend_shield);
    assert!(needs_oos_handling_drop_shield(&mash_with(vec![Action::AIR_DODGE()], 0), &mut s, &menu));
    assert!(s.suspend_shield);
    menu.shield_state = Shield::NONE();
    assert!(needs_oos_handling_drop_shield(&mash_with(vec![Action::SHIELD()], 0), &mut s, &menu));
    assert!(!needs_oos_handling_drop_shield(&mash_with(vec![Action::GRAB()], 0), &mut s, &menu));
    assert!(!needs_oos_handling_drop_shield(&mash_with(vec![], 0), &mut s, &menu));
}

#[test]
fn shield_hold_and_buttons() {
    let mut menu = quiet_menu();
    menu.shield_state = Shield::INFINITE();
    let empty = mash_with(vec![], 0);
    assert!(should_hold_shield(&empty, &menu, idle(), true, false));
    assert!(!should_hold_shield(&empty, &menu, idle(), true, true));
    let playing = PlaybackStatus { is_playback: true, is_recording: false, is_standby: false };
    assert!(!should_hold_shield(&mash_with(vec![Action::SHIELD()], 0), &menu, playing, true, false));
    menu.shield_state = Shield::NONE();
    assert!(should_hold_shield(&mash_with(vec![Action::SHIELD()], 0), &menu, idle(), false, false));
    assert!(should_hold_shield(&mash_with(vec![Action::AIR_DODGE()], 0), &menu, idle(), true, false));
    assert!(!should_hold_shield(&mash_with(vec![Action::AIR_DODGE()], 0), &menu, idle(), false, false));

    menu.shield_state = Shield::HOLD();
    let q = ShieldButtonQuery { is_cpu: true, is_guard_button: true, is_grounded: true, is_loading: false };
    let mut s = shield();
    assert_eq!(check_button_on(&s, &empty, &menu, idle(), q), Some(true));
    assert_eq!(check_button_off(&mut s, &empty, &menu, idle(), q), Some(false));
    assert_eq!(check_button_off(&mut s, &mash_with(vec![Action::JUMP()], 0), &menu, idle(), q), None);
    let other = ShieldButtonQuery { is_guard_button: false, ..q };
    assert_eq!(check_button_on(&s, &empty, &menu, idle(), other), None);
    s.suspend_shield = true;
    assert_eq!(check_button_on(&s, &empty, &menu, idle(), q), None);
}

#[test]
fn shield_parameters() {
    let mut menu = quiet_menu();
    menu.shield_state = Shield::INFINITE();
    let mut s = shield();
    s.shield_decay = true;
    assert_eq!(handle_shield_decay(&s, &menu, ShieldParam::ShieldDec1), Some(ShieldParamOverride::NoDecay));
    assert_eq!(handle_shield_decay(&s, &menu, ShieldParam::ShieldRecovery1), Some(ShieldParamOverride::FullRecovery));
    assert_eq!(handle_shield_decay(&s, &menu, ShieldParam::Other), None);
    menu.shield_state = Shield::HOLD();
    assert_eq!(handle_shield_decay(&s, &menu, ShieldParam::ShieldDec1), None);
    s.shield_decay = false;
    assert_eq!(handle_shield_decay(&s, &menu, ShieldParam::ShieldDec1), Some(ShieldParamOverride::NoDecay));
    s.multi_hit_offset = 2;
    assert_eq!(get_param_float(&mut s, &menu, true, false, true, ShieldParam::Other), None);
    assert_eq!(s.multi_hit_offset, 1);
    assert_eq!(get_param_float(&mut s, &menu, false, false, true, ShieldParam::ShieldDec1), None);
}

#[test]
fn out_of_shield_after_shieldstun() {
    let mut counters: Vec<FrameCounter> = Vec::new();
    let reaction = register_counter(&mut counters, FrameCounterType::InGame);
    let aerial = register_counter(&mut counters, FrameCounterType::InGame);
    let mut menu = quiet_menu();
    menu.shield_state = Shield::HOLD();
    menu.mash_triggers = MashTrigger::SHIELDSTUN();
    menu.shieldstun_override = Action::ROLL_B();
    let obs = GuardObservation { is_cpu: true, was_in_shieldstun: true, is_shielding: true, in_parry: false, escape_enabled: true };
    let mut s = shield();
    s.multi_hit_offset = 1;
    let mut m = mash_with(vec![], aerial);
    // Hits left to hold: only shield decay starts.
    assert_eq!(mod_handle_sub_guard_cont(&mut s, &mut m, &mut counters, reaction, &menu, idle(), obs), None);
    assert!(s.shield_decay);
    assert!(m.queue.is_empty());
    s.multi_hit_offset = 0;
    s.shield_delay = 1;
    // The reaction time runs first.
    assert_eq!(mod_handle_sub_guard_cont(&mut s, &mut m, &mut counters, reaction, &menu, idle(), obs), None);
    tick_ingame(&mut counters);
    assert_eq!(
        mod_handle_sub_guard_cont(&mut s, &mut m, &mut counters, reaction, &menu, idle(), obs),
        Some(EscapeOption::RollBack)
    );
    assert_eq!(m.queue, vec![Action::ROLL_B()]);
    // Without an escape, the roll keeps the shield dropped.
    menu.shieldstun_override = Action::UP_B();
    s.shield_delay = 0;
    let no_escape = GuardObservation { escape_enabled: false, ..obs };
    assert_eq!(mod_handle_sub_guard_cont(&mut s, &mut m, &mut counters, reaction, &menu, idle(), no_escape), None);
    assert_eq!(m.queue, vec![Action::UP_B()]);
    menu.shieldstun_override = Action::GRAB();
    assert_eq!(mod_handle_sub_guard_cont(&mut s, &mut m, &mut counters, reaction, &menu, idle(), no_escape), None);
    assert!(!s.suspend_shield);
}

fn holding() -> ThrowObservation {
    ThrowObservation { is_cpu: true, is_holding: true, can_throw: true, in_catch_wait: true }
}

#[test]
fn throw_after_delay_with_pummels() {
    let mut counters: Vec<FrameCounter> = Vec::new();
    let t = register_counter(&mut counters, FrameCounterType::InGame);
    let p = register_counter(&mut counters, FrameCounterType::InGame);
    let a = register_counter(&mut counters, FrameCounterType::InGame);
    let mut menu = quiet_menu();
    menu.throw_state = ThrowOption::BACKWARD();
    menu.throw_delay = MedDelay::D5();
    menu.pummel_delay = MedDelay::empty();
    menu.mash_state = Action::JUMP();
    let mut s = ThrowState { throw_delay: NOT_SET, pummel_delay: NOT_SET, case: ThrowOption::empty(), throw_delay_counter: t, pummel_delay_counter: p };
    let mut m = mash_with(vec![], a);
    let mut sh = shield();
    let mut step = |s: &mut ThrowState, m: &mut MashState, c: &mut Vec<FrameCounter>, o: ThrowObservation| {
        get_command_flag_throw_direction(s, m, &mut sh, c, &menu, idle(), o)
    };
    assert_eq!(step(&mut s, &mut m, &mut counters, holding()), ThrowDecision::Nothing);
    assert_eq!((s.throw_delay, s.pummel_delay, s.case), (5, 0, ThrowOption::BACKWARD()));
    for _ in 0..5 {
        tick_ingame(&mut counters);
    }
    assert_eq!(step(&mut s, &mut m, &mut counters, holding()), ThrowDecision::Throw(ThrowOption::BACKWARD()));
    assert_eq!(m.queue, vec![Action::JUMP()]);
    let released = ThrowObservation { is_holding: false, ..holding() };
    assert_eq!(step(&mut s, &mut m, &mut counters, released), ThrowDecision::Nothing);
    assert_eq!((s.throw_delay, s.pummel_delay, s.case), (NOT_SET, NOT_SET, ThrowOption::empty()));
}

#[test]
fn pummel_while_waiting_to_throw() {
    let mut counters: Vec<FrameCounter> = Vec::new();
    let t = register_counter(&mut counters, FrameCounterType::InGame);
    let p = register_counter(&mut counters, FrameCounterType::InGame);
    let mut menu = quiet_menu();
    menu.throw_state = ThrowOption::UP();
    menu.throw_delay = MedDelay::D20();
    menu.pummel_delay = MedDelay::D5();
    let mut s = ThrowState { throw_delay: NOT_SET, pummel_delay: NOT_SET, case: ThrowOption::empty(), throw_delay_counter: t, pummel_delay_counter: p };
    let mut m = mash_with(vec![], 0);
    let mut sh = shield();
    assert_eq!(get_command_flag_throw_direction(&mut s, &mut m, &mut sh, &mut counters, &menu, idle(), holding()), ThrowDecision::Nothing);
    for _ in 0..5 {
        tick_ingame(&mut counters);
    }
    assert_eq!(get_command_flag_throw_direction(&mut s, &mut m, &mut sh, &mut counters, &menu, idle(), holding()), ThrowDecision::Pummel);
    let pummelling = ThrowObservation { in_catch_wait: false, ..holding() };
    assert_eq!(get_command_flag_throw_direction(&mut s, &mut m, &mut sh, &mut counters, &menu, idle(), pummelling), ThrowDecision::Nothing);
    menu.throw_state = ThrowOption::NONE();
    let mut s2 = ThrowState { throw_delay: NOT_SET, pummel_delay: NOT_SET, case: ThrowOption::empty(), throw_delay_counter: t, pummel_delay_counter: p };
    assert_eq!(get_command_flag_throw_direction(&mut s2, &mut m, &mut sh, &mut counters, &menu, idle(), holding()), ThrowDecision::Nothing);
    assert_eq!(s2.case, ThrowOption::NONE());
}

fn on_ledge(frame: i32) -> LedgeObservation {
    LedgeObservation {
        on_cliff: true,
        in_cliff_wait: true,
        from_cliff_catch: true,
        in_cliff_catch: false,
        flag_cliff: false,
        current_frame: frame,
        can_cliff_attack: false,
    }
}

#[test]
fn ledge_getup_after_delay() {
    let mut counters: Vec<FrameCounter> = Vec::new();
    let d = register_counter(&mut counters, FrameCounterType::InGame);
    let mut menu = quiet_menu();
    menu.ledge_state = LedgeOption::ROLL();
    menu.ledge_delay = LongDelay::D10();
    let mut s = LedgeState { delay: NOT_SET, case: LedgeOption::empty(), delay_counter: d };
    let mut rec = InputRecorder::new();
    let mut m = mash_with(vec![], 0);
    let mut sh = shield();
    // Not actionable and nothing to buffer yet.
    assert_eq!(force_option(&mut s, &mut rec, &mut m, &mut sh, &mut counters, &menu, on_ledge(5)), LedgeDecision::Nothing);
    assert_eq!((s.delay, s.case), (10, LedgeOption::ROLL()));
    // The climb is held back while the delay runs.
    assert_eq!(is_enable_transition_term(&s, &counters, &rec, &menu, true, true, true), Some(false));
    let actionable = LedgeObservation { can_cliff_attack: true, ..on_ledge(30) };
    assert_eq!(force_option(&mut s, &mut rec, &mut m, &mut sh, &mut counters, &menu, actionable), LedgeDecision::Nothing);
    for _ in 0..10 {
        tick_ingame(&mut counters);
    }
    assert_eq!(
        force_option(&mut s, &mut rec, &mut m, &mut sh, &mut counters, &menu, actionable),
        LedgeDecision::Getup(LedgeOption::ROLL())
    );
    assert_eq!(get_frame_count(&counters, d), 0);
    assert_eq!(is_enable_transition_term(&s, &counters, &rec, &menu, true, true, false), None);
    // Leaving the ledge forgets the roll.
    let off = LedgeObservation { on_cliff: false, ..actionable };
    assert_eq!(force_option(&mut s, &mut rec, &mut m, &mut sh, &mut counters, &menu, off), LedgeDecision::Nothing);
    assert_eq!((s.delay, s.case), (NOT_SET, LedgeOption::empty()));
}

#[test]
fn ledge_buffers_without_delay_and_plays_back() {
    let mut counters: Vec<FrameCounter> = Vec::new();
    let d = register_counter(&mut counters, FrameCounterType::InGame);
    start_counting(&mut counters, d);
    let mut menu = quiet_menu();
    menu.ledge_state = LedgeOption::JUMP();
    menu.ledge_delay = LongDelay::D0();
    menu.ledge_jump_override = Action::FAIR();
    let mut s = LedgeState { delay: NOT_SET, case: LedgeOption::empty(), delay_counter: d };
    let mut rec = InputRecorder::new();
    let mut m = mash_with(vec![], 0);
    let mut sh = shield();
    assert_eq!(force_option(&mut s, &mut rec, &mut m, &mut sh, &mut counters, &menu, on_ledge(19)), LedgeDecision::Getup(LedgeOption::JUMP()));
    assert_eq!(m.queue, vec![Action::FAIR()]);

    menu.ledge_state = LedgeOption::PLAYBACK_2();
    menu.ledge_delay = LongDelay::D0();
    let mut s = LedgeState { delay: NOT_SET, case: LedgeOption::empty(), delay_counter: d };
    assert_eq!(force_option(&mut s, &mut rec, &mut m, &mut sh, &mut counters, &menu, on_ledge(13)), LedgeDecision::Nothing);
    assert_eq!(rec.input_record, InputRecordState::Playback);
    assert_eq!(rec.current_playback_slot, 1);
    assert_eq!(rec.buffer_frame, 5);
}

#[test]
fn tech_on_each_surface() {
    let mut counters: Vec<FrameCounter> = Vec::new();
    let c = register_counter(&mut counters, FrameCounterType::InGame);
    let mut menu = quiet_menu();
    menu.mash_triggers = MashTrigger::TECH();
    menu.tech_action_override = Action::SPOT_DODGE();
    menu.tech_state = TechFlags::ROLL_B();
    let mut s = TechState { tech_roll_direction: training_modpack::options::Direction::empty(), miss_tech_roll_direction: training_modpack::options::Direction::empty(), frame_counter: c };
    let mut m = mash_with(vec![], 0);
    let mut sh = shield();
    assert_eq!(
        mod_handle_change_status(&mut s, &mut m, &mut sh, &mut counters, &menu, idle(), true, TechSurface::Ground, true),
        Some(TechStatus::PassiveRoll)
    );
    assert_eq!(m.queue, vec![Action::SPOT_DODGE()]);
    assert_eq!(change_motion(&s, &menu, true, RollMotion::TechRoll), Some(RollWay::Back));
    assert_eq!(
        mod_handle_change_status(&mut s, &mut m, &mut sh, &mut counters, &menu, idle(), true, TechSurface::Wall, true),
        None
    );
    assert_eq!(
        mod_handle_change_status(&mut s, &mut m, &mut sh, &mut counters, &menu, idle(), true, TechSurface::Ceiling, true),
        Some(TechStatus::PassiveCeil)
    );
    assert_eq!(
        mod_handle_change_status(&mut s, &mut m, &mut sh, &mut counters, &menu, idle(), true, TechSurface::Ground, false),
        None
    );
    menu.tech_state = TechFlags::ROLL_F();
    assert_eq!(
        mod_handle_change_status(&mut s, &mut m, &mut sh, &mut counters, &menu, idle(), true, TechSurface::Wall, true),
        Some(TechStatus::PassiveWallJump)
    );
    assert_eq!(change_motion(&s, &menu, true, RollMotion::TechRoll), Some(RollWay::Back));
    assert_eq!(
        mod_handle_change_status(&mut s, &mut m, &mut sh, &mut counters, &menu, idle(), true, TechSurface::Ground, true),
        Some(TechStatus::PassiveRoll)
    );
    assert_eq!(change_motion(&s, &menu, true, RollMotion::TechRoll), Some(RollWay::Forward));
    assert_eq!(change_motion(&s, &menu, true, RollMotion::Other), None);
    menu.tech_state = TechFlags::NO_TECH();
    assert_eq!(
        mod_handle_change_status(&mut s, &mut m, &mut sh, &mut counters, &menu, idle(), true, TechSurface::Ceiling, true),
        None
    );
}

#[test]
fn missed_tech_getups() {
    let mut counters: Vec<FrameCounter> = Vec::new();
    let c = register_counter(&mut counters, FrameCounterType::InGame);
    let mut menu = quiet_menu();
    menu.tech_state = TechFlags::NO_TECH();
    menu.miss_tech_state = MissTechFlags::ROLL_F();
    let mut s = TechState { tech_roll_direction: training_modpack::options::Direction::empty(), miss_tech_roll_direction: training_modpack::options::Direction::empty(), frame_counter: c };
    let mut m = mash_with(vec![], 0);
    let mut sh = shield();
    assert_eq!(
        tech_command_flag_cat(&mut s, &mut m, &mut sh, &mut counters, &menu, idle(), true, DownSituation::DownWait, 0),
        Some(GetupStatus::DownStandRoll)
    );
    assert_eq!(change_motion(&s, &menu, true, RollMotion::DownRollUp), Some(RollWay::Forward));
    assert_eq!(
        tech_command_flag_cat(&mut s, &mut m, &mut sh, &mut counters, &menu, idle(), true, DownSituation::SlipWait, 0),
        Some(GetupStatus::SlipStandForward)
    );
    assert_eq!(
        tech_command_flag_cat(&mut s, &mut m, &mut sh, &mut counters, &menu, idle(), true, DownSituation::LayDown, 2),
        None
    );
    tick_ingame(&mut counters);
    tick_ingame(&mut counters);
    assert_eq!(
        tech_command_flag_cat(&mut s, &mut m, &mut sh, &mut counters, &menu, idle(), true, DownSituation::LayDown, 2),
        Some(GetupStatus::DownStandRoll)
    );
    assert_eq!(
        tech_command_flag_cat(&mut s, &mut m, &mut sh, &mut counters, &menu, idle(), true, DownSituation::Other, 2),
        None
    );
    menu.tech_state = TechFlags::empty();
    assert_eq!(
        tech_command_flag_cat(&mut s, &mut m, &mut sh, &mut counters, &menu, idle(), true, DownSituation::DownWait, 0),
        None
    );
}
