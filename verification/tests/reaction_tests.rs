use training_modpack::attack_angle::{mod_get_stick_dir, roll_direction};
use training_modpack::clatter::{handle_clatter, tick_rhythm, ClatterAction, ClatterState};
use training_modpack::crouch::mod_get_stick_y;
use training_modpack::fast_fall::{get_command_flag_cat, roll_fast_fall, should_fast_fall, FastFallObservation, FastFallState};
use training_modpack::frame_counter::{get_frame_count, register_counter, tick_ingame, FrameCounter, FrameCounterType};
use training_modpack::input_delay::{delay_inputs, handle_final_input_mapping};
use training_modpack::menu::base_menu;
use training_modpack::options::{
    AttackAngle, BoolFlag, ClatterFrequency, Delay, Direction, MashTrigger, OnOff, SdiFrequency,
};
use training_modpack::sdi::{check_hit_stop_delay_command, SdiDecision, SdiState};

#[test]
fn rhythm_presses_every_repeat_frames() {
    let mut c: u32 = 0;
    let presses: Vec<bool> = (0..10).map(|_| tick_rhythm(&mut c, 4)).collect();
    assert_eq!(
        presses,
        vec![false, false, true, false, false, false, true, false, false, false]
    );
    assert_eq!(c, 10 % 4);
    let mut big: u32 = u32::MAX - 1;
    assert!(!tick_rhythm(&mut big, u32::MAX));
    assert_eq!(big, 0);
}

#[test]
fn clatter_mashes_at_the_menu_rhythm() {
    let mut menu = base_menu();
    menu.clatter_strength = ClatterFrequency::HIGH();
    menu.mash_triggers = MashTrigger::CLATTER();
    let mut s = ClatterState { counter: 0, was_in_clatter: false };
    assert_eq!(handle_clatter(&mut s, &menu, true, true), ClatterAction { buffer_mash: false, press: true });
    assert_eq!(handle_clatter(&mut s, &menu, true, true), ClatterAction { buffer_mash: false, press: false });
    assert_eq!(handle_clatter(&mut s, &menu, true, true), ClatterAction { buffer_mash: false, press: true });
    assert!(s.was_in_clatter);
    assert_eq!(handle_clatter(&mut s, &menu, true, false), ClatterAction { buffer_mash: true, press: false });
    assert_eq!(handle_clatter(&mut s, &menu, true, false), ClatterAction { buffer_mash: false, press: false });
    menu.mash_triggers = MashTrigger::HIT();
    s.was_in_clatter = true;
    assert_eq!(handle_clatter(&mut s, &menu, true, false), ClatterAction { buffer_mash: false, press: false });
    assert_eq!(handle_clatter(&mut s, &menu, false, true), ClatterAction { buffer_mash: false, press: false });
    assert!(!s.was_in_clatter);
}

#[test]
fn sdi_inputs_the_rolled_direction() {
    let mut menu = base_menu();
    menu.sdi_strength = SdiFrequency::HIGH();
    menu.sdi_state = Direction::UP();
    let mut s = SdiState { counter: 0, direction: Direction::empty() };
    training_modpack::sdi::roll_direction(&mut s, &menu);
    assert_eq!(s.direction, Direction::UP());
    let decisions: Vec<SdiDecision> =
        (0..4).map(|_| check_hit_stop_delay_command(&mut s, &menu, true)).collect();
    assert_eq!(
        decisions,
        vec![SdiDecision::NoInput, SdiDecision::NoInput, SdiDecision::Input(3), SdiDecision::NoInput]
    );
    assert_eq!(check_hit_stop_delay_command(&mut s, &menu, false), SdiDecision::Passthrough);
    s.direction = Direction::NEUTRAL();
    s.counter = 2;
    assert_eq!(check_hit_stop_delay_command(&mut s, &menu, true), SdiDecision::NoInput);
}

#[test]
fn inputs_arrive_delay_frames_late() {
    let mut q: Vec<u32> = Vec::new();
    let mut outs = Vec::new();
    for frame in 1..=6u32 {
        let mut out = frame * 10;
        delay_inputs(&mut q, 0, &mut out, 0, 2);
        outs.push(out);
    }
    assert_eq!(outs, vec![0, 0, 10, 20, 30, 40]);
    assert_eq!(q, vec![60, 50]);
    let mut out = 99;
    delay_inputs(&mut q, 1, &mut out, 0, 2);
    assert_eq!(out, 99);
    assert_eq!(q, vec![60, 50]);
    let mut none: Vec<u32> = Vec::new();
    let mut out = 7;
    delay_inputs(&mut none, 0, &mut out, 0, 0);
    assert_eq!(out, 7);
    assert!(none.is_empty());
    let mut menu = base_menu();
    menu.input_delay = Delay::D1();
    let mut q: Vec<u32> = vec![5, 4, 3];
    let mut out = 6;
    handle_final_input_mapping(&mut q, &menu, 0, &mut out, 0);
    assert_eq!(out, 3);
    assert_eq!(q, vec![6]);
}

fn falling() -> FastFallObservation {
    FastFallObservation { is_cpu: true, is_airborne: true, is_falling: true, can_fast_fall: true, is_diving: false }
}

#[test]
fn fast_fall_after_delay() {
    let mut counters: Vec<FrameCounter> = Vec::new();
    let c = register_counter(&mut counters, FrameCounterType::InGame);
    let mut menu = base_menu();
    menu.fast_fall = BoolFlag::TRUE();
    menu.fast_fall_delay = Delay::D2();
    let mut s = FastFallState { fast_fall: false, delay: 0, delay_counter: c };
    roll_fast_fall(&mut s, &menu);
    assert!(should_fast_fall(&s));
    // Rising: the delay is rolled.
    let rising = FastFallObservation { is_falling: false, ..falling() };
    assert!(!get_command_flag_cat(&mut s, &mut counters, &menu, rising));
    assert_eq!(s.delay, 2);
    assert!(!get_command_flag_cat(&mut s, &mut counters, &menu, falling()));
    tick_ingame(&mut counters);
    assert!(!get_command_flag_cat(&mut s, &mut counters, &menu, falling()));
    tick_ingame(&mut counters);
    assert!(get_command_flag_cat(&mut s, &mut counters, &menu, falling()));
    assert_eq!(get_frame_count(&counters, c), 0);
    let diving = FastFallObservation { is_diving: true, ..falling() };
    assert!(!get_command_flag_cat(&mut s, &mut counters, &menu, diving));
    menu.fast_fall = BoolFlag::FALSE();
    roll_fast_fall(&mut s, &menu);
    assert!(!get_command_flag_cat(&mut s, &mut counters, &menu, falling()));
}

#[test]
fn angled_attacks_and_crouch() {
    let mut menu = base_menu();
    menu.attack_angle = AttackAngle::DOWN();
    let mut d = AttackAngle::empty();
    roll_direction(&mut d, &menu);
    assert_eq!(d, AttackAngle::DOWN());
    assert_eq!(mod_get_stick_dir(&d, true), Some(-1));
    assert_eq!(mod_get_stick_dir(&d, false), None);
    assert_eq!(mod_get_stick_dir(&AttackAngle::UP(), true), Some(1));
    assert_eq!(mod_get_stick_dir(&AttackAngle::NEUTRAL(), true), None);
    menu.crouch = OnOff::ON();
    assert_eq!(mod_get_stick_y(&menu, true, true), Some(-1));
    assert_eq!(mod_get_stick_y(&menu, true, false), None);
    assert_eq!(mod_get_stick_y(&menu, false, true), None);
    menu.crouch = OnOff::OFF();
    assert_eq!(mod_get_stick_y(&menu, true, true), None);
}
