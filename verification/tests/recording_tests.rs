use training_modpack::frame_counter::{register_counter, FrameCounter, FrameCounterType};
use training_modpack::input_record::{
    handle_recording_for_fighter, set_cpu_controls, PossessionTint, RecordingFighter, ReplayFrame,
    finish_recording, is_playback, is_recording, is_standby, lockout_record, playback, playback_ledge,
    possession_notification, record_input, should_mash_playback, start_from_combos, stop_playback,
    InputRecordState, InputRecorder, MappedInputs, PlaybackTiming, PossessionState, RecordInput,
    is_input_neutral,
};
use training_modpack::mash::MashState;
use training_modpack::menu::base_menu;
use training_modpack::notifications::{notification, Notification};
use training_modpack::options::{
    Action, AttackAngle, HitstunPlayback, OnOff, PlaybackSlot, RecordSlot, RecordTrigger,
    RecordingDuration, SaveStateMirroring, SaveStateSlot,
};
use training_modpack::resources::ResColor;
use training_modpack::shield::ShieldState;
use training_modpack::save_states::{
    end_copy_ability, get_slot, is_killing, is_loading, save_states, should_mirror, LoadStatus, SaveState,
    SaveStateControl, SaveStateEffects, SaveStateObservation, SaveStatePhases, SavedSituation,
};

#[test]
fn lockout_then_record() {
    let mut menu = base_menu();
    menu.recording_duration = RecordingDuration::F120();
    let mut rec = InputRecorder::new();
    assert!(!is_playback(&rec) && !is_recording(&rec) && !is_standby(&rec));
    rec.current_record_slot = 2;
    lockout_record(&mut rec, &menu);
    assert_eq!(rec.input_record, InputRecordState::Pause);
    assert_eq!(rec.possession, PossessionState::Lockout);
    assert_eq!(rec.lockout_frame, 30);
    assert_eq!(rec.current_frame_length, 120);
    assert_eq!(rec.frame_length_mapping, vec![60, 60, 120, 60, 60]);
    assert!(is_standby(&rec));
    // The slot's recorded inputs are emptied.
    assert!(rec.final_mapping[2].iter().all(|m| *m == MappedInputs::empty()));
    assert_eq!(rec.final_mapping[2].len(), 600);
    // A pending recording refuses playback.
    assert!(!playback(&mut rec, Some(0)));
    assert_eq!(rec.input_record, InputRecordState::Pause);
    // During lockout the player's inputs are blocked.
    let jab = MappedInputs { buttons: 1, lstick_x: 0, lstick_y: 0, rstick_x: 0, rstick_y: 0 };
    let r = record_input(&mut rec, jab);
    assert_eq!(r, RecordInput { store_at: None, capture_starting_status: false, block_player: true });
}

#[test]
fn lockout_empties_a_used_slot() {
    let mut menu = base_menu();
    menu.recording_duration = RecordingDuration::F60();
    let mut rec = InputRecorder::new();
    rec.current_record_slot = 1;
    rec.final_mapping[1][7] = MappedInputs { buttons: 4, lstick_x: 90, lstick_y: 0, rstick_x: 0, rstick_y: 0 };
    rec.final_mapping[3][7] = MappedInputs { buttons: 4, lstick_x: 90, lstick_y: 0, rstick_x: 0, rstick_y: 0 };
    lockout_record(&mut rec, &menu);
    assert_eq!(rec.final_mapping[1][7], MappedInputs::empty());
    assert_eq!(rec.final_mapping[3][7].buttons, 4);
}

#[test]
fn neutral_inputs() {
    let mut rec = InputRecorder::new();
    let m = |buttons: u32, lx: i8, ly: i8, rx: i8, ry: i8| MappedInputs { buttons, lstick_x: lx, lstick_y: ly, rstick_x: rx, rstick_y: ry };
    let cases = [
        (m(0, 0, 0, 0, 0), true),
        (m(0x8000, 0, 0, 0, 0), true),
        (m(0x8001, 0, 0, 0, 0), false),
        (m(1, 0, 0, 0, 0), false),
        (m(0, 23, -23, 23, -23), true),
        (m(0, 24, 0, 0, 0), false),
        (m(0, 0, -24, 0, 0), false),
        (m(0, 0, 0, -128, 0), false),
        (m(0, 0, 0, 0, 127), false),
    ];
    for (i, (inputs, neutral)) in cases.iter().enumerate() {
        rec.final_mapping[0][i] = *inputs;
        assert_eq!(is_input_neutral(&rec, i), *neutral, "case {}", i);
    }
}

#[test]
fn recording_starts_on_first_input() {
    let mut rec = InputRecorder::new();
    rec.input_record = InputRecordState::Record;
    rec.possession = PossessionState::Standby;
    let jab = MappedInputs { buttons: 1, lstick_x: 0, lstick_y: 0, rstick_x: 0, rstick_y: 0 };
    let up = MappedInputs { buttons: 0, lstick_x: 0, lstick_y: 100, rstick_x: 0, rstick_y: 0 };
    // Frame 0 has no input yet: the first input is stored there and standby goes on.
    let r = record_input(&mut rec, jab);
    assert_eq!(r, RecordInput { store_at: Some(0), capture_starting_status: false, block_player: true });
    assert_eq!(rec.possession, PossessionState::Standby);
    assert_eq!(rec.final_mapping[0][0], jab);
    // Frame 0 now has an input: the recording starts at frame 1.
    let r = record_input(&mut rec, up);
    assert_eq!(r, RecordInput { store_at: Some(1), capture_starting_status: true, block_player: true });
    assert_eq!(rec.possession, PossessionState::Cpu);
    assert_eq!(rec.input_record_frame, 1);
    assert_eq!(rec.final_mapping[0][1], up);
    assert_eq!(rec.final_mapping[0][0], jab);
    let mut idle = InputRecorder::new();
    let r = record_input(&mut idle, jab);
    assert_eq!(idle.final_mapping[0][0], MappedInputs::empty());
    assert_eq!(r, RecordInput { store_at: None, capture_starting_status: false, block_player: false });
}

#[test]
fn playback_from_slot_and_ledge() {
    let mut rec = InputRecorder::new();
    rec.frame_length_mapping[3] = 90;
    assert!(!playback(&mut rec, None));
    assert_eq!(rec.input_record, InputRecordState::Idle);
    assert!(playback(&mut rec, Some(3)));
    assert_eq!(rec.input_record, InputRecordState::Playback);
    assert_eq!(rec.current_playback_slot, 3);
    assert_eq!(rec.current_frame_length, 90);
    assert!(is_playback(&rec));
    playback_ledge(&mut rec, Some(1), true);
    assert_eq!(rec.buffer_frame, 4);
    assert_eq!(rec.current_frame_length, 60);
    playback_ledge(&mut rec, Some(1), false);
    assert_eq!(rec.buffer_frame, 5);
    stop_playback(&mut rec);
    assert_eq!(rec.input_record, InputRecordState::Idle);
    assert_eq!(rec.possession, PossessionState::Player);
}

#[test]
fn finishing_crops_trailing_neutral_frames() {
    let mut menu = base_menu();
    menu.recording_crop = OnOff::ON();
    menu.playback_loop = OnOff::OFF();
    let mut rec = InputRecorder::new();
    rec.input_record = InputRecordState::Record;
    rec.possession = PossessionState::Cpu;
    rec.current_record_slot = 1;
    rec.input_record_frame = 59;
    let press = MappedInputs { buttons: 2, lstick_x: 0, lstick_y: 0, rstick_x: 0, rstick_y: 0 };
    for f in 0..40 {
        rec.final_mapping[1][f] = press;
    }
    // A flick jump and a stick in its dead zone count as no input.
    rec.final_mapping[1][45] = MappedInputs { buttons: 0x8000, lstick_x: 10, lstick_y: 0, rstick_x: 0, rstick_y: 0 };
    assert!(finish_recording(&mut rec, &menu, true));
    assert_eq!(rec.frame_length_mapping, vec![60, 40, 60, 60, 60]);
    assert_eq!(rec.current_frame_length, 40);
    assert_eq!(rec.input_record, InputRecordState::Idle);
    assert_eq!(rec.possession, PossessionState::Player);
    // Not at the end yet: nothing happens.
    let mut rec = InputRecorder::new();
    rec.input_record = InputRecordState::Playback;
    rec.input_record_frame = 10;
    assert!(!finish_recording(&mut rec, &menu, true));
    assert_eq!(rec.input_record_frame, 10);
}

#[test]
fn looping_playback_starts_over() {
    let mut menu = base_menu();
    menu.playback_loop = OnOff::ON();
    let mut rec = InputRecorder::new();
    assert!(playback(&mut rec, Some(4)));
    rec.input_record_frame = 59;
    assert!(!finish_recording(&mut rec, &menu, false));
    assert_eq!(rec.input_record, InputRecordState::Playback);
    assert_eq!(rec.input_record_frame, 0);
    assert_eq!(rec.current_playback_slot, 4);
}

#[test]
fn possession_notifications() {
    let mut q: Vec<Notification> = Vec::new();
    notification(&mut q, "Input Recording".to_string(), "old".to_string(), 5);
    notification(&mut q, "Other".to_string(), "kept".to_string(), 5);
    let mut rec = InputRecorder::new();
    possession_notification(&rec, &mut q);
    assert_eq!(q.len(), 2);
    rec.possession = PossessionState::Standby;
    possession_notification(&rec, &mut q);
    assert_eq!(q.len(), 2);
    assert_eq!(q[0].header, "Other");
    assert_eq!(q[1].message, "Standby");
    assert_eq!(q[1].color, ResColor { r: 200, g: 8, b: 200, a: 255 });
    assert_eq!(q[1].length, 60);
    rec.possession = PossessionState::Player;
    rec.input_record = InputRecordState::Playback;
    rec.current_frame_length = 150;
    possession_notification(&rec, &mut q);
    assert_eq!(q.len(), 2);
    assert_eq!(q[1].message, "Playback");
    assert_eq!(q[1].length, 150);
}

#[test]
fn combos_pick_slot_and_start() {
    let mut menu = base_menu();
    menu.recording_slot = RecordSlot::S3();
    menu.playback_button_slots = PlaybackSlot::S5();
    menu.record_trigger = RecordTrigger::COMMAND();
    menu.recording_duration = RecordingDuration::F60();
    let mut rec = InputRecorder::new();
    start_from_combos(&mut rec, &menu, false, false);
    assert_eq!(rec.current_record_slot, 2);
    assert_eq!(rec.input_record, InputRecordState::Idle);
    start_from_combos(&mut rec, &menu, true, true);
    assert_eq!(rec.input_record, InputRecordState::Playback);
    assert_eq!(rec.current_playback_slot, 4);
    let mut rec = InputRecorder::new();
    start_from_combos(&mut rec, &menu, false, true);
    assert_eq!(rec.input_record, InputRecordState::Pause);
    menu.record_trigger = RecordTrigger::SAVESTATE();
    let mut rec = InputRecorder::new();
    start_from_combos(&mut rec, &menu, false, true);
    assert_eq!(rec.input_record, InputRecordState::Idle);
}

#[test]
fn queued_playback_waits_for_its_timing() {
    let mut menu = base_menu();
    menu.hitstun_playback = HitstunPlayback::HITSTOP();
    let mash = MashState {
        queue: vec![Action::PLAYBACK_3()],
        current_aerial: Action::NAIR(),
        falling_aerial: false,
        aerial_delay: 0,
        aerial_delay_counter: 0,
        attack_angle: AttackAngle::empty(),
        full_hop: false,
        fast_fall: false,
    };
    let in_hitstop = PlaybackTiming { in_hitstun: true, in_shieldstun: false, is_stop: true, can_transition: false };
    let mut rec = InputRecorder::new();
    should_mash_playback(&mut rec, &mash, &menu, in_hitstop);
    assert_eq!(rec.input_record, InputRecordState::Idle);
    let after_hitstop = PlaybackTiming { is_stop: false, ..in_hitstop };
    should_mash_playback(&mut rec, &mash, &menu, after_hitstop);
    assert_eq!(rec.input_record, InputRecordState::Playback);
    assert_eq!(rec.current_playback_slot, 2);
}

#[test]
fn save_state_slots_and_phases() {
    let mut menu = base_menu();
    menu.randomize_slots = SaveStateSlot::empty();
    menu.save_state_slot = SaveStateSlot::S4();
    assert_eq!(get_slot(&menu, 1), 3);
    menu.randomize_slots = SaveStateSlot::S1().union(SaveStateSlot::S2());
    assert_eq!(get_slot(&menu, 1), 1);
    menu.randomize_slots = SaveStateSlot::empty();
    let mut p = SaveStatePhases::new();
    assert!(!is_loading(&p, &menu, 0));
    p.cpu[3] = SaveState::WaitForAlive;
    assert!(is_killing(&p, &menu, 0));
    assert!(is_loading(&p, &menu, 0));
    p.cpu[3] = SaveState::WaitForCopyAbility;
    assert!(!is_killing(&p, &menu, 0));
    end_copy_ability(&mut p, &menu, 0, false);
    assert_eq!(p.cpu[3], SaveState::WaitForCopyAbility);
    end_copy_ability(&mut p, &menu, 0, true);
    assert_eq!(p.cpu[3], SaveState::NoAction);
    assert!(!is_loading(&p, &menu, 0));
}

#[test]
fn mirroring_follows_the_menu() {
    let mut menu = base_menu();
    menu.save_state_mirroring = SaveStateMirroring::NONE();
    assert!(!should_mirror(&menu, false));
    assert!(!should_mirror(&menu, true));
    menu.save_state_mirroring = SaveStateMirroring::ALTERNATE();
    assert!(should_mirror(&menu, false));
    assert!(!should_mirror(&menu, true));
    menu.save_state_mirroring = SaveStateMirroring::RANDOM();
    let _ = should_mirror(&menu, true);
}

#[test]
fn cpu_controls_follow_the_recorder() {
    let menu = base_menu();
    let mash = MashState {
        queue: vec![],
        current_aerial: Action::NAIR(),
        falling_aerial: false,
        aerial_delay: 0,
        aerial_delay_counter: 0,
        attack_angle: AttackAngle::empty(),
        full_hop: false,
        fast_fall: false,
    };
    let timing = PlaybackTiming { in_hitstun: false, in_shieldstun: false, is_stop: false, can_transition: true };
    let mut rec = InputRecorder::new();
    assert_eq!(set_cpu_controls(&mut rec, &mash, &menu, timing), None);
    // Lockout counts down, then the recording waits in standby.
    rec.input_record = InputRecordState::Pause;
    rec.possession = PossessionState::Lockout;
    rec.lockout_frame = 1;
    rec.current_record_slot = 2;
    assert_eq!(set_cpu_controls(&mut rec, &mash, &menu, timing), None);
    assert_eq!(rec.lockout_frame, 0);
    assert_eq!(
        set_cpu_controls(&mut rec, &mash, &menu, timing),
        Some(ReplayFrame { slot: 2, frame: 0, blank: false, inputs: MappedInputs::empty() })
    );
    assert_eq!(rec.input_record, InputRecordState::Record);
    assert_eq!(rec.possession, PossessionState::Standby);
    // Standby does not advance; the recording does.
    assert_eq!(set_cpu_controls(&mut rec, &mash, &menu, timing).unwrap().frame, 0);
    rec.possession = PossessionState::Cpu;
    set_cpu_controls(&mut rec, &mash, &menu, timing);
    assert_eq!(rec.input_record_frame, 1);
    // A buffered playback holds its first frame, blank once the option is in.
    let dodge = MappedInputs { buttons: 8, lstick_x: -100, lstick_y: 0, rstick_x: 0, rstick_y: 0 };
    rec.final_mapping[4][0] = dodge;
    assert!(playback(&mut rec, Some(4)));
    rec.buffer_frame = 5;
    let frames: Vec<ReplayFrame> = (0..6).map(|_| set_cpu_controls(&mut rec, &mash, &menu, timing).unwrap()).collect();
    assert_eq!(frames.iter().map(|f| f.frame).collect::<Vec<usize>>(), vec![0, 0, 0, 0, 0, 0]);
    assert_eq!(
        frames.iter().map(|f| f.blank).collect::<Vec<bool>>(),
        vec![false, false, true, true, true, false]
    );
    assert_eq!(rec.input_record_frame, 1);
    assert!(frames.iter().all(|f| f.slot == 4));
    assert_eq!(
        frames.iter().map(|f| f.inputs).collect::<Vec<MappedInputs>>(),
        vec![dodge, dodge, MappedInputs::empty(), MappedInputs::empty(), MappedInputs::empty(), dodge]
    );
    // The last frame is held.
    rec.input_record_frame = 59;
    set_cpu_controls(&mut rec, &mash, &menu, timing);
    assert_eq!(rec.input_record_frame, 59);
}

#[test]
fn queued_mash_playback_starts_from_cpu_controls() {
    let menu = base_menu();
    let mash = MashState {
        queue: vec![Action::PLAYBACK_1()],
        current_aerial: Action::NAIR(),
        falling_aerial: false,
        aerial_delay: 0,
        aerial_delay_counter: 0,
        attack_angle: AttackAngle::empty(),
        full_hop: false,
        fast_fall: false,
    };
    let timing = PlaybackTiming { in_hitstun: false, in_shieldstun: false, is_stop: false, can_transition: true };
    let mut rec = InputRecorder::new();
    assert_eq!(
        set_cpu_controls(&mut rec, &mash, &menu, timing),
        Some(ReplayFrame { slot: 0, frame: 0, blank: false, inputs: MappedInputs::empty() })
    );
    assert_eq!(rec.input_record, InputRecordState::Playback);
    assert_eq!(rec.input_record_frame, 1);
}

#[test]
fn recording_frame_for_each_fighter() {
    let mut counters: Vec<FrameCounter> = Vec::new();
    let c = register_counter(&mut counters, FrameCounterType::InGame);
    let mut menu = base_menu();
    menu.recording_slot = RecordSlot::S2();
    menu.record_trigger = RecordTrigger::COMMAND();
    menu.recording_duration = RecordingDuration::F90();
    menu.recording_crop = OnOff::OFF();
    menu.playback_loop = OnOff::OFF();
    let mut mash = MashState {
        queue: vec![Action::PLAYBACK_1()],
        current_aerial: Action::NAIR(),
        falling_aerial: false,
        aerial_delay: 0,
        aerial_delay_counter: c,
        attack_angle: AttackAngle::empty(),
        full_hop: false,
        fast_fall: false,
    };
    let mut shield = ShieldState { multi_hit_offset: 0, shield_delay: 0, was_in_shieldstun: false, suspend_shield: false, shield_decay: false };
    let mut q: Vec<Notification> = Vec::new();
    let player = RecordingFighter { is_player: true, is_cpu: false, is_nana: false };
    let cpu = RecordingFighter { is_player: false, is_cpu: true, is_nana: false };
    let mut rec = InputRecorder::new();
    // The record combination locks the recorder out for a new recording.
    let tint = handle_recording_for_fighter(&mut rec, &mut mash, &mut shield, &mut counters, &mut q, &menu, player, false, true);
    assert_eq!(tint, None);
    assert_eq!(rec.current_record_slot, 1);
    assert_eq!(rec.input_record, InputRecordState::Pause);
    assert_eq!(rec.frame_length_mapping, vec![60, 90, 60, 60, 60]);
    let tint = handle_recording_for_fighter(&mut rec, &mut mash, &mut shield, &mut counters, &mut q, &menu, cpu, false, false);
    assert_eq!(tint, Some(PossessionTint::Lockout));
    assert_eq!(q.len(), 1);
    assert_eq!(q[0].message, "Lockout");
    // A playback at its end stops and drops the queued mash playback.
    rec.input_record = InputRecordState::Playback;
    rec.possession = PossessionState::Player;
    rec.current_frame_length = 90;
    rec.input_record_frame = 89;
    let tint = handle_recording_for_fighter(&mut rec, &mut mash, &mut shield, &mut counters, &mut q, &menu, player, false, false);
    assert_eq!(tint, None);
    assert_eq!(rec.input_record, InputRecordState::Idle);
    assert!(mash.queue.is_empty());
    // Nana takes no part.
    let nana = RecordingFighter { is_player: true, is_cpu: false, is_nana: true };
    handle_recording_for_fighter(&mut rec, &mut mash, &mut shield, &mut counters, &mut q, &menu, nana, true, false);
    assert_eq!(rec.input_record, InputRecordState::Idle);
}

fn fighter(is_cpu: bool) -> SaveStateObservation {
    SaveStateObservation {
        is_cpu,
        is_operated_by_cpu: is_cpu,
        is_nana: false,
        is_popo: false,
        is_ptrainer: false,
        is_buffable: false,
        is_kirby: false,
        same_fighter_as_saved: true,
        is_dead: false,
        load_combo: false,
        save_combo: false,
        saved_situation: SavedSituation::Ground,
        in_wait: false,
        in_fall: false,
        in_fall_or_cliff_catch: false,
        in_standby: false,
        from_rebirth: false,
        buffs_done: false,
        pokemon_switched: false,
        copy_starting: false,
    }
}

fn save_state_menu() -> training_modpack::menu::TrainingModpackMenu {
    let mut menu = base_menu();
    menu.save_state_enable = OnOff::ON();
    menu.save_state_autoload = OnOff::OFF();
    menu.randomize_slots = SaveStateSlot::empty();
    menu.save_state_slot = SaveStateSlot::S2();
    menu.save_state_mirroring = SaveStateMirroring::NONE();
    menu.record_trigger = RecordTrigger::COMMAND();
    menu.save_state_playback = PlaybackSlot::empty();
    menu
}

#[test]
fn save_then_load_cycle() {
    let menu = save_state_menu();
    let mut p = SaveStatePhases::new();
    let mut control = SaveStateControl { random_slot: 0, mirrored: true };
    let mut rec = InputRecorder::new();
    let mut q: Vec<Notification> = Vec::new();
    // The player saves: both fighters are marked, the player is captured.
    let save = SaveStateObservation { save_combo: true, ..fighter(false) };
    let e = save_states(&mut p, &mut control, &mut rec, &mut q, &menu, save);
    assert!(e.capture && !e.write_file);
    assert!(!control.mirrored);
    assert_eq!(p.player[1], SaveState::NoAction);
    assert_eq!(p.cpu[1], SaveState::Save);
    assert_eq!(q.len(), 1);
    assert_eq!(q[0].message, "Saved Slot Slot 2");
    assert_eq!(q[0].length, 120);
    // The CPU is captured next and the file is written.
    let e = save_states(&mut p, &mut control, &mut rec, &mut q, &menu, fighter(true));
    assert!(e.capture && e.write_file);
    assert_eq!(p.cpu[1], SaveState::NoAction);
    // The player loads: both fighters die, revive and move back.
    let load = SaveStateObservation { load_combo: true, ..fighter(false) };
    assert_eq!(save_states(&mut p, &mut control, &mut rec, &mut q, &menu, load), SaveStateEffects {
        kill: false, ptrainer_death: false, on_death: false, move_to_saved: false, status_request: None,
        finish_load: false, apply_item: false, restore_charge: false, play_reset_sound: false,
        enable_pokemon_change: false, restart_buff: false, capture: false, write_file: false,
    });
    assert_eq!((p.player[1], p.cpu[1]), (SaveState::KillPlayer, SaveState::KillPlayer));
    assert!(is_killing(&p, &menu, 0));
    let e = save_states(&mut p, &mut control, &mut rec, &mut q, &menu, fighter(true));
    assert!(e.kill && e.ptrainer_death);
    assert_eq!(p.cpu[1], SaveState::WaitForAlive);
    let dead = SaveStateObservation { is_dead: true, ..fighter(true) };
    let e = save_states(&mut p, &mut control, &mut rec, &mut q, &menu, dead);
    assert!(!e.kill && e.ptrainer_death && !e.move_to_saved);
    assert_eq!(p.cpu[1], SaveState::WaitForAlive);
    let e = save_states(&mut p, &mut control, &mut rec, &mut q, &menu, fighter(true));
    assert!(e.on_death && e.move_to_saved);
    assert_eq!(e.status_request, Some(LoadStatus::Wait));
    assert_eq!(p.cpu[1], SaveState::PosMove);
    let standing = SaveStateObservation { in_wait: true, is_buffable: true, ..fighter(true) };
    let e = save_states(&mut p, &mut control, &mut rec, &mut q, &menu, standing);
    assert!(e.finish_load && e.restore_charge && e.play_reset_sound && !e.apply_item);
    assert_eq!(e.status_request, None);
    assert_eq!(p.cpu[1], SaveState::ApplyBuff);
    assert!(is_loading(&p, &menu, 0));
    let buffed = SaveStateObservation { buffs_done: true, ..fighter(true) };
    let e = save_states(&mut p, &mut control, &mut rec, &mut q, &menu, buffed);
    assert!(e.restart_buff);
    assert_eq!(p.cpu[1], SaveState::NoAction);
}

#[test]
fn save_states_off_and_autoload() {
    let mut menu = save_state_menu();
    menu.save_state_enable = OnOff::OFF();
    let mut p = SaveStatePhases::new();
    let mut control = SaveStateControl { random_slot: 0, mirrored: false };
    let mut rec = InputRecorder::new();
    let mut q: Vec<Notification> = Vec::new();
    let load = SaveStateObservation { load_combo: true, ..fighter(false) };
    save_states(&mut p, &mut control, &mut rec, &mut q, &menu, load);
    assert_eq!(p.player[1], SaveState::NoAction);
    menu.save_state_enable = OnOff::ON();
    menu.save_state_autoload = OnOff::ON();
    menu.save_state_mirroring = SaveStateMirroring::ALTERNATE();
    let died = SaveStateObservation { is_dead: true, ..fighter(true) };
    assert!(playback(&mut rec, Some(0)));
    save_states(&mut p, &mut control, &mut rec, &mut q, &menu, died);
    assert_eq!((p.player[1], p.cpu[1]), (SaveState::KillPlayer, SaveState::KillPlayer));
    assert!(control.mirrored);
    assert_eq!(rec.input_record, InputRecordState::Idle);
    // Nana never starts a load.
    let nana = SaveStateObservation { is_nana: true, load_combo: true, ..fighter(false) };
    let mut p2 = SaveStatePhases::new();
    save_states(&mut p2, &mut control, &mut rec, &mut q, &menu, nana);
    assert_eq!(p2.player[1], SaveState::NoAction);
}

#[test]
fn load_on_save_state_starts_recording() {
    let mut menu = save_state_menu();
    menu.record_trigger = RecordTrigger::SAVESTATE();
    menu.recording_duration = RecordingDuration::F90();
    let mut p = SaveStatePhases::new();
    p.player[1] = SaveState::PosMove;
    let mut control = SaveStateControl { random_slot: 0, mirrored: false };
    let mut rec = InputRecorder::new();
    let mut q: Vec<Notification> = Vec::new();
    let e = save_states(&mut p, &mut control, &mut rec, &mut q, &menu, fighter(false));
    assert!(e.move_to_saved);
    assert_eq!(rec.input_record, InputRecordState::Pause);
    assert_eq!(rec.current_frame_length, 90);
}

#[test]
fn empty_recording_is_cropped_to_nothing_and_the_recorder_goes_on() {
    let mut counters: Vec<FrameCounter> = Vec::new();
    let c = register_counter(&mut counters, FrameCounterType::InGame);
    let mut menu = base_menu();
    menu.recording_slot = RecordSlot::S1();
    menu.recording_crop = OnOff::ON();
    menu.playback_loop = OnOff::OFF();
    let mut mash = MashState {
        queue: vec![],
        current_aerial: Action::NAIR(),
        falling_aerial: false,
        aerial_delay: 0,
        aerial_delay_counter: c,
        attack_angle: AttackAngle::empty(),
        full_hop: false,
        fast_fall: false,
    };
    let mut shield = ShieldState { multi_hit_offset: 0, shield_delay: 0, was_in_shieldstun: false, suspend_shield: false, shield_decay: false };
    let mut q: Vec<Notification> = Vec::new();
    let player = RecordingFighter { is_player: true, is_cpu: false, is_nana: false };
    let mut rec = InputRecorder::new();
    rec.input_record = InputRecordState::Record;
    rec.possession = PossessionState::Cpu;
    rec.input_record_frame = 59;
    handle_recording_for_fighter(&mut rec, &mut mash, &mut shield, &mut counters, &mut q, &menu, player, false, false);
    assert_eq!(rec.input_record, InputRecordState::Idle);
    assert_eq!(rec.frame_length_mapping[0], 0);
    assert_eq!(rec.current_frame_length, 0);
    // Idle frames go on while the empty slot is not played.
    handle_recording_for_fighter(&mut rec, &mut mash, &mut shield, &mut counters, &mut q, &menu, player, false, false);
    assert_eq!(rec.input_record, InputRecordState::Idle);
    let timing = PlaybackTiming { in_hitstun: false, in_shieldstun: false, is_stop: false, can_transition: true };
    assert_eq!(set_cpu_controls(&mut rec, &mash, &menu, timing), None);
    assert_eq!(rec.input_record, InputRecordState::Idle);
}
