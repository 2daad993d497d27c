use training_modpack::frame_counter::{get_frame_count, register_counter, tick_ingame, FrameCounter, FrameCounterType};
use training_modpack::input_log::{
    bin_stick_values, insert_in_front, insert_in_place, log_inputs, DirectionStrength, FrameInputs, InputLog,
    LoggedSticks, NUM_LOGS,
};
use training_modpack::menu::base_menu;
use training_modpack::options::{InputDisplay, OnOff};
use training_modpack::metrics::{date_filter, date_filter_clause, flatten_device_events, DateFilterError};

#[test]
fn stick_bins_into_eight_directions() {
    assert_eq!(bin_stick_values(0, 0), (DirectionStrength::Centred, 0));
    assert_eq!(bin_stick_values(20, 29), (DirectionStrength::Centred, 0));
    assert_eq!(bin_stick_values(21, 0), (DirectionStrength::Weak, 0));
    assert_eq!(bin_stick_values(-21, 0), (DirectionStrength::Weak, 180));
    assert_eq!(bin_stick_values(0, 31), (DirectionStrength::Weak, 90));
    assert_eq!(bin_stick_values(0, -31), (DirectionStrength::Weak, 270));
    assert_eq!(bin_stick_values(0, 30), (DirectionStrength::Centred, 0));
    assert_eq!(bin_stick_values(100, 100), (DirectionStrength::Weak, 45));
    assert_eq!(bin_stick_values(-100, 100), (DirectionStrength::Weak, 135));
    assert_eq!(bin_stick_values(-100, -100), (DirectionStrength::Weak, 225));
    assert_eq!(bin_stick_values(100, -100), (DirectionStrength::Weak, 315));
    assert_eq!(bin_stick_values(20, 100), (DirectionStrength::Weak, 90));
    assert_eq!(bin_stick_values(-20, -100), (DirectionStrength::Weak, 270));
    assert_eq!(bin_stick_values(-128, 0), (DirectionStrength::Weak, 180));
    assert_eq!(bin_stick_values(127, 127), (DirectionStrength::Weak, 45));
}

#[test]
fn insert_shifts_and_drops_the_last_entry() {
    let mut a = [1, 2, 3, 4];
    insert_in_front(&mut a, 9);
    assert_eq!(a, [9, 1, 2, 3]);
    insert_in_place(&mut a, 7, 2);
    assert_eq!(a, [9, 1, 7, 2]);
    insert_in_place(&mut a, 5, 3);
    assert_eq!(a, [9, 1, 7, 5]);
    let mut one = [0u8];
    insert_in_front(&mut one, 8);
    assert_eq!(one, [8]);
}

#[test]
fn flatten_keeps_export_order() {
    let devices = Some(vec![
        Some(vec![Some(vec![1, 2]), None, Some(vec![3])]),
        None,
        Some(vec![]),
        Some(vec![Some(vec![4])]),
    ]);
    assert_eq!(flatten_device_events(&devices), vec![1, 2, 3, 4]);
    assert_eq!(flatten_device_events(&None), Vec::<u64>::new());
}

#[test]
fn filter_clause_for_parsed_bounds() {
    assert_eq!(date_filter_clause(None, None), "");
    assert_eq!(date_filter_clause(Some(5), None), "WHERE event_time >= 5");
    assert_eq!(date_filter_clause(None, Some(0)), "WHERE event_time < 86400000");
    assert_eq!(
        date_filter_clause(Some(-7), Some(-86400001)),
        "WHERE event_time >= -7 AND event_time < -1"
    );
}

#[test]
fn date_filter_parses_dates() {
    assert_eq!(date_filter(None, None), Ok(String::new()));
    assert_eq!(
        date_filter(Some("2021-09-01"), None),
        Ok("WHERE event_time >= 1630454400000".to_string())
    );
    assert_eq!(
        date_filter(Some("2021-09-01"), Some("2021-09-02")),
        Ok("WHERE event_time >= 1630454400000 AND event_time < 1630627200000".to_string())
    );
    assert_eq!(
        date_filter(None, Some("1970-01-01")),
        Ok("WHERE event_time < 86400000".to_string())
    );
}

#[test]
fn date_filter_errors() {
    assert_eq!(date_filter(Some("yesterday"), None), Err(DateFilterError::InvalidStartDate));
    assert_eq!(date_filter(Some("2021-13-01"), Some("2021-09-02")), Err(DateFilterError::InvalidStartDate));
    assert_eq!(date_filter(Some("bad"), Some("also bad")), Err(DateFilterError::InvalidStartDate));
    assert_eq!(date_filter(Some("2021-09-01"), Some("2021-02-30")), Err(DateFilterError::InvalidEndDate));
    assert_eq!(date_filter(None, Some("")), Err(DateFilterError::InvalidEndDate));
}

fn still() -> LoggedSticks {
    LoggedSticks { lx: 0, ly: 0, rx: 0, ry: 0 }
}

fn empty_log() -> InputLog {
    InputLog {
        ttl: 0,
        frames: 0,
        overall_frame: 0,
        smash_buttons: 0,
        smash_sticks: still(),
        raw_buttons: 0,
        raw_sticks: still(),
        status: 0,
        fighter_kind: 0,
    }
}

fn pressing(buttons: u64, lx: i8) -> FrameInputs {
    FrameInputs {
        smash_buttons: buttons,
        smash_sticks: LoggedSticks { lx, ly: 0, rx: 0, ry: 0 },
        raw_buttons: 0,
        raw_sticks: still(),
        status: 7,
        fighter_kind: 1,
    }
}

#[test]
fn logs_differences_in_what_is_displayed() {
    let mut menu = base_menu();
    menu.input_display = InputDisplay::SMASH();
    menu.input_display_status = OnOff::OFF();
    let a = InputLog { smash_buttons: 1, ..empty_log() };
    let b = InputLog { smash_sticks: LoggedSticks { lx: 5, ly: 0, rx: 0, ry: 0 }, ..empty_log() };
    assert!(a.is_different(&empty_log(), &menu));
    // A small stick movement stays in the same bin.
    assert!(!b.is_different(&empty_log(), &menu));
    let c = InputLog { status: 3, ..empty_log() };
    assert!(!c.is_different(&empty_log(), &menu));
    menu.input_display_status = OnOff::ON();
    assert!(c.is_different(&empty_log(), &menu));
    menu.input_display = InputDisplay::RAW();
    assert!(!a.is_different(&empty_log(), &menu));
    menu.input_display = InputDisplay::NONE();
    assert!(!c.is_different(&empty_log(), &menu));
}

#[test]
fn input_log_entries_age_and_shift() {
    let mut counters: Vec<FrameCounter> = Vec::new();
    let per_log = register_counter(&mut counters, FrameCounterType::InGameNoReset);
    let overall = register_counter(&mut counters, FrameCounterType::InGameNoReset);
    let mut menu = base_menu();
    menu.input_display = InputDisplay::SMASH();
    menu.input_display_status = OnOff::OFF();
    let mut logs = vec![InputLog { overall_frame: 99, ..empty_log() }; NUM_LOGS];
    let mut base: usize = 0;
    // Frame 0: pressing a button starts a new entry.
    log_inputs(&mut logs, &mut base, &mut counters, per_log, overall, &menu, 0, false, pressing(1, 0));
    assert_eq!(logs[0].smash_buttons, 1);
    assert_eq!(logs[0].ttl, 599);
    assert_eq!(logs[0].frames, 1);
    assert_eq!(base, 1);
    assert_eq!(get_frame_count(&counters, per_log), 1);
    // Same frame again: nothing changes.
    log_inputs(&mut logs, &mut base, &mut counters, per_log, overall, &menu, 0, false, pressing(2, 0));
    assert_eq!(logs[0].smash_buttons, 1);
    // Held for two more frames: the entry counts them.
    tick_ingame(&mut counters);
    log_inputs(&mut logs, &mut base, &mut counters, per_log, overall, &menu, 0, false, pressing(1, 3));
    tick_ingame(&mut counters);
    log_inputs(&mut logs, &mut base, &mut counters, per_log, overall, &menu, 0, false, pressing(1, 3));
    assert_eq!(logs[0].frames, 3);
    assert_eq!(logs[0].ttl, 597);
    assert_eq!(logs[1].overall_frame, 99);
    assert_eq!(base, 1);
    // Another player or an open quick menu is not logged.
    tick_ingame(&mut counters);
    log_inputs(&mut logs, &mut base, &mut counters, per_log, overall, &menu, 1, false, pressing(4, 0));
    log_inputs(&mut logs, &mut base, &mut counters, per_log, overall, &menu, 0, true, pressing(4, 0));
    assert_eq!(logs[0].smash_buttons, 1);
    log_inputs(&mut logs, &mut base, &mut counters, per_log, overall, &menu, 0, false, pressing(4, 0));
    assert_eq!(logs[0].smash_buttons, 4);
    assert_eq!(logs[1].smash_buttons, 1);
    assert_eq!(base, 2);
}

#[test]
fn test_extract_smash_open_devices() {
    // Two devices, each with one timestamp holding one event; events are
    // numbered by their place in the export.
    let records = ["data1", "data2"];
    let devices = Some(vec![
        Some(vec![Some(vec![0])]),
        Some(vec![Some(vec![1])]),
    ]);
    let flattened = flatten_device_events(&devices);
    assert_eq!(flattened.len(), 2);
    assert_eq!(records[flattened[0] as usize], "data1");
    assert_eq!(records[flattened[1] as usize], "data2");
}
