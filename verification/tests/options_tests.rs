use training_modpack::options::{
    Action, BoolFlag, BuffOption, CharacterItem, ClatterFrequency, DamagePercent, Delay, Direction,
    LedgeOption, Locale, LongDelay, MashTrigger, MedDelay, OnOff, PlaybackSlot, RecordSlot,
    RecordingDuration, SaveStateSlot, SdiFrequency, UpdatePolicy,
};

#[test]
fn delays_map_to_frames() {
    assert_eq!(Delay::empty().into_delay(), 0);
    assert_eq!(Delay::D0().into_delay(), 0);
    assert_eq!(Delay::D17().into_delay(), 17);
    assert_eq!(Delay::D30().into_delay(), 30);
    assert_eq!(MedDelay::D45().into_meddelay(), 45);
    assert_eq!(MedDelay::D150().into_meddelay(), 150);
    assert_eq!(MedDelay::empty().into_meddelay(), 0);
    assert_eq!(LongDelay::D300().into_longdelay(), 300);
    assert_eq!(LongDelay::D10().into_longdelay(), 10);
    assert_eq!(RecordingDuration::F60().into_frames(), 60);
    assert_eq!(RecordingDuration::F150().into_frames(), 150);
    assert_eq!(RecordingDuration::F600().into_frames(), 600);
}

#[test]
fn direction_indices() {
    assert_eq!(Direction::empty().into_index(), 0);
    assert_eq!(Direction::OUT().into_index(), 1);
    assert_eq!(Direction::DOWN_OUT().into_index(), 8);
    assert_eq!(Direction::NEUTRAL().into_index(), 0);
    assert_eq!(Direction::LEFT().into_index(), 5);
    assert_eq!(Direction::RIGHT().into_index(), 1);
}

#[test]
fn playback_actions_and_slots() {
    assert!(Action::PLAYBACK_3().is_playback());
    assert!(!Action::NAIR().is_playback());
    assert!(!Action::PLAYBACK_1().union(Action::PLAYBACK_2()).is_playback());
    assert_eq!(Action::PLAYBACK_1().playback_slot(), 0);
    assert_eq!(Action::PLAYBACK_5().playback_slot(), 4);
    assert!(LedgeOption::PLAYBACK_2().is_playback());
    assert_eq!(LedgeOption::PLAYBACK_2().playback_slot(), Some(1));
    assert_eq!(LedgeOption::ROLL().playback_slot(), None);
}

#[test]
fn ledge_and_mash_trigger_defaults() {
    let l = LedgeOption::default();
    assert_eq!(l.to_vec(), vec![1, 1, 1, 1, 0, 0, 0, 0, 0, 0]);
    let m = MashTrigger::default();
    assert!(m.contains(&MashTrigger::HIT()));
    assert!(m.contains(&MashTrigger::SHIELDSTUN()));
    assert!(m.contains(&MashTrigger::TUMBLE()));
    assert!(m.contains(&MashTrigger::CLATTER()));
    assert!(!m.contains(&MashTrigger::LEDGE()));
    let d = DamagePercent::default();
    assert_eq!((d.LOWER, d.UPPER), (0, 150));
    assert_eq!(UpdatePolicy::default().to_string(), "Stable");
    assert_eq!(Locale::default().to_string(), "English (US)");
}

#[test]
fn on_off_values() {
    assert_eq!(OnOff::from_val(1).unwrap().to_vec(), OnOff::ON().to_vec());
    assert_eq!(OnOff::from_val(0).unwrap().to_vec(), OnOff::OFF().to_vec());
    assert!(OnOff::from_val(2).is_none());
    assert!(OnOff::ON().as_bool());
    assert!(!OnOff::OFF().as_bool());
    assert!(BoolFlag::TRUE().into_bool());
    assert!(!BoolFlag::FALSE().into_bool());
    assert!(!BoolFlag::all().into_bool());
}

#[test]
fn frequencies_and_items() {
    assert_eq!(SdiFrequency::NONE().into_u32(), u32::MAX);
    assert_eq!(SdiFrequency::NORMAL().into_u32(), 8);
    assert_eq!(SdiFrequency::MEDIUM().into_u32(), 6);
    assert_eq!(SdiFrequency::HIGH().into_u32(), 4);
    assert_eq!(ClatterFrequency::NONE().into_u32(), u32::MAX);
    assert_eq!(ClatterFrequency::MEDIUM().into_u32(), 5);
    assert_eq!(ClatterFrequency::HIGH().into_u32(), 2);
    assert_eq!(CharacterItem::NONE().as_idx(), 0);
    assert_eq!(CharacterItem::CPU_VARIATION_8().as_idx(), 16);
}

#[test]
fn slots_to_indices() {
    assert_eq!(SaveStateSlot::S3().into_idx(), Some(2));
    assert_eq!(RecordSlot::S5().into_idx(), Some(4));
    assert_eq!(PlaybackSlot::S1().into_idx(), Some(0));
    assert_eq!(PlaybackSlot::empty().into_idx(), None);
    assert_eq!(PlaybackSlot::all().into_idx(), None);
}

#[test]
fn buff_subsets() {
    let all = BuffOption::all();
    let hero = all.hero_buffs();
    assert_eq!(hero.to_vec()[0..4].to_vec(), vec![1, 1, 1, 1]);
    assert!(hero.to_vec()[4..].iter().all(|w| *w == 0));
    let shulk = all.shulk_buffs();
    assert_eq!(shulk.to_string(), "Jump + Speed + Shield + Buster + Smash");
    let wario = BuffOption::WAFT_HALF().union(BuffOption::OOMPH()).wario_buffs();
    assert_eq!(wario.to_string(), "Half Waft");
}

#[test]
fn locale_from_u8() {
    assert_eq!(Locale::from(0u8).to_string(), "English (US)");
    assert_eq!(Locale::from(1u8).to_string(), "French");
    assert_eq!(Locale::from(7u8).to_string(), "English (US)");
}

#[test]
fn flags_display_union_and_contains() {
    let d = Direction::UP().union(Direction::IN());
    assert_eq!(d.to_string(), "Up + In");
    assert_eq!(Direction::empty().to_string(), "");
    assert!(d.contains(&Direction::UP()));
    assert!(!d.contains(&Direction::DOWN()));
    let doubled = d.union(Direction::UP());
    assert_eq!(doubled.UP, 2);
    let saturated = Direction { UP: 250, ..Direction::empty() }.union(Direction { UP: 10, ..Direction::empty() });
    assert_eq!(saturated.UP, 255);
    let li = d.left_intersection(Direction::UP().union(Direction::DOWN()));
    assert_eq!(li.to_vec(), Direction::UP().to_vec());
}

#[test]
fn random_picks_are_selected_choices() {
    let d = Direction::UP().union(Direction::IN());
    for _ in 0..50 {
        let r = d.get_random();
        let v = r.to_vec();
        assert!(v == Direction::UP().to_vec() || v == Direction::IN().to_vec());
    }
    assert_eq!(Direction::empty().get_random().to_vec(), Direction::empty().to_vec());
    let only = Action::GRAB();
    assert_eq!(only.get_random().to_vec(), only.to_vec());
}
