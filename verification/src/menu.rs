//! The training menu: the settings it holds, their defaults, and the layout of
//! its tabs and pages.
use vstd::prelude::*;
use crate::flags::{no_flags, only_flag};
use crate::options::{
    Action, AttackAngle, BoolFlag, BuffOption, ButtonConfig, CharacterItem, ClatterFrequency, DamagePercent, Delay, Direction, HitstunPlayback, InputDisplay, LedgeOption, Locale, LongDelay, MashTrigger, MedDelay, MissTechFlags, OnOff, PlaybackSlot, RecordSlot, RecordTrigger, RecordingDuration, SaveDamage, SaveStateMirroring, SaveStateSlot, SdiFrequency, Shield, TechFlags, ThrowOption, UpdatePolicy,
};

verus! {

/// Highest weight a choice of a multiple-choice page can be given.
pub const TOGGLE_MAX: u8 = 5;

/// The two fighters of a training session.
#[derive(Clone, Copy, Debug, PartialEq, Eq, Structural)]
pub enum FighterId {
    Player,
    CPU,
}

/// How a menu page lets the player choose.
#[derive(Clone, Copy, Debug, PartialEq, Eq, Structural)]
pub enum SubMenuType {
    /// Exactly one choice.
    ToggleSingle,
    /// Any choices, each with a weight up to `TOGGLE_MAX`.
    ToggleMultiple,
    /// A range picked with a slider.
    Slider,
}

/// One choice of a menu page.
#[derive(Clone, Copy, Debug)]
pub struct Toggle {
    pub title: &'static str,
    pub value: u8,
    pub max: u8,
}

/// The range of a slider page.
#[derive(Clone, Copy, Debug, PartialEq, Eq, Structural)]
pub struct StatefulSlider {
    pub lower: u32,
    pub upper: u32,
}

/// One page of the menu.
pub struct SubMenu {
    pub title: &'static str,
    pub id: &'static str,
    pub help_text: &'static str,
    pub submenu_type: SubMenuType,
    pub toggles: Vec<Toggle>,
    pub slider: Option<StatefulSlider>,
}

/// One tab of the menu.
pub struct Tab {
    pub id: &'static str,
    pub title: &'static str,
    pub submenus: Vec<SubMenu>,
}

/// The whole menu: its tabs and which one is selected.
pub struct App {
    pub tabs: Vec<Tab>,
    pub selected_tab: Option<usize>,
}

/// Highest weight a toggle of a page of this type takes.
pub open spec fn toggle_max(t: SubMenuType) -> u8 {
    if t == SubMenuType::ToggleSingle { 1 } else { TOGGLE_MAX }
}

/// `s` is the page for an option with the given choice names.
pub open spec fn submenu_matches(
    s: SubMenu,
    names: Seq<Seq<char>>,
    title: Seq<char>,
    id: Seq<char>,
    help_text: Seq<char>,
    submenu_type: SubMenuType,
) -> bool {
    &&& s.title@ == title
    &&& s.id@ == id
    &&& s.help_text@ == help_text
    &&& s.submenu_type == submenu_type
    &&& if submenu_type == SubMenuType::Slider {
        &&& s.toggles@.len() == 0
        &&& s.slider == Some(StatefulSlider { lower: 0, upper: 150 })
    } else {
        &&& s.slider is None
        &&& s.toggles@.len() == names.len()
        &&& forall|i: int| 0 <= i < names.len() ==> {
            &&& (#[trigger] s.toggles@[i]).title@ == names[i]
            &&& s.toggles@[i].value == 0
            &&& s.toggles@[i].max == toggle_max(submenu_type)
        }
    }
}

/// The page for an option with the given choice names: a toggle per name
/// starting unselected, or an empty slider from 0 to 150.
pub fn submenu_from_names(
    names: Vec<&'static str>,
    title: &'static str,
    id: &'static str,
    help_text: &'static str,
    submenu_type: SubMenuType,
) -> (s: SubMenu)
    ensures
        submenu_matches(s, names@.map_values(|n: &str| n@), title@, id@, help_text@, submenu_type),
{
    let ghost nv = names@.map_values(|n: &str| n@);
    match submenu_type {
        SubMenuType::Slider => SubMenu {
            title,
            id,
            help_text,
            submenu_type,
            toggles: Vec::new(),
            slider: Some(StatefulSlider { lower: 0, upper: 150 }),
        },
        _ => {
            let max: u8 = match submenu_type {
                SubMenuType::ToggleSingle => 1,
                _ => TOGGLE_MAX,
            };
            let mut toggles: Vec<Toggle> = Vec::new();
            let mut i: usize = 0;
            while i < names.len()
                invariant
                    i <= names.len(),
                    max == toggle_max(submenu_type),
                    nv == names@.map_values(|n: &str| n@),
                    toggles@.len() == i,
                    forall|j: int| 0 <= j < i ==> {
                        &&& (#[trigger] toggles@[j]).title@ == nv[j]
                        &&& toggles@[j].value == 0
                        &&& toggles@[j].max == max
                    },
                decreases names.len() - i,
            {
                toggles.push(Toggle { title: names[i], value: 0, max });
                i = i + 1;
            }
            SubMenu { title, id, help_text, submenu_type, toggles, slider: None }
        },
    }
}

/// `t` is the tab "mash" with its pages.
pub open spec fn is_mash_tab(t: Tab) -> bool {
    &&& t.id@ == "mash"@
    &&& t.title@ == "menus.mash_settings.title"@
    &&& t.submenus@.len() == 14
    &&& submenu_matches(t.submenus@[0], Action::spec_names(), "menus.mash_settings.mash_toggles.title"@, "mash_state"@, "menus.mash_settings.mash_toggles.description"@, SubMenuType::ToggleMultiple)
    &&& submenu_matches(t.submenus@[1], Action::spec_names(), "menus.mash_settings.follow_up.title"@, "follow_up"@, "menus.mash_settings.follow_up.description"@, SubMenuType::ToggleMultiple)
    &&& submenu_matches(t.submenus@[2], MashTrigger::spec_names(), "menus.mash_settings.mash_triggers.title"@, "mash_triggers"@, "menus.mash_settings.mash_triggers.description"@, SubMenuType::ToggleSingle)
    &&& submenu_matches(t.submenus@[3], AttackAngle::spec_names(), "menus.mash_settings.attack_angle.title"@, "attack_angle"@, "menus.mash_settings.attack_angle.description"@, SubMenuType::ToggleMultiple)
    &&& submenu_matches(t.submenus@[4], ThrowOption::spec_names(), "menus.mash_settings.throw_options.title"@, "throw_state"@, "menus.mash_settings.throw_options.description"@, SubMenuType::ToggleMultiple)
    &&& submenu_matches(t.submenus@[5], MedDelay::spec_names(), "menus.mash_settings.throw_delay.title"@, "throw_delay"@, "menus.mash_settings.throw_delay.description"@, SubMenuType::ToggleMultiple)
    &&& submenu_matches(t.submenus@[6], MedDelay::spec_names(), "menus.mash_settings.pummel_delay.title"@, "pummel_delay"@, "menus.mash_settings.pummel_delay.description"@, SubMenuType::ToggleMultiple)
    &&& submenu_matches(t.submenus@[7], BoolFlag::spec_names(), "menus.mash_settings.falling_aerials.title"@, "falling_aerials"@, "menus.mash_settings.falling_aerials.description"@, SubMenuType::ToggleMultiple)
    &&& submenu_matches(t.submenus@[8], BoolFlag::spec_names(), "menus.mash_settings.full_hop.title"@, "full_hop"@, "menus.mash_settings.full_hop.description"@, SubMenuType::ToggleMultiple)
    &&& submenu_matches(t.submenus@[9], Delay::spec_names(), "menus.mash_settings.aerial_delay.title"@, "aerial_delay"@, "menus.mash_settings.aerial_delay.description"@, SubMenuType::ToggleMultiple)
    &&& submenu_matches(t.submenus@[10], BoolFlag::spec_names(), "menus.mash_settings.fast_fall.title"@, "fast_fall"@, "menus.mash_settings.fast_fall.description"@, SubMenuType::ToggleMultiple)
    &&& submenu_matches(t.submenus@[11], Delay::spec_names(), "menus.mash_settings.fast_fall_delay.title"@, "fast_fall_delay"@, "menus.mash_settings.fast_fall_delay.description"@, SubMenuType::ToggleMultiple)
    &&& submenu_matches(t.submenus@[12], Delay::spec_names(), "menus.mash_settings.oos_offset.title"@, "oos_offset"@, "menus.mash_settings.oos_offset.description"@, SubMenuType::ToggleMultiple)
    &&& submenu_matches(t.submenus@[13], Delay::spec_names(), "menus.mash_settings.reaction_time.title"@, "reaction_time"@, "menus.mash_settings.reaction_time.description"@, SubMenuType::ToggleMultiple)
}

/// The tab "mash".
pub fn mash_tab() -> (t: Tab)
    ensures
        is_mash_tab(t),
{
    let mut submenus: Vec<SubMenu> = Vec::new();
    submenus.push(Action::to_submenu("menus.mash_settings.mash_toggles.title", "mash_state", "menus.mash_settings.mash_toggles.description", SubMenuType::ToggleMultiple));
    submenus.push(Action::to_submenu("menus.mash_settings.follow_up.title", "follow_up", "menus.mash_settings.follow_up.description", SubMenuType::ToggleMultiple));
    submenus.push(MashTrigger::to_submenu("menus.mash_settings.mash_triggers.title", "mash_triggers", "menus.mash_settings.mash_triggers.description", SubMenuType::ToggleSingle));
    submenus.push(AttackAngle::to_submenu("menus.mash_settings.attack_angle.title", "attack_angle", "menus.mash_settings.attack_angle.description", SubMenuType::ToggleMultiple));
    submenus.push(ThrowOption::to_submenu("menus.mash_settings.throw_options.title", "throw_state", "menus.mash_settings.throw_options.description", SubMenuType::ToggleMultiple));
    submenus.push(MedDelay::to_submenu("menus.mash_settings.throw_delay.title", "throw_delay", "menus.mash_settings.throw_delay.description", SubMenuType::ToggleMultiple));
    submenus.push(MedDelay::to_submenu("menus.mash_settings.pummel_delay.title", "pummel_delay", "menus.mash_settings.pummel_delay.description", SubMenuType::ToggleMultiple));
    submenus.push(BoolFlag::to_submenu("menus.mash_settings.falling_aerials.title", "falling_aerials", "menus.mash_settings.falling_aerials.description", SubMenuType::ToggleMultiple));
    submenus.push(BoolFlag::to_submenu("menus.mash_settings.full_hop.title", "full_hop", "menus.mash_settings.full_hop.description", SubMenuType::ToggleMultiple));
    submenus.push(Delay::to_submenu("menus.mash_settings.aerial_delay.title", "aerial_delay", "menus.mash_settings.aerial_delay.description", SubMenuType::ToggleMultiple));
    submenus.push(BoolFlag::to_submenu("menus.mash_settings.fast_fall.title", "fast_fall", "menus.mash_settings.fast_fall.description", SubMenuType::ToggleMultiple));
    submenus.push(Delay::to_submenu("menus.mash_settings.fast_fall_delay.title", "fast_fall_delay", "menus.mash_settings.fast_fall_delay.description", SubMenuType::ToggleMultiple));
    submenus.push(Delay::to_submenu("menus.mash_settings.oos_offset.title", "oos_offset", "menus.mash_settings.oos_offset.description", SubMenuType::ToggleMultiple));
    submenus.push(Delay::to_submenu("menus.mash_settings.reaction_time.title", "reaction_time", "menus.mash_settings.reaction_time.description", SubMenuType::ToggleMultiple));
    Tab { id: "mash", title: "menus.mash_settings.title", submenus }
}

/// `t` is the tab "override" with its pages.
pub open spec fn is_override_tab(t: Tab) -> bool {
    &&& t.id@ == "override"@
    &&& t.title@ == "Override Settings"@
    &&& t.submenus@.len() == 13
    &&& submenu_matches(t.submenus@[0], Action::spec_names(), "Ledge Neutral Getup"@, "ledge_neutral_override"@, "Mash Actions to be performed after a Neutral Getup from ledge"@, SubMenuType::ToggleMultiple)
    &&& submenu_matches(t.submenus@[1], Action::spec_names(), "Ledge Roll"@, "ledge_roll_override"@, "Mash Actions to be performed after a Roll Getup from ledge"@, SubMenuType::ToggleMultiple)
    &&& submenu_matches(t.submenus@[2], Action::spec_names(), "Ledge Jump"@, "ledge_jump_override"@, "Mash Actions to be performed after a Jump Get up from ledge"@, SubMenuType::ToggleMultiple)
    &&& submenu_matches(t.submenus@[3], Action::spec_names(), "Ledge Attack"@, "ledge_attack_override"@, "Mash Actions to be performed after a Getup Attack from ledge"@, SubMenuType::ToggleMultiple)
    &&& submenu_matches(t.submenus@[4], Action::spec_names(), "Tech Action"@, "tech_action_override"@, "Mash Actions to be performed after any tech action"@, SubMenuType::ToggleMultiple)
    &&& submenu_matches(t.submenus@[5], Action::spec_names(), "Clatter"@, "clatter_override"@, "Mash Actions to be performed after leaving a clatter situation (grab, bury, etc)"@, SubMenuType::ToggleMultiple)
    &&& submenu_matches(t.submenus@[6], Action::spec_names(), "Tumble"@, "tumble_override"@, "Mash Actions to be performed after exiting a tumble state"@, SubMenuType::ToggleMultiple)
    &&& submenu_matches(t.submenus@[7], Action::spec_names(), "Hitstun"@, "hitstun_override"@, "Mash Actions to be performed after exiting a hitstun state"@, SubMenuType::ToggleMultiple)
    &&& submenu_matches(t.submenus@[8], Action::spec_names(), "Parry"@, "parry_override"@, "Mash Actions to be performed after a parry"@, SubMenuType::ToggleMultiple)
    &&& submenu_matches(t.submenus@[9], Action::spec_names(), "Shieldstun"@, "shieldstun_override"@, "Mash Actions to be performed after exiting a shieldstun state"@, SubMenuType::ToggleMultiple)
    &&& submenu_matches(t.submenus@[10], Action::spec_names(), "Footstool"@, "footstool_override"@, "Mash Actions to be performed after exiting a footstool state"@, SubMenuType::ToggleMultiple)
    &&& submenu_matches(t.submenus@[11], Action::spec_names(), "Landing"@, "landing_override"@, "Mash Actions to be performed after landing on the ground"@, SubMenuType::ToggleMultiple)
    &&& submenu_matches(t.submenus@[12], Action::spec_names(), "Ledge Trump"@, "trump_override"@, "Mash Actions to be performed after leaving a ledgetrump state"@, SubMenuType::ToggleMultiple)
}

/// The tab "override".
pub fn override_tab() -> (t: Tab)
    ensures
        is_override_tab(t),
{
    let mut submenus: Vec<SubMenu> = Vec::new();
    submenus.push(Action::to_submenu("Ledge Neutral Getup", "ledge_neutral_override", "Mash Actions to be performed after a Neutral Getup from ledge", SubMenuType::ToggleMultiple));
    submenus.push(Action::to_submenu("Ledge Roll", "ledge_roll_override", "Mash Actions to be performed after a Roll Getup from ledge", SubMenuType::ToggleMultiple));
    submenus.push(Action::to_submenu("Ledge Jump", "ledge_jump_override", "Mash Actions to be performed after a Jump Get up from ledge", SubMenuType::ToggleMultiple));
    submenus.push(Action::to_submenu("Ledge Attack", "ledge_attack_override", "Mash Actions to be performed after a Getup Attack from ledge", SubMenuType::ToggleMultiple));
    submenus.push(Action::to_submenu("Tech Action", "tech_action_override", "Mash Actions to be performed after any tech action", SubMenuType::ToggleMultiple));
    submenus.push(Action::to_submenu("Clatter", "clatter_override", "Mash Actions to be performed after leaving a clatter situation (grab, bury, etc)", SubMenuType::ToggleMultiple));
    submenus.push(Action::to_submenu("Tumble", "tumble_override", "Mash Actions to be performed after exiting a tumble state", SubMenuType::ToggleMultiple));
    submenus.push(Action::to_submenu("Hitstun", "hitstun_override", "Mash Actions to be performed after exiting a hitstun state", SubMenuType::ToggleMultiple));
    submenus.push(Action::to_submenu("Parry", "parry_override", "Mash Actions to be performed after a parry", SubMenuType::ToggleMultiple));
    submenus.push(Action::to_submenu("Shieldstun", "shieldstun_override", "Mash Actions to be performed after exiting a shieldstun state", SubMenuType::ToggleMultiple));
    submenus.push(Action::to_submenu("Footstool", "footstool_override", "Mash Actions to be performed after exiting a footstool state", SubMenuType::ToggleMultiple));
    submenus.push(Action::to_submenu("Landing", "landing_override", "Mash Actions to be performed after landing on the ground", SubMenuType::ToggleMultiple));
    submenus.push(Action::to_submenu("Ledge Trump", "trump_override", "Mash Actions to be performed after leaving a ledgetrump state", SubMenuType::ToggleMultiple));
    Tab { id: "override", title: "Override Settings", submenus }
}

/// `t` is the tab "defensive" with its pages.
pub open spec fn is_defensive_tab(t: Tab) -> bool {
    &&& t.id@ == "defensive"@
    &&& t.title@ == "Defensive Settings"@
    &&& t.submenus@.len() == 14
    &&& submenu_matches(t.submenus@[0], Direction::spec_names(), "Airdodge Direction"@, "air_dodge_dir"@, "Direction to angle airdodges"@, SubMenuType::ToggleMultiple)
    &&& submenu_matches(t.submenus@[1], Direction::spec_names(), "DI Direction"@, "di_state"@, "Direction to angle the directional influence during hitlag"@, SubMenuType::ToggleMultiple)
    &&& submenu_matches(t.submenus@[2], Direction::spec_names(), "SDI Direction"@, "sdi_state"@, "Direction to angle the smash directional influence during hitlag"@, SubMenuType::ToggleMultiple)
    &&& submenu_matches(t.submenus@[3], SdiFrequency::spec_names(), "SDI Strength"@, "sdi_strength"@, "Relative strength of the smash directional influence inputs"@, SubMenuType::ToggleMultiple)
    &&& submenu_matches(t.submenus@[4], ClatterFrequency::spec_names(), "Clatter Strength"@, "clatter_strength"@, "Configure how rapidly the CPU will mash out of grabs, buries, etc."@, SubMenuType::ToggleMultiple)
    &&& submenu_matches(t.submenus@[5], LedgeOption::spec_names(), "Ledge Options"@, "ledge_state"@, "Actions to be taken when on the ledge"@, SubMenuType::ToggleMultiple)
    &&& submenu_matches(t.submenus@[6], LongDelay::spec_names(), "Ledge Delay"@, "ledge_delay"@, "How many frames to delay the ledge option"@, SubMenuType::ToggleMultiple)
    &&& submenu_matches(t.submenus@[7], TechFlags::spec_names(), "Tech Options"@, "tech_state"@, "Actions to take when slammed into a hard surface"@, SubMenuType::ToggleMultiple)
    &&& submenu_matches(t.submenus@[8], MissTechFlags::spec_names(), "Mistech Options"@, "miss_tech_state"@, "Actions to take after missing a tech"@, SubMenuType::ToggleMultiple)
    &&& submenu_matches(t.submenus@[9], Shield::spec_names(), "Shield Toggles"@, "shield_state"@, "CPU Shield Behavior"@, SubMenuType::ToggleSingle)
    &&& submenu_matches(t.submenus@[10], Direction::spec_names(), "Shield Tilt"@, "shield_tilt"@, "Direction to tilt the shield"@, SubMenuType::ToggleSingle)
    &&& submenu_matches(t.submenus@[11], OnOff::spec_names(), "Crouch"@, "crouch"@, "Have the CPU crouch when on the ground"@, SubMenuType::ToggleSingle)
    &&& submenu_matches(t.submenus@[12], OnOff::spec_names(), "Dodge Staling"@, "stale_dodges"@, "Controls whether the CPU's dodges will worsen with repetitive use\n(Note: This can setting can cause combo behavior not possible in the original game)"@, SubMenuType::ToggleSingle)
    &&& submenu_matches(t.submenus@[13], OnOff::spec_names(), "Hide Tech Animations"@, "tech_hide"@, "Hides tech animations and effects after 7 frames to help with reacting to tech animation startup"@, SubMenuType::ToggleSingle)
}

/// The tab "defensive".
pub fn defensive_tab() -> (t: Tab)
    ensures
        is_defensive_tab(t),
{
    let mut submenus: Vec<SubMenu> = Vec::new();
    submenus.push(Direction::to_submenu("Airdodge Direction", "air_dodge_dir", "Direction to angle airdodges", SubMenuType::ToggleMultiple));
    submenus.push(Direction::to_submenu("DI Direction", "di_state", "Direction to angle the directional influence during hitlag", SubMenuType::ToggleMultiple));
    submenus.push(Direction::to_submenu("SDI Direction", "sdi_state", "Direction to angle the smash directional influence during hitlag", SubMenuType::ToggleMultiple));
    submenus.push(SdiFrequency::to_submenu("SDI Strength", "sdi_strength", "Relative strength of the smash directional influence inputs", SubMenuType::ToggleMultiple));
    submenus.push(ClatterFrequency::to_submenu("Clatter Strength", "clatter_strength", "Configure how rapidly the CPU will mash out of grabs, buries, etc.", SubMenuType::ToggleMultiple));
    submenus.push(LedgeOption::to_submenu("Ledge Options", "ledge_state", "Actions to be taken when on the ledge", SubMenuType::ToggleMultiple));
    submenus.push(LongDelay::to_submenu("Ledge Delay", "ledge_delay", "How many frames to delay the ledge option", SubMenuType::ToggleMultiple));
    submenus.push(TechFlags::to_submenu("Tech Options", "tech_state", "Actions to take when slammed into a hard surface", SubMenuType::ToggleMultiple));
    submenus.push(MissTechFlags::to_submenu("Mistech Options", "miss_tech_state", "Actions to take after missing a tech", SubMenuType::ToggleMultiple));
    submenus.push(Shield::to_submenu("Shield Toggles", "shield_state", "CPU Shield Behavior", SubMenuType::ToggleSingle));
    submenus.push(Direction::to_submenu("Shield Tilt", "shield_tilt", "Direction to tilt the shield", SubMenuType::ToggleSingle));
    submenus.push(OnOff::to_submenu("Crouch", "crouch", "Have the CPU crouch when on the ground", SubMenuType::ToggleSingle));
    submenus.push(OnOff::to_submenu("Dodge Staling", "stale_dodges", "Controls whether the CPU's dodges will worsen with repetitive use\n(Note: This can setting can cause combo behavior not possible in the original game)", SubMenuType::ToggleSingle));
    submenus.push(OnOff::to_submenu("Hide Tech Animations", "tech_hide", "Hides tech animations and effects after 7 frames to help with reacting to tech animation startup", SubMenuType::ToggleSingle));
    Tab { id: "defensive", title: "Defensive Settings", submenus }
}

/// `t` is the tab "input" with its pages.
pub open spec fn is_input_tab(t: Tab) -> bool {
    &&& t.id@ == "input"@
    &&& t.title@ == "Input Recording"@
    &&& t.submenus@.len() == 9
    &&& submenu_matches(t.submenus@[0], RecordSlot::spec_names(), "Recording Slot"@, "recording_slot"@, "Choose which slot to record into"@, SubMenuType::ToggleSingle)
    &&& submenu_matches(t.submenus@[1], RecordTrigger::spec_names(), "Recording Trigger"@, "record_trigger"@, "Whether to begin recording via button combination or upon loading a Save State"@, SubMenuType::ToggleSingle)
    &&& submenu_matches(t.submenus@[2], RecordingDuration::spec_names(), "Recording Duration"@, "recording_duration"@, "How long an input recording should last in frames"@, SubMenuType::ToggleSingle)
    &&& submenu_matches(t.submenus@[3], OnOff::spec_names(), "Recording Crop"@, "recording_crop"@, "Remove neutral input frames at the end of your recording"@, SubMenuType::ToggleSingle)
    &&& submenu_matches(t.submenus@[4], PlaybackSlot::spec_names(), "Playback Button Slots"@, "playback_button_slots"@, "Choose which slots to playback input recording upon pressing button combination"@, SubMenuType::ToggleMultiple)
    &&& submenu_matches(t.submenus@[5], HitstunPlayback::spec_names(), "Playback Hitstun Timing"@, "hitstun_playback"@, "When to begin playing back inputs when a hitstun mash trigger occurs"@, SubMenuType::ToggleSingle)
    &&& submenu_matches(t.submenus@[6], PlaybackSlot::spec_names(), "Save State Playback"@, "save_state_playback"@, "Choose which slots to playback input recording upon loading a save state"@, SubMenuType::ToggleMultiple)
    &&& submenu_matches(t.submenus@[7], OnOff::spec_names(), "Playback Mash Interrupt"@, "playback_mash"@, "End input playback when a mash trigger occurs"@, SubMenuType::ToggleSingle)
    &&& submenu_matches(t.submenus@[8], OnOff::spec_names(), "Playback Loop"@, "playback_loop"@, "Repeat triggered input playbacks indefinitely"@, SubMenuType::ToggleSingle)
}

/// The tab "input".
pub fn input_tab() -> (t: Tab)
    ensures
        is_input_tab(t),
{
    let mut submenus: Vec<SubMenu> = Vec::new();
    submenus.push(RecordSlot::to_submenu("Recording Slot", "recording_slot", "Choose which slot to record into", SubMenuType::ToggleSingle));
    submenus.push(RecordTrigger::to_submenu("Recording Trigger", "record_trigger", "Whether to begin recording via button combination or upon loading a Save State", SubMenuType::ToggleSingle));
    submenus.push(RecordingDuration::to_submenu("Recording Duration", "recording_duration", "How long an input recording should last in frames", SubMenuType::ToggleSingle));
    submenus.push(OnOff::to_submenu("Recording Crop", "recording_crop", "Remove neutral input frames at the end of your recording", SubMenuType::ToggleSingle));
    submenus.push(PlaybackSlot::to_submenu("Playback Button Slots", "playback_button_slots", "Choose which slots to playback input recording upon pressing button combination", SubMenuType::ToggleMultiple));
    submenus.push(HitstunPlayback::to_submenu("Playback Hitstun Timing", "hitstun_playback", "When to begin playing back inputs when a hitstun mash trigger occurs", SubMenuType::ToggleSingle));
    submenus.push(PlaybackSlot::to_submenu("Save State Playback", "save_state_playback", "Choose which slots to playback input recording upon loading a save state", SubMenuType::ToggleMultiple));
    submenus.push(OnOff::to_submenu("Playback Mash Interrupt", "playback_mash", "End input playback when a mash trigger occurs", SubMenuType::ToggleSingle));
    submenus.push(OnOff::to_submenu("Playback Loop", "playback_loop", "Repeat triggered input playbacks indefinitely", SubMenuType::ToggleSingle));
    Tab { id: "input", title: "Input Recording", submenus }
}

/// `t` is the tab "button" with its pages.
pub open spec fn is_button_tab(t: Tab) -> bool {
    &&& t.id@ == "button"@
    &&& t.title@ == "Button Config"@
    &&& t.submenus@.len() == 5
    &&& submenu_matches(t.submenus@[0], OnOff::spec_names(), "Menu Open Start Press"@, "menu_open_start_press"@, "Hold start or press minus to open the mod menu. To open the original menu, press start.\nThe default menu open option is always available as Hold DPad Up + Press B."@, SubMenuType::ToggleSingle)
    &&& submenu_matches(t.submenus@[1], ButtonConfig::spec_names(), "Save State Save"@, "save_state_save"@, "Hold any one button and press the others to trigger"@, SubMenuType::ToggleSingle)
    &&& submenu_matches(t.submenus@[2], ButtonConfig::spec_names(), "Save State Load"@, "save_state_load"@, "Hold any one button and press the others to trigger"@, SubMenuType::ToggleSingle)
    &&& submenu_matches(t.submenus@[3], ButtonConfig::spec_names(), "Input Record"@, "input_record"@, "Hold any one button and press the others to trigger"@, SubMenuType::ToggleSingle)
    &&& submenu_matches(t.submenus@[4], ButtonConfig::spec_names(), "Input Playback"@, "input_playback"@, "Hold any one button and press the others to trigger"@, SubMenuType::ToggleSingle)
}

/// The tab "button".
pub fn button_tab() -> (t: Tab)
    ensures
        is_button_tab(t),
{
    let mut submenus: Vec<SubMenu> = Vec::new();
    submenus.push(OnOff::to_submenu("Menu Open Start Press", "menu_open_start_press", "Hold start or press minus to open the mod menu. To open the original menu, press start.\nThe default menu open option is always available as Hold DPad Up + Press B.", SubMenuType::ToggleSingle));
    submenus.push(ButtonConfig::to_submenu("Save State Save", "save_state_save", "Hold any one button and press the others to trigger", SubMenuType::ToggleSingle));
    submenus.push(ButtonConfig::to_submenu("Save State Load", "save_state_load", "Hold any one button and press the others to trigger", SubMenuType::ToggleSingle));
    submenus.push(ButtonConfig::to_submenu("Input Record", "input_record", "Hold any one button and press the others to trigger", SubMenuType::ToggleSingle));
    submenus.push(ButtonConfig::to_submenu("Input Playback", "input_playback", "Hold any one button and press the others to trigger", SubMenuType::ToggleSingle));
    Tab { id: "button", title: "Button Config", submenus }
}

/// `t` is the tab "save_state" with its pages.
pub open spec fn is_save_state_tab(t: Tab) -> bool {
    &&& t.id@ == "save_state"@
    &&& t.title@ == "Save States"@
    &&& t.submenus@.len() == 11
    &&& submenu_matches(t.submenus@[0], SaveStateMirroring::spec_names(), "Mirroring"@, "save_state_mirroring"@, "Flips save states in the left-right direction across the stage center"@, SubMenuType::ToggleSingle)
    &&& submenu_matches(t.submenus@[1], OnOff::spec_names(), "Auto Save States"@, "save_state_autoload"@, "Load save state when any fighter dies"@, SubMenuType::ToggleSingle)
    &&& submenu_matches(t.submenus@[2], SaveDamage::spec_names(), "Save Dmg (CPU)"@, "save_damage_cpu"@, "Should save states retain CPU damage"@, SubMenuType::ToggleSingle)
    &&& submenu_matches(t.submenus@[3], DamagePercent::spec_names(), "Dmg Range (CPU)"@, "save_damage_limits_cpu"@, "Limits on Random Damage to apply to the CPU when loading a save state"@, SubMenuType::Slider)
    &&& submenu_matches(t.submenus@[4], SaveDamage::spec_names(), "Save Dmg (Player)"@, "save_damage_player"@, "Should save states retain player damage"@, SubMenuType::ToggleSingle)
    &&& submenu_matches(t.submenus@[5], DamagePercent::spec_names(), "Dmg Range (Player)"@, "save_damage_limits_player"@, "Limits on random damage to apply to the player when loading a save state"@, SubMenuType::Slider)
    &&& submenu_matches(t.submenus@[6], OnOff::spec_names(), "Enable Save States"@, "save_state_enable"@, "Enable save states! Save a state with Shield+Down Taunt, load it with Shield+Up Taunt."@, SubMenuType::ToggleSingle)
    &&& submenu_matches(t.submenus@[7], SaveStateSlot::spec_names(), "Save State Slot"@, "save_state_slot"@, "Save and load states from different slots."@, SubMenuType::ToggleSingle)
    &&& submenu_matches(t.submenus@[8], SaveStateSlot::spec_names(), "Randomize Slots"@, "randomize_slots"@, "Slots to randomize when loading save state."@, SubMenuType::ToggleMultiple)
    &&& submenu_matches(t.submenus@[9], CharacterItem::spec_names(), "Character Item"@, "character_item"@, "The item to give to the player's fighter when loading a save state"@, SubMenuType::ToggleSingle)
    &&& submenu_matches(t.submenus@[10], BuffOption::spec_names(), "Buff Options"@, "buff_state"@, "Buff(s) to be applied to the respective fighters when loading a save state"@, SubMenuType::ToggleSingle)
}

/// The tab "save_state".
pub fn save_state_tab() -> (t: Tab)
    ensures
        is_save_state_tab(t),
{
    let mut submenus: Vec<SubMenu> = Vec::new();
    submenus.push(SaveStateMirroring::to_submenu("Mirroring", "save_state_mirroring", "Flips save states in the left-right direction across the stage center", SubMenuType::ToggleSingle));
    submenus.push(OnOff::to_submenu("Auto Save States", "save_state_autoload", "Load save state when any fighter dies", SubMenuType::ToggleSingle));
    submenus.push(SaveDamage::to_submenu("Save Dmg (CPU)", "save_damage_cpu", "Should save states retain CPU damage", SubMenuType::ToggleSingle));
    submenus.push(DamagePercent::to_submenu("Dmg Range (CPU)", "save_damage_limits_cpu", "Limits on Random Damage to apply to the CPU when loading a save state", SubMenuType::Slider));
    submenus.push(SaveDamage::to_submenu("Save Dmg (Player)", "save_damage_player", "Should save states retain player damage", SubMenuType::ToggleSingle));
    submenus.push(DamagePercent::to_submenu("Dmg Range (Player)", "save_damage_limits_player", "Limits on random damage to apply to the player when loading a save state", SubMenuType::Slider));
    submenus.push(OnOff::to_submenu("Enable Save States", "save_state_enable", "Enable save states! Save a state with Shield+Down Taunt, load it with Shield+Up Taunt.", SubMenuType::ToggleSingle));
    submenus.push(SaveStateSlot::to_submenu("Save State Slot", "save_state_slot", "Save and load states from different slots.", SubMenuType::ToggleSingle));
    submenus.push(SaveStateSlot::to_submenu("Randomize Slots", "randomize_slots", "Slots to randomize when loading save state.", SubMenuType::ToggleMultiple));
    submenus.push(CharacterItem::to_submenu("Character Item", "character_item", "The item to give to the player's fighter when loading a save state", SubMenuType::ToggleSingle));
    submenus.push(BuffOption::to_submenu("Buff Options", "buff_state", "Buff(s) to be applied to the respective fighters when loading a save state", SubMenuType::ToggleSingle));
    Tab { id: "save_state", title: "Save States", submenus }
}

/// `t` is the tab "misc" with its pages.
pub open spec fn is_misc_tab(t: Tab) -> bool {
    &&& t.id@ == "misc"@
    &&& t.title@ == "menus.misc_settings.tab_name"@
    &&& t.submenus@.len() == 10
    &&& submenu_matches(t.submenus@[0], OnOff::spec_names(), "Frame Advantage"@, "frame_advantage"@, "Display the time difference between when the player is actionable and the CPU is actionable\nNote that the CPU must not be mashing any options."@, SubMenuType::ToggleSingle)
    &&& submenu_matches(t.submenus@[1], OnOff::spec_names(), "Hitbox Visualization"@, "hitbox_vis"@, "Display a visual representation for active hitboxes (hides other visual effects)"@, SubMenuType::ToggleSingle)
    &&& submenu_matches(t.submenus@[2], InputDisplay::spec_names(), "Input Display"@, "input_display"@, "Log inputs in a queue on the left of the screen"@, SubMenuType::ToggleSingle)
    &&& submenu_matches(t.submenus@[3], OnOff::spec_names(), "Input Display Status"@, "input_display_status"@, "Group input logs by status in which they occurred"@, SubMenuType::ToggleSingle)
    &&& submenu_matches(t.submenus@[4], Delay::spec_names(), "Input Delay"@, "input_delay"@, "Frames to delay player inputs by"@, SubMenuType::ToggleSingle)
    &&& submenu_matches(t.submenus@[5], OnOff::spec_names(), "Stage Hazards"@, "stage_hazards"@, "Turn stage hazards on/off"@, SubMenuType::ToggleSingle)
    &&& submenu_matches(t.submenus@[6], OnOff::spec_names(), "HUD"@, "hud"@, "Show/hide elements of the UI"@, SubMenuType::ToggleSingle)
    &&& submenu_matches(t.submenus@[7], UpdatePolicy::spec_names(), "Auto-Update"@, "update_policy"@, "What type of Training Modpack updates to automatically apply. (Console Only!)"@, SubMenuType::ToggleSingle)
    &&& submenu_matches(t.submenus@[8], OnOff::spec_names(), "L+R+A Reset"@, "lra_reset"@, "Reset Training Room when pressing L+R+A"@, SubMenuType::ToggleSingle)
    &&& submenu_matches(t.submenus@[9], Locale::spec_names(), "menus.misc_settings.language.title"@, "selected_locale"@, "menus.misc_settings.language.help_text"@, SubMenuType::ToggleSingle)
}

/// The tab "misc".
pub fn misc_tab() -> (t: Tab)
    ensures
        is_misc_tab(t),
{
    let mut submenus: Vec<SubMenu> = Vec::new();
    submenus.push(OnOff::to_submenu("Frame Advantage", "frame_advantage", "Display the time difference between when the player is actionable and the CPU is actionable\nNote that the CPU must not be mashing any options.", SubMenuType::ToggleSingle));
    submenus.push(OnOff::to_submenu("Hitbox Visualization", "hitbox_vis", "Display a visual representation for active hitboxes (hides other visual effects)", SubMenuType::ToggleSingle));
    submenus.push(InputDisplay::to_submenu("Input Display", "input_display", "Log inputs in a queue on the left of the screen", SubMenuType::ToggleSingle));
    submenus.push(OnOff::to_submenu("Input Display Status", "input_display_status", "Group input logs by status in which they occurred", SubMenuType::ToggleSingle));
    submenus.push(Delay::to_submenu("Input Delay", "input_delay", "Frames to delay player inputs by", SubMenuType::ToggleSingle));
    submenus.push(OnOff::to_submenu("Stage Hazards", "stage_hazards", "Turn stage hazards on/off", SubMenuType::ToggleSingle));
    submenus.push(OnOff::to_submenu("HUD", "hud", "Show/hide elements of the UI", SubMenuType::ToggleSingle));
    submenus.push(UpdatePolicy::to_submenu("Auto-Update", "update_policy", "What type of Training Modpack updates to automatically apply. (Console Only!)", SubMenuType::ToggleSingle));
    submenus.push(OnOff::to_submenu("L+R+A Reset", "lra_reset", "Reset Training Room when pressing L+R+A", SubMenuType::ToggleSingle));
    submenus.push(Locale::to_submenu("menus.misc_settings.language.title", "selected_locale", "menus.misc_settings.language.help_text", SubMenuType::ToggleSingle));
    Tab { id: "misc", title: "menus.misc_settings.tab_name", submenus }
}

/// The training menu with all its tabs, the first one selected.
pub fn create_app() -> (app: App)
    ensures
        app.tabs@.len() == 7,
        is_mash_tab(app.tabs@[0]),
        is_override_tab(app.tabs@[1]),
        is_defensive_tab(app.tabs@[2]),
        is_input_tab(app.tabs@[3]),
        is_button_tab(app.tabs@[4]),
        is_save_state_tab(app.tabs@[5]),
        is_misc_tab(app.tabs@[6]),
        app.selected_tab == Some(0usize),
{
    let mut tabs: Vec<Tab> = Vec::new();
    tabs.push(mash_tab());
    tabs.push(override_tab());
    tabs.push(defensive_tab());
    tabs.push(input_tab());
    tabs.push(button_tab());
    tabs.push(save_state_tab());
    tabs.push(misc_tab());
    let mut app = App { tabs, selected_tab: None };
    if app.selected_tab.is_none() {
        app.selected_tab = Some(0);
    }
    app
}

/// Every setting of the in-game menu.
#[derive(Clone, Copy, Debug)]
pub struct TrainingModpackMenu {
    pub aerial_delay: Delay,
    pub air_dodge_dir: Direction,
    pub attack_angle: AttackAngle,
    pub buff_state: BuffOption,
    pub character_item: CharacterItem,
    pub clatter_strength: ClatterFrequency,
    pub crouch: OnOff,
    pub di_state: Direction,
    pub falling_aerials: BoolFlag,
    pub fast_fall_delay: Delay,
    pub fast_fall: BoolFlag,
    pub follow_up: Action,
    pub frame_advantage: OnOff,
    pub full_hop: BoolFlag,
    pub hitbox_vis: OnOff,
    pub input_display: InputDisplay,
    pub input_display_status: OnOff,
    pub hud: OnOff,
    pub input_delay: Delay,
    pub ledge_delay: LongDelay,
    pub ledge_state: LedgeOption,
    pub mash_state: Action,
    pub mash_triggers: MashTrigger,
    pub miss_tech_state: MissTechFlags,
    pub oos_offset: Delay,
    pub pummel_delay: MedDelay,
    pub reaction_time: Delay,
    pub save_damage_cpu: SaveDamage,
    pub save_damage_limits_cpu: DamagePercent,
    pub save_damage_player: SaveDamage,
    pub save_damage_limits_player: DamagePercent,
    pub save_state_autoload: OnOff,
    pub save_state_enable: OnOff,
    pub save_state_slot: SaveStateSlot,
    pub randomize_slots: SaveStateSlot,
    pub save_state_mirroring: SaveStateMirroring,
    pub save_state_playback: PlaybackSlot,
    pub sdi_state: Direction,
    pub sdi_strength: SdiFrequency,
    pub shield_state: Shield,
    pub shield_tilt: Direction,
    pub stage_hazards: OnOff,
    pub tech_state: TechFlags,
    pub throw_delay: MedDelay,
    pub throw_state: ThrowOption,
    pub ledge_neutral_override: Action,
    pub ledge_roll_override: Action,
    pub ledge_jump_override: Action,
    pub ledge_attack_override: Action,
    pub tech_action_override: Action,
    pub clatter_override: Action,
    pub tumble_override: Action,
    pub hitstun_override: Action,
    pub parry_override: Action,
    pub shieldstun_override: Action,
    pub footstool_override: Action,
    pub landing_override: Action,
    pub trump_override: Action,
    pub recording_slot: RecordSlot,
    pub record_trigger: RecordTrigger,
    pub recording_duration: RecordingDuration,
    pub playback_button_slots: PlaybackSlot,
    pub hitstun_playback: HitstunPlayback,
    pub playback_mash: OnOff,
    pub playback_loop: OnOff,
    pub menu_open_start_press: OnOff,
    pub save_state_save: ButtonConfig,
    pub save_state_load: ButtonConfig,
    pub input_record: ButtonConfig,
    pub input_playback: ButtonConfig,
    pub recording_crop: OnOff,
    pub stale_dodges: OnOff,
    pub tech_hide: OnOff,
    pub update_policy: UpdatePolicy,
    pub lra_reset: OnOff,
    pub selected_locale: Locale,
}

/// The menu settings and the defaults they are reset to.
#[derive(Clone, Copy, Debug)]
pub struct MenuJsonStruct {
    pub menu: TrainingModpackMenu,
    pub defaults_menu: TrainingModpackMenu,
}

/// The menu as first installed.
pub fn base_menu() -> (m: TrainingModpackMenu)
    ensures
        no_flags(m.aerial_delay@),
        no_flags(m.air_dodge_dir@),
        no_flags(m.attack_angle@),
        no_flags(m.buff_state@),
        m.character_item@ == only_flag(17, 0),
        m.clatter_strength@ == only_flag(4, 0),
        m.crouch@ == only_flag(2, 1),
        no_flags(m.di_state@),
        m.falling_aerials@ == only_flag(2, 1),
        no_flags(m.fast_fall_delay@),
        m.fast_fall@ == only_flag(2, 1),
        no_flags(m.follow_up@),
        m.frame_advantage@ == only_flag(2, 1),
        m.full_hop@ == only_flag(2, 0),
        m.hitbox_vis@ == only_flag(2, 1),
        m.input_display@ == only_flag(4, 1),
        m.input_display_status@ == only_flag(2, 1),
        m.hud@ == only_flag(2, 0),
        m.input_delay@ == only_flag(31, 0),
        no_flags(m.ledge_delay@),
        m.ledge_state@ == seq![1u8, 1, 1, 1, 0, 0, 0, 0, 0, 0],
        no_flags(m.mash_state@),
        m.mash_triggers@ == seq![1u8, 1, 0, 1, 0, 0, 0, 1, 0, 0, 0, 0, 0, 0, 0, 0, 0],
        m.miss_tech_state@ == Seq::new(4, |i: int| 1u8),
        no_flags(m.oos_offset@),
        no_flags(m.pummel_delay@),
        no_flags(m.reaction_time@),
        m.save_damage_cpu@ == only_flag(3, 0),
        m.save_damage_limits_cpu@ == seq![0u8, 150],
        m.save_damage_player@ == only_flag(3, 0),
        m.save_damage_limits_player@ == seq![0u8, 150],
        m.save_state_autoload@ == only_flag(2, 1),
        m.save_state_enable@ == only_flag(2, 0),
        m.save_state_slot@ == only_flag(5, 0),
        no_flags(m.randomize_slots@),
        m.save_state_mirroring@ == only_flag(3, 0),
        no_flags(m.save_state_playback@),
        no_flags(m.sdi_state@),
        m.sdi_strength@ == only_flag(4, 0),
        m.shield_state@ == only_flag(4, 0),
        no_flags(m.shield_tilt@),
        m.stage_hazards@ == only_flag(2, 1),
        m.tech_state@ == Seq::new(4, |i: int| 1u8),
        no_flags(m.throw_delay@),
        m.throw_state@ == only_flag(5, 0),
        no_flags(m.ledge_neutral_override@),
        no_flags(m.ledge_roll_override@),
        no_flags(m.ledge_jump_override@),
        no_flags(m.ledge_attack_override@),
        no_flags(m.tech_action_override@),
        no_flags(m.clatter_override@),
        no_flags(m.tumble_override@),
        no_flags(m.hitstun_override@),
        no_flags(m.parry_override@),
        no_flags(m.shieldstun_override@),
        no_flags(m.footstool_override@),
        no_flags(m.landing_override@),
        no_flags(m.trump_override@),
        m.recording_slot@ == only_flag(5, 0),
        m.record_trigger@ == only_flag(2, 0),
        m.recording_duration@ == only_flag(19, 3),
        m.playback_button_slots@ == only_flag(5, 0),
        m.hitstun_playback@ == only_flag(3, 0),
        m.playback_mash@ == only_flag(2, 0),
        m.playback_loop@ == only_flag(2, 1),
        m.menu_open_start_press@ == only_flag(2, 0),
        m.save_state_save@ == seq![0u8, 0, 0, 0, 0, 0, 1, 0, 0, 1, 0, 0, 0, 0, 0, 0],
        m.save_state_load@ == seq![0u8, 0, 0, 0, 0, 0, 1, 0, 1, 0, 0, 0, 0, 0, 0, 0],
        m.input_record@ == seq![0u8, 0, 0, 0, 0, 0, 0, 1, 0, 1, 0, 0, 0, 0, 0, 0],
        m.input_playback@ == seq![0u8, 0, 0, 0, 0, 0, 0, 1, 1, 0, 0, 0, 0, 0, 0, 0],
        m.recording_crop@ == only_flag(2, 0),
        m.stale_dodges@ == only_flag(2, 0),
        m.tech_hide@ == only_flag(2, 1),
        m.update_policy@ == only_flag(3, 0),
        m.lra_reset@ == only_flag(2, 0),
        m.selected_locale@ == only_flag(2, 0),
{
    TrainingModpackMenu {
        aerial_delay: Delay::empty(),
        air_dodge_dir: Direction::empty(),
        attack_angle: AttackAngle::empty(),
        buff_state: BuffOption::empty(),
        character_item: CharacterItem::NONE(),
        clatter_strength: ClatterFrequency::NONE(),
        crouch: OnOff::OFF(),
        di_state: Direction::empty(),
        falling_aerials: BoolFlag::FALSE(),
        fast_fall_delay: Delay::empty(),
        fast_fall: BoolFlag::FALSE(),
        follow_up: Action::empty(),
        frame_advantage: OnOff::OFF(),
        full_hop: BoolFlag::TRUE(),
        hitbox_vis: OnOff::OFF(),
        input_display: InputDisplay::SMASH(),
        input_display_status: OnOff::OFF(),
        hud: OnOff::ON(),
        input_delay: Delay::D0(),
        ledge_delay: LongDelay::empty(),
        ledge_state: LedgeOption::default(),
        mash_state: Action::empty(),
        mash_triggers: MashTrigger::default(),
        miss_tech_state: MissTechFlags::all(),
        oos_offset: Delay::empty(),
        pummel_delay: MedDelay::empty(),
        reaction_time: Delay::empty(),
        save_damage_cpu: SaveDamage::DEFAULT(),
        save_damage_limits_cpu: DamagePercent::default(),
        save_damage_player: SaveDamage::DEFAULT(),
        save_damage_limits_player: DamagePercent::default(),
        save_state_autoload: OnOff::OFF(),
        save_state_enable: OnOff::ON(),
        save_state_slot: SaveStateSlot::S1(),
        randomize_slots: SaveStateSlot::empty(),
        save_state_mirroring: SaveStateMirroring::NONE(),
        save_state_playback: PlaybackSlot::empty(),
        sdi_state: Direction::empty(),
        sdi_strength: SdiFrequency::NONE(),
        shield_state: Shield::NONE(),
        shield_tilt: Direction::empty(),
        stage_hazards: OnOff::OFF(),
        tech_state: TechFlags::all(),
        throw_delay: MedDelay::empty(),
        throw_state: ThrowOption::NONE(),
        ledge_neutral_override: Action::empty(),
        ledge_roll_override: Action::empty(),
        ledge_jump_override: Action::empty(),
        ledge_attack_override: Action::empty(),
        tech_action_override: Action::empty(),
        clatter_override: Action::empty(),
        tumble_override: Action::empty(),
        hitstun_override: Action::empty(),
        parry_override: Action::empty(),
        shieldstun_override: Action::empty(),
        footstool_override: Action::empty(),
        landing_override: Action::empty(),
        trump_override: Action::empty(),
        recording_slot: RecordSlot::S1(),
        record_trigger: RecordTrigger::COMMAND(),
        recording_duration: RecordingDuration::F150(),
        playback_button_slots: PlaybackSlot::S1(),
        hitstun_playback: HitstunPlayback::HITSTUN(),
        playback_mash: OnOff::ON(),
        playback_loop: OnOff::OFF(),
        menu_open_start_press: OnOff::ON(),
        save_state_save: ButtonConfig { A: 0, B: 0, X: 0, Y: 0, L: 0, R: 0, ZL: 1, ZR: 0, DPAD_UP: 0, DPAD_DOWN: 1, DPAD_LEFT: 0, DPAD_RIGHT: 0, PLUS: 0, MINUS: 0, LSTICK: 0, RSTICK: 0 },
        save_state_load: ButtonConfig { A: 0, B: 0, X: 0, Y: 0, L: 0, R: 0, ZL: 1, ZR: 0, DPAD_UP: 1, DPAD_DOWN: 0, DPAD_LEFT: 0, DPAD_RIGHT: 0, PLUS: 0, MINUS: 0, LSTICK: 0, RSTICK: 0 },
        input_record: ButtonConfig { A: 0, B: 0, X: 0, Y: 0, L: 0, R: 0, ZL: 0, ZR: 1, DPAD_UP: 0, DPAD_DOWN: 1, DPAD_LEFT: 0, DPAD_RIGHT: 0, PLUS: 0, MINUS: 0, LSTICK: 0, RSTICK: 0 },
        input_playback: ButtonConfig { A: 0, B: 0, X: 0, Y: 0, L: 0, R: 0, ZL: 0, ZR: 1, DPAD_UP: 1, DPAD_DOWN: 0, DPAD_LEFT: 0, DPAD_RIGHT: 0, PLUS: 0, MINUS: 0, LSTICK: 0, RSTICK: 0 },
        recording_crop: OnOff::ON(),
        stale_dodges: OnOff::ON(),
        tech_hide: OnOff::OFF(),
        update_policy: UpdatePolicy::default(),
        lra_reset: OnOff::ON(),
        selected_locale: Locale::default(),
    }
}

} // verus!
