//! Save states: which slot is used and what the save state machine is doing.
//! The saved positions and damage stay with the caller; this module keeps the
//! phase of each slot's save state for the player and the CPU.
use vstd::prelude::*;
use crate::flags::{
    choice_if_single, contains_weights, flags_contains, flags_display, is_only_flag, is_random_pick, is_single,
    no_flags, only_flag, random_below, weights_empty,
};
use crate::input_record::{
    choice_if_single_spec, lockout_record, locked_out, playback, played_back, stop_playback, InputRecordState,
    InputRecorder, PossessionState,
};
use crate::menu::TrainingModpackMenu;
use crate::notifications::{clear_notifications, kept_by_clear, notification, Notification};
use crate::options::{RecordTrigger, SaveStateSlot};
use vstd::string::StringExecFns;

verus! {

/// Number of save state slots.
pub const NUM_SAVE_STATE_SLOTS: usize = 5;

/// Phase of a save state.
#[derive(Clone, Copy, Debug, PartialEq, Eq, Structural)]
pub enum SaveState {
    Save,
    NoAction,
    KillPlayer,
    WaitForAlive,
    PosMove,
    ApplyBuff,
    NanaPosMove,
    WaitForPokemonSwitch,
    WaitForCopyAbility,
}

/// The phase of every slot, for the player and for the CPU.
pub struct SaveStatePhases {
    pub player: Vec<SaveState>,
    pub cpu: Vec<SaveState>,
}

impl SaveStatePhases {
    /// One phase per slot for each fighter.
    pub open spec fn wf(&self) -> bool {
        self.player@.len() == NUM_SAVE_STATE_SLOTS && self.cpu@.len() == NUM_SAVE_STATE_SLOTS
    }

    /// Every slot idle.
    pub fn new() -> (p: SaveStatePhases)
        ensures
            p.wf(),
            forall|i: int| 0 <= i < NUM_SAVE_STATE_SLOTS ==> p.player@[i] == SaveState::NoAction
                && p.cpu@[i] == SaveState::NoAction,
    {
        SaveStatePhases {
            player: vec![SaveState::NoAction, SaveState::NoAction, SaveState::NoAction, SaveState::NoAction, SaveState::NoAction],
            cpu: vec![SaveState::NoAction, SaveState::NoAction, SaveState::NoAction, SaveState::NoAction, SaveState::NoAction],
        }
    }
}

/// The slot in use: the randomly chosen slot when the menu randomizes slots,
/// else the menu's slot (the first one when none is selected).
pub open spec fn slot_in_use(menu: TrainingModpackMenu, random_slot: usize) -> usize {
    if !no_flags(menu.randomize_slots@) {
        random_slot
    } else {
        match choice_if_single_spec(menu.save_state_slot@) {
            Some(k) => k as usize,
            None => 0usize,
        }
    }
}

/// The slot in use (see `slot_in_use`).
pub fn get_slot(menu: &TrainingModpackMenu, random_slot: usize) -> (s: usize)
    ensures
        s == slot_in_use(*menu, random_slot),
{
    let random_pick = menu.randomize_slots.get_random();
    if !weights_empty(&random_pick.to_vec()) {
        random_slot
    } else {
        proof {
            if let Some(k) = choice_if_single_spec(menu.save_state_slot@) {
                assert(is_only_flag(menu.save_state_slot@, k));
            }
        }
        match menu.save_state_slot.into_idx() {
            Some(k) => k,
            None => 0,
        }
    }
}

/// A fighter of the slot is being killed to be moved back.
pub open spec fn killing(p: SaveStatePhases, slot: int) -> bool {
    ||| p.player@[slot] == SaveState::KillPlayer
    ||| p.player@[slot] == SaveState::WaitForAlive
    ||| p.cpu@[slot] == SaveState::KillPlayer
    ||| p.cpu@[slot] == SaveState::WaitForAlive
}

/// Whether a fighter of the slot in use is being killed to be moved back.
pub fn is_killing(p: &SaveStatePhases, menu: &TrainingModpackMenu, random_slot: usize) -> (b: bool)
    requires
        p.wf(),
        random_slot < NUM_SAVE_STATE_SLOTS,
    ensures
        b == killing(*p, slot_in_use(*menu, random_slot) as int),
{
    let slot = get_slot(menu, random_slot);
    (p.player[slot] == SaveState::KillPlayer || p.player[slot] == SaveState::WaitForAlive)
        || (p.cpu[slot] == SaveState::KillPlayer || p.cpu[slot] == SaveState::WaitForAlive)
}

/// Whether the save state of the slot in use is being loaded.
pub fn is_loading(p: &SaveStatePhases, menu: &TrainingModpackMenu, random_slot: usize) -> (b: bool)
    requires
        p.wf(),
        random_slot < NUM_SAVE_STATE_SLOTS,
    ensures
        b == (p.player@[slot_in_use(*menu, random_slot) as int] != SaveState::NoAction
            || p.cpu@[slot_in_use(*menu, random_slot) as int] != SaveState::NoAction),
{
    let slot = get_slot(menu, random_slot);
    p.player[slot] != SaveState::NoAction || p.cpu[slot] != SaveState::NoAction
}

/// Ends the wait for a copy ability of the given fighter's save state in the
/// slot in use.
pub fn end_copy_ability(p: &mut SaveStatePhases, menu: &TrainingModpackMenu, random_slot: usize, is_cpu: bool)
    requires
        old(p).wf(),
        random_slot < NUM_SAVE_STATE_SLOTS,
    ensures
        final(p).wf(),
        ({
            let s = slot_in_use(*menu, random_slot) as int;
            &&& is_cpu ==> final(p).player@ == old(p).player@
                && final(p).cpu@ == if old(p).cpu@[s] == SaveState::WaitForCopyAbility {
                    old(p).cpu@.update(s, SaveState::NoAction)
                } else {
                    old(p).cpu@
                }
            &&& !is_cpu ==> final(p).cpu@ == old(p).cpu@
                && final(p).player@ == if old(p).player@[s] == SaveState::WaitForCopyAbility {
                    old(p).player@.update(s, SaveState::NoAction)
                } else {
                    old(p).player@
                }
        }),
{
    let slot = get_slot(menu, random_slot);
    if is_cpu {
        if p.cpu[slot] == SaveState::WaitForCopyAbility {
            p.cpu.set(slot, SaveState::NoAction);
        }
    } else {
        if p.player[slot] == SaveState::WaitForCopyAbility {
            p.player.set(slot, SaveState::NoAction);
        }
    }
}

/// Whether a save state load mirrors the positions, given whether the last
/// load was mirrored (alternating) and a coin flip (random): never, every
/// other load, or at random, as the menu says.
pub open spec fn mirrors(menu: TrainingModpackMenu, last_mirrored: bool, coin: bool) -> bool {
    if is_only_flag(menu.save_state_mirroring@, 1) {
        !last_mirrored
    } else if is_only_flag(menu.save_state_mirroring@, 2) {
        coin
    } else {
        false
    }
}

/// Whether this save state load mirrors the positions (see `mirrors`).
pub fn should_mirror(menu: &TrainingModpackMenu, last_mirrored: bool) -> (b: bool)
    requires
        is_only_flag(menu.save_state_mirroring@, 0) || is_only_flag(menu.save_state_mirroring@, 1)
            || is_only_flag(menu.save_state_mirroring@, 2),
    ensures
        exists|coin: bool| b == mirrors(*menu, last_mirrored, coin),
{
    let b = match choice_if_single(&menu.save_state_mirroring.to_vec()) {
        Some(1) => !last_mirrored,
        Some(2) => {
            let coin = random_below(2) == 0;
            assert(coin == mirrors(*menu, last_mirrored, coin));
            coin
        },
        _ => false,
    };
    proof {
        if !is_only_flag(menu.save_state_mirroring@, 2) {
            assert(b == mirrors(*menu, last_mirrored, true));
        }
    }
    b
}

/// What the save state logic keeps between frames besides the phases: the
/// randomly chosen slot and whether the last load was mirrored.
pub struct SaveStateControl {
    pub random_slot: usize,
    pub mirrored: bool,
}

/// The situation a save state was saved in.
#[derive(Clone, Copy, Debug, PartialEq, Eq, Structural)]
pub enum SavedSituation {
    Ground,
    Air,
    Cliff,
    Other,
}

/// What the game shows about the fighter this frame.
#[derive(Clone, Copy, Debug, PartialEq, Eq, Structural)]
pub struct SaveStateObservation {
    /// The fighter is the CPU (otherwise the player).
    pub is_cpu: bool,
    /// The fighter is controlled by the game's CPU logic.
    pub is_operated_by_cpu: bool,
    pub is_nana: bool,
    pub is_popo: bool,
    pub is_ptrainer: bool,
    /// A fighter whose buffs are restored on load.
    pub is_buffable: bool,
    pub is_kirby: bool,
    /// The fighter is the kind that was saved.
    pub same_fighter_as_saved: bool,
    pub is_dead: bool,
    /// The load button combination is pressed.
    pub load_combo: bool,
    /// The save button combination is pressed.
    pub save_combo: bool,
    pub saved_situation: SavedSituation,
    /// The fighter stands waiting.
    pub in_wait: bool,
    /// The fighter falls.
    pub in_fall: bool,
    /// The fighter falls or catches a ledge.
    pub in_fall_or_cliff_catch: bool,
    /// The fighter is on standby (Nana waiting to reappear).
    pub in_standby: bool,
    /// The previous status was the fighter's revival.
    pub from_rebirth: bool,
    /// The fighter's buffs are restored.
    pub buffs_done: bool,
    /// The trainer's Pokémon switch is done.
    pub pokemon_switched: bool,
    /// Kirby's copy ability is being applied.
    pub copy_starting: bool,
}

/// The status a loading fighter is put in for its saved situation.
#[derive(Clone, Copy, Debug, PartialEq, Eq, Structural)]
pub enum LoadStatus {
    Wait,
    Fall,
}

/// What the caller does with the fighter this frame.
#[derive(Clone, Copy, Debug, PartialEq, Eq, Structural)]
pub struct SaveStateEffects {
    /// Force the fighter's death.
    pub kill: bool,
    /// Let the trainer's Pokémon logic know of the death.
    pub ptrainer_death: bool,
    /// Run the fighter's revival cleanup.
    pub on_death: bool,
    /// Stop sounds and put the fighter at its saved position, mirrored when
    /// the load is mirrored, and reset the training options.
    pub move_to_saved: bool,
    /// Ask for the status of the saved situation.
    pub status_request: Option<LoadStatus>,
    /// The load is done: set the damage as the menu says.
    pub finish_load: bool,
    /// Give the fighter the menu's held item.
    pub apply_item: bool,
    /// Restore the saved charges.
    pub restore_charge: bool,
    /// Play the training reset sound.
    pub play_reset_sound: bool,
    /// Let the trainer switch Pokémon.
    pub enable_pokemon_change: bool,
    /// The buffs are restored: finish them.
    pub restart_buff: bool,
    /// Record the fighter's position, damage and charges in the slot.
    pub capture: bool,
    /// Both fighters are saved: write the save states to the file.
    pub write_file: bool,
}

/// No effect.
pub open spec fn no_effects() -> SaveStateEffects {
    SaveStateEffects {
        kill: false,
        ptrainer_death: false,
        on_death: false,
        move_to_saved: false,
        status_request: None,
        finish_load: false,
        apply_item: false,
        restore_charge: false,
        play_reset_sound: false,
        enable_pokemon_change: false,
        restart_buff: false,
        capture: false,
        write_file: false,
    }
}

/// The phases of the fighter's own save states.
pub open spec fn phases_of(p: SaveStatePhases, is_cpu: bool) -> Seq<SaveState> {
    if is_cpu { p.cpu@ } else { p.player@ }
}

/// A load is asked for: the fighter (not Nana) died with autoload on and no
/// load running, or the player pressed the load combination.
pub open spec fn requests_load(phase: SaveState, menu: TrainingModpackMenu, obs: SaveStateObservation) -> bool {
    !obs.is_nana && ((is_only_flag(menu.save_state_autoload@, 0) && phase == SaveState::NoAction && obs.is_dead)
        || (!obs.is_operated_by_cpu && obs.load_combo))
}

/// The phase once a dead fighter is alive again.
pub open spec fn after_revival(phase: SaveState, obs: SaveStateObservation) -> SaveState {
    if phase == SaveState::WaitForAlive && !obs.is_dead && !obs.is_nana { SaveState::PosMove } else { phase }
}

/// The fighter is moving to its saved position (Nana only when she is back).
pub open spec fn moves_now(phase: SaveState, obs: SaveStateObservation) -> bool {
    phase == SaveState::PosMove || (phase == SaveState::NanaPosMove && obs.is_nana && !obs.in_standby)
}

/// The fighter is in the status of its saved situation.
pub open spec fn settled(obs: SaveStateObservation) -> bool {
    match obs.saved_situation {
        SavedSituation::Ground => obs.in_wait,
        SavedSituation::Air => obs.in_fall,
        SavedSituation::Cliff => obs.in_fall_or_cliff_catch,
        SavedSituation::Other => true,
    }
}

/// The phase after a frame of moving to the saved position: once settled,
/// done, or waiting for Kirby's copy ability, the buffs or the Pokémon
/// switch; Popo right after his revival hands the move over to Nana.
pub open spec fn phase_after_move(phase: SaveState, obs: SaveStateObservation) -> SaveState {
    let p = if settled(obs) {
        let a = if obs.same_fighter_as_saved && obs.is_kirby { SaveState::WaitForCopyAbility } else { SaveState::NoAction };
        let b = if obs.is_buffable { SaveState::ApplyBuff } else { a };
        if obs.is_ptrainer { SaveState::WaitForPokemonSwitch } else { b }
    } else {
        phase
    };
    if obs.from_rebirth && obs.is_popo { SaveState::NanaPosMove } else { p }
}

/// The effects of a frame of moving to the saved position.
pub open spec fn move_effects(phase0: SaveState, menu: TrainingModpackMenu, obs: SaveStateObservation) -> SaveStateEffects {
    let done = settled(obs);
    SaveStateEffects {
        ptrainer_death: phase0 == SaveState::WaitForAlive,
        on_death: phase0 == SaveState::WaitForAlive,
        move_to_saved: true,
        status_request: if done {
            None
        } else {
            match obs.saved_situation {
                SavedSituation::Ground => Some(LoadStatus::Wait),
                SavedSituation::Other => None,
                _ => Some(LoadStatus::Fall),
            }
        },
        finish_load: done,
        apply_item: done && !obs.is_cpu && !obs.is_nana && !is_only_flag(menu.character_item@, 0),
        restore_charge: done && obs.same_fighter_as_saved,
        play_reset_sound: done && obs.is_cpu,
        enable_pokemon_change: done && obs.is_ptrainer,
        ..no_effects()
    }
}

/// The phase after the waits of a loaded fighter: done once the buffs are
/// restored, the Pokémon is switched or Kirby's copy ability is applied.
pub open spec fn settle(phase: SaveState, obs: SaveStateObservation) -> SaveState {
    let a = if phase == SaveState::ApplyBuff && obs.buffs_done { SaveState::NoAction } else { phase };
    let b = if a == SaveState::WaitForPokemonSwitch && obs.pokemon_switched { SaveState::NoAction } else { a };
    if b == SaveState::WaitForCopyAbility && !obs.copy_starting { SaveState::NoAction } else { b }
}

/// `new` is `old` with playback and recording stopped (see `stop_playback`).
pub open spec fn stopped(old: InputRecorder, new: InputRecorder) -> bool {
    &&& new.input_record == InputRecordState::Idle
    &&& new.input_record_frame == 0
    &&& new.possession == PossessionState::Player
    &&& new.lockout_frame == old.lockout_frame
    &&& new.buffer_frame == old.buffer_frame
    &&& new.starting_status == old.starting_status
    &&& new.current_record_slot == old.current_record_slot
    &&& new.current_playback_slot == old.current_playback_slot
    &&& new.current_frame_length == old.current_frame_length
    &&& new.frame_length_mapping@ == old.frame_length_mapping@
    &&& new.recordings() == old.recordings()
}

/// The slot index that a slot option names, if it is one slot.
pub open spec fn slot_index(pick: Seq<u8>) -> Option<usize> {
    match choice_if_single_spec(pick) {
        Some(k) => Some(k as usize),
        None => None,
    }
}

fn set_phase(p: &mut SaveStatePhases, is_cpu: bool, slot: usize, s: SaveState)
    requires
        old(p).wf(),
        slot < NUM_SAVE_STATE_SLOTS,
    ensures
        final(p).wf(),
        phases_of(*final(p), is_cpu) == phases_of(*old(p), is_cpu).update(slot as int, s),
        phases_of(*final(p), !is_cpu) == phases_of(*old(p), !is_cpu),
{
    if is_cpu {
        p.cpu.set(slot, s);
    } else {
        p.player.set(slot, s);
    }
}

fn none_effects() -> (e: SaveStateEffects)
    ensures
        e == no_effects(),
{
    SaveStateEffects {
        kill: false,
        ptrainer_death: false,
        on_death: false,
        move_to_saved: false,
        status_request: None,
        finish_load: false,
        apply_item: false,
        restore_charge: false,
        play_reset_sound: false,
        enable_pokemon_change: false,
        restart_buff: false,
        capture: false,
        write_file: false,
    }
}

/// The load branch of `save_states`.
fn start_load(
    p: &mut SaveStatePhases,
    control: &mut SaveStateControl,
    rec: &mut InputRecorder,
    menu: &TrainingModpackMenu,
    slot: usize,
    phase0: SaveState,
)
    requires
        old(p).wf(),
        slot < NUM_SAVE_STATE_SLOTS,
        old(control).random_slot < NUM_SAVE_STATE_SLOTS,
        old(rec).wf(),
        is_single(menu.save_state_mirroring@),
    ensures
        final(p).wf(),
        final(rec).wf(),
        final(control).random_slot < NUM_SAVE_STATE_SLOTS,
        stopped(*old(rec), *final(rec)),
        exists|coin: bool| final(control).mirrored == mirrors(*menu, old(control).mirrored, coin),
        phase0 != SaveState::NoAction ==> final(p).player@ == old(p).player@ && final(p).cpu@ == old(p).cpu@
            && final(control).random_slot == old(control).random_slot,
        phase0 == SaveState::NoAction ==> exists|pick: Seq<u8>| {
            let load_slot = if no_flags(pick) {
                slot as int
            } else {
                match slot_index(pick) {
                    Some(k) => k as int,
                    None => 0,
                }
            };
            &&& #[trigger] is_random_pick(pick, menu.randomize_slots@)
            &&& final(p).player@ == old(p).player@.update(load_slot, SaveState::KillPlayer)
            &&& final(p).cpu@ == old(p).cpu@.update(load_slot, SaveState::KillPlayer)
            &&& final(control).random_slot == if no_flags(pick) { old(control).random_slot } else { load_slot as usize }
        },
{
    if phase0 == SaveState::NoAction {
        let pick = menu.randomize_slots.get_random();
        let load_slot = if !weights_empty(&pick.to_vec()) {
            let k = match pick.into_idx() {
                Some(k) => k,
                None => 0,
            };
            proof {
                if let Some(j) = choice_if_single_spec(pick@) {
                    assert(is_only_flag(pick@, j));
                }
            }
            control.random_slot = k;
            k
        } else {
            slot
        };
        p.player.set(load_slot, SaveState::KillPlayer);
        p.cpu.set(load_slot, SaveState::KillPlayer);
    }
    proof {
        let k = choose|k: int| is_only_flag(menu.save_state_mirroring@, k);
        assert(is_only_flag(menu.save_state_mirroring@, 0) || is_only_flag(menu.save_state_mirroring@, 1)
            || is_only_flag(menu.save_state_mirroring@, 2));
    }
    control.mirrored = should_mirror(menu, control.mirrored);
    stop_playback(rec);
}

/// The branch of `save_states` that moves the fighter to its saved position.
fn move_fighter(
    p: &mut SaveStatePhases,
    rec: &mut InputRecorder,
    menu: &TrainingModpackMenu,
    obs: SaveStateObservation,
    slot: usize,
    phase0: SaveState,
    phase1: SaveState,
) -> (e: SaveStateEffects)
    requires
        old(p).wf(),
        slot < NUM_SAVE_STATE_SLOTS,
        old(rec).wf(),
        moves_now(phase1, obs),
        phase0 == SaveState::WaitForAlive ==> phase1 == SaveState::PosMove,
        phase0 != SaveState::WaitForAlive ==> phase1 == phase0,
        flags_contains(menu.record_trigger@, only_flag(2, 1)) ==> is_single(menu.recording_duration@),
    ensures
        final(p).wf(),
        final(rec).wf(),
        e == move_effects(phase0, *menu, obs),
        phases_of(*final(p), obs.is_cpu) == phases_of(*old(p), obs.is_cpu).update(slot as int, phase_after_move(phase1, obs)),
        phases_of(*final(p), !obs.is_cpu) == phases_of(*old(p), !obs.is_cpu),
        flags_contains(menu.record_trigger@, only_flag(2, 1)) ==> locked_out(*old(rec), *final(rec), *menu),
        !flags_contains(menu.record_trigger@, only_flag(2, 1)) ==> exists|pick1: Seq<u8>, pick2: Seq<u8>| {
            &&& #[trigger] is_random_pick(pick1, menu.save_state_playback@)
            &&& #[trigger] is_random_pick(pick2, menu.save_state_playback@)
            &&& !no_flags(pick1) && obs.saved_situation != SavedSituation::Cliff ==> played_back(
                *old(rec),
                *final(rec),
                slot_index(pick2),
            )
            &&& !(!no_flags(pick1) && obs.saved_situation != SavedSituation::Cliff) ==> *final(rec) == *old(rec)
        },
{
    let mut e = none_effects();
    e.ptrainer_death = phase0 == SaveState::WaitForAlive;
    e.on_death = phase0 == SaveState::WaitForAlive;
    e.move_to_saved = true;
    let mut phase = phase1;
    match obs.saved_situation {
        SavedSituation::Ground => {
            if !obs.in_wait {
                e.status_request = Some(LoadStatus::Wait);
            } else {
                phase = SaveState::NoAction;
            }
        },
        SavedSituation::Air => {
            if !obs.in_fall {
                e.status_request = Some(LoadStatus::Fall);
            } else {
                phase = SaveState::NoAction;
            }
        },
        SavedSituation::Cliff => {
            if !obs.in_fall_or_cliff_catch {
                e.status_request = Some(LoadStatus::Fall);
            } else {
                phase = SaveState::NoAction;
            }
        },
        SavedSituation::Other => {
            phase = SaveState::NoAction;
        },
    }
    if phase == SaveState::NoAction {
        e.finish_load = true;
        let no_item = match choice_if_single(&menu.character_item.to_vec()) {
            Some(k) => k == 0,
            None => false,
        };
        e.apply_item = !obs.is_cpu && !obs.is_nana && !no_item;
        if obs.same_fighter_as_saved {
            e.restore_charge = true;
            if obs.is_kirby {
                phase = SaveState::WaitForCopyAbility;
            }
        }
        if obs.is_buffable {
            phase = SaveState::ApplyBuff;
        }
        e.play_reset_sound = obs.is_cpu;
        if obs.is_ptrainer {
            e.enable_pokemon_change = true;
            phase = SaveState::WaitForPokemonSwitch;
        }
    }
    if obs.from_rebirth && obs.is_popo {
        phase = SaveState::NanaPosMove;
    }
    set_phase(p, obs.is_cpu, slot, phase);
    if contains_weights(&menu.record_trigger.to_vec(), &RecordTrigger::SAVESTATE().to_vec()) {
        lockout_record(rec, menu);
        return e;
    }
    let pick1 = menu.save_state_playback.get_random();
    if !weights_empty(&pick1.to_vec()) && !matches!(obs.saved_situation, SavedSituation::Cliff) {
        let pick2 = menu.save_state_playback.get_random();
        let target = pick2.into_idx();
        proof {
            if let Some(j) = choice_if_single_spec(pick2@) {
                assert(is_only_flag(pick2@, j));
            }
        }
        playback(rec, target);
        assert(is_random_pick(pick1@, menu.save_state_playback@) && is_random_pick(pick2@, menu.save_state_playback@));
    } else {
        assert(is_random_pick(pick1@, menu.save_state_playback@));
    }
    e
}

/// The branch of `save_states` for a fighter that is not moving: its waits
/// are settled, the save combination marks the menu's slot for saving, and a
/// fighter marked for saving is captured.
fn settle_and_save(
    p: &mut SaveStatePhases,
    control: &mut SaveStateControl,
    queue: &mut Vec<Notification>,
    menu: &TrainingModpackMenu,
    obs: SaveStateObservation,
    slot: usize,
    phase0: SaveState,
    phase1: SaveState,
) -> (e: SaveStateEffects)
    requires
        old(p).wf(),
        slot < NUM_SAVE_STATE_SLOTS,
    ensures
        final(p).wf(),
        final(control).random_slot == old(control).random_slot,
        final(control).mirrored == (old(control).mirrored && !obs.save_combo),
        ({
            let mine0 = phases_of(*old(p), obs.is_cpu);
            let other0 = phases_of(*old(p), !obs.is_cpu);
            let settled_phase = settle(phase1, obs);
            let save_slot = match slot_index(menu.save_state_slot@) {
                Some(k) => k as int,
                None => 0,
            };
            let mine2 = if obs.save_combo {
                mine0.update(slot as int, settled_phase).update(save_slot, SaveState::Save)
            } else {
                mine0.update(slot as int, settled_phase)
            };
            let other2 = if obs.save_combo { other0.update(save_slot, SaveState::Save) } else { other0 };
            let capture = mine2[slot as int] == SaveState::Save && !obs.is_nana;
            &&& e == SaveStateEffects {
                ptrainer_death: phase0 == SaveState::WaitForAlive,
                restart_buff: phase1 == SaveState::ApplyBuff && obs.buffs_done,
                capture,
                write_file: capture && other2[slot as int] != SaveState::Save,
                ..no_effects()
            }
            &&& phases_of(*final(p), obs.is_cpu) == if capture { mine2.update(slot as int, SaveState::NoAction) } else { mine2 }
            &&& phases_of(*final(p), !obs.is_cpu) == other2
            &&& !obs.save_combo ==> final(queue)@ == old(queue)@
            &&& obs.save_combo ==> {
                let cleared = old(queue)@.filter(|n: Notification| kept_by_clear(n, "Save State"@));
                &&& final(queue)@.len() == cleared.len() + 1
                &&& final(queue)@.subrange(0, cleared.len() as int) == cleared
                &&& final(queue)@.last().header@ == "Save State"@
                &&& final(queue)@.last().message@ == "Saved Slot "@ + flags_display(
                    menu.save_state_slot@,
                    SaveStateSlot::spec_names(),
                )
                &&& final(queue)@.last().length == 120
            }
        }),
{
    let mut e = none_effects();
    e.ptrainer_death = phase0 == SaveState::WaitForAlive;
    let mut phase = phase1;
    if phase == SaveState::ApplyBuff && obs.buffs_done {
        e.restart_buff = true;
        phase = SaveState::NoAction;
    }
    if phase == SaveState::WaitForPokemonSwitch && obs.pokemon_switched {
        phase = SaveState::NoAction;
    }
    if phase == SaveState::WaitForCopyAbility && !obs.copy_starting {
        phase = SaveState::NoAction;
    }
    set_phase(p, obs.is_cpu, slot, phase);
    if obs.save_combo {
        control.mirrored = false;
        let save_slot = match menu.save_state_slot.into_idx() {
            Some(k) => k,
            None => 0,
        };
        proof {
            if let Some(j) = choice_if_single_spec(menu.save_state_slot@) {
                assert(is_only_flag(menu.save_state_slot@, j));
            }
        }
        p.player.set(save_slot, SaveState::Save);
        p.cpu.set(save_slot, SaveState::Save);
        clear_notifications(queue, "Save State");
        let mut message = String::new();
        message.append("Saved Slot ");
        let slot_name = menu.save_state_slot.to_string();
        message.append(slot_name.as_str());
        notification(queue, "Save State".to_owned(), message, 120);
    }
    let current = if obs.is_cpu { p.cpu[slot] } else { p.player[slot] };
    if current == SaveState::Save && !obs.is_nana {
        set_phase(p, obs.is_cpu, slot, SaveState::NoAction);
        e.capture = true;
        e.write_file = p.player[slot] != SaveState::Save && p.cpu[slot] != SaveState::Save;
    }
    e
}

/// The part of `save_states` after the load and kill checks.
fn continue_frame(
    p: &mut SaveStatePhases,
    control: &mut SaveStateControl,
    rec: &mut InputRecorder,
    queue: &mut Vec<Notification>,
    menu: &TrainingModpackMenu,
    obs: SaveStateObservation,
    slot: usize,
    phase0: SaveState,
) -> (e: SaveStateEffects)
    requires
        old(p).wf(),
        slot < NUM_SAVE_STATE_SLOTS,
        old(control).random_slot < NUM_SAVE_STATE_SLOTS,
        old(rec).wf(),
        phase0 == phases_of(*old(p), obs.is_cpu)[slot as int],
        !(phase0 == SaveState::KillPlayer && !obs.is_nana),
        moves_now(after_revival(phase0, obs), obs) && flags_contains(menu.record_trigger@, only_flag(2, 1))
            ==> is_single(menu.recording_duration@),
    ensures
        final(p).wf(),
        final(rec).wf(),
        final(control).random_slot < NUM_SAVE_STATE_SLOTS,
        ({
            let slot = slot as int;
            let mine0 = phases_of(*old(p), obs.is_cpu);
            let other0 = phases_of(*old(p), !obs.is_cpu);
            let mine1 = phases_of(*final(p), obs.is_cpu);
            let other1 = phases_of(*final(p), !obs.is_cpu);
            let phase1 = after_revival(phase0, obs);
            let quiet = *final(rec) == *old(rec) && final(queue)@ == old(queue)@
                && final(control).random_slot == old(control).random_slot
                && final(control).mirrored == old(control).mirrored;
            &&& (phase1 == SaveState::PosMove
                || phase1 == SaveState::NanaPosMove) && !moves_now(phase1, obs) ==> {
                &&& e == no_effects()
                &&& quiet
                &&& mine1 == mine0
                &&& other1 == other0
            }
            &&& moves_now(phase1, obs) ==> {
                &&& e == move_effects(phase0, *menu, obs)
                &&& final(queue)@ == old(queue)@
                &&& final(control).random_slot == old(control).random_slot
                &&& final(control).mirrored == old(control).mirrored
                &&& mine1 == mine0.update(slot, phase_after_move(phase1, obs))
                &&& other1 == other0
                &&& flags_contains(menu.record_trigger@, only_flag(2, 1)) ==> locked_out(*old(rec), *final(rec), *menu)
                &&& !flags_contains(menu.record_trigger@, only_flag(2, 1)) ==> exists|pick1: Seq<u8>, pick2: Seq<u8>| {
                    &&& #[trigger] is_random_pick(pick1, menu.save_state_playback@)
                    &&& #[trigger] is_random_pick(pick2, menu.save_state_playback@)
                    &&& !no_flags(pick1) && obs.saved_situation != SavedSituation::Cliff ==> played_back(
                        *old(rec),
                        *final(rec),
                        slot_index(pick2),
                    )
                    &&& !(!no_flags(pick1) && obs.saved_situation != SavedSituation::Cliff) ==> *final(rec) == *old(rec)
                }
            }
            &&& phase1 != SaveState::PosMove
                && phase1 != SaveState::NanaPosMove ==> {
                let settled_phase = settle(phase1, obs);
                let save_slot = match slot_index(menu.save_state_slot@) {
                    Some(k) => k as int,
                    None => 0,
                };
                let mine2 = if obs.save_combo {
                    mine0.update(slot, settled_phase).update(save_slot, SaveState::Save)
                } else {
                    mine0.update(slot, settled_phase)
                };
                let other2 = if obs.save_combo { other0.update(save_slot, SaveState::Save) } else { other0 };
                let capture = mine2[slot] == SaveState::Save && !obs.is_nana;
                &&& e == SaveStateEffects {
                    ptrainer_death: phase0 == SaveState::WaitForAlive,
                    restart_buff: phase1 == SaveState::ApplyBuff && obs.buffs_done,
                    capture,
                    write_file: capture && other2[slot] != SaveState::Save,
                    ..no_effects()
                }
                &&& mine1 == if capture { mine2.update(slot, SaveState::NoAction) } else { mine2 }
                &&& other1 == other2
                &&& *final(rec) == *old(rec)
                &&& final(control).random_slot == old(control).random_slot
                &&& final(control).mirrored == (old(control).mirrored && !obs.save_combo)
                &&& !obs.save_combo ==> final(queue)@ == old(queue)@
                &&& obs.save_combo ==> {
                    let cleared = old(queue)@.filter(|n: Notification| kept_by_clear(n, "Save State"@));
                    &&& final(queue)@.len() == cleared.len() + 1
                    &&& final(queue)@.subrange(0, cleared.len() as int) == cleared
                    &&& final(queue)@.last().header@ == "Save State"@
                    &&& final(queue)@.last().message@ == "Saved Slot "@ + flags_display(
                        menu.save_state_slot@,
                        SaveStateSlot::spec_names(),
                    )
                    &&& final(queue)@.last().length == 120
                }
            }
        }),
{
    let phase1 = if phase0 == SaveState::WaitForAlive && !obs.is_dead && !obs.is_nana {
        SaveState::PosMove
    } else {
        phase0
    };
    if phase1 == SaveState::PosMove || phase1 == SaveState::NanaPosMove {
        if phase1 == SaveState::NanaPosMove && (!obs.is_nana || obs.in_standby) {
            return none_effects();
        }
        return move_fighter(p, rec, menu, obs, slot, phase0, phase1);
    }
    settle_and_save(p, control, queue, menu, obs, slot, phase0, phase1)
}

/// One frame of the save state logic for one fighter, on the phase of its
/// save state in the slot in use. With save states off nothing happens. A
/// load (see `requests_load`) starts both fighters' kill in the chosen slot
/// when no load runs, rolls the mirroring and stops any playback. Otherwise
/// the fighter is killed, revived, moved to its saved position until it
/// settles (then a recording or a playback may start), or waits for its
/// buffs, Pokémon switch or copy ability. The save combination marks both
/// fighters' save states of the menu's slot for saving and says so; a fighter
/// marked for saving is captured.
pub fn save_states(
    p: &mut SaveStatePhases,
    control: &mut SaveStateControl,
    rec: &mut InputRecorder,
    queue: &mut Vec<Notification>,
    menu: &TrainingModpackMenu,
    obs: SaveStateObservation,
) -> (e: SaveStateEffects)
    requires
        old(p).wf(),
        old(control).random_slot < NUM_SAVE_STATE_SLOTS,
        old(rec).wf(),
        !is_only_flag(menu.save_state_enable@, 1) && requests_load(
            phases_of(*old(p), obs.is_cpu)[slot_in_use(*menu, old(control).random_slot) as int],
            *menu,
            obs,
        ) ==> is_single(menu.save_state_mirroring@),
        ({
            let phase0 = phases_of(*old(p), obs.is_cpu)[slot_in_use(*menu, old(control).random_slot) as int];
            !is_only_flag(menu.save_state_enable@, 1) && !requests_load(phase0, *menu, obs)
                && !(phase0 == SaveState::KillPlayer && !obs.is_nana) && moves_now(after_revival(phase0, obs), obs)
                && flags_contains(menu.record_trigger@, only_flag(2, 1)) ==> is_single(menu.recording_duration@)
        }),
    ensures
        final(p).wf(),
        final(rec).wf(),
        final(control).random_slot < NUM_SAVE_STATE_SLOTS,
        ({
            let slot = slot_in_use(*menu, old(control).random_slot) as int;
            let mine0 = phases_of(*old(p), obs.is_cpu);
            let other0 = phases_of(*old(p), !obs.is_cpu);
            let mine1 = phases_of(*final(p), obs.is_cpu);
            let other1 = phases_of(*final(p), !obs.is_cpu);
            let phase0 = mine0[slot];
            let phase1 = after_revival(phase0, obs);
            let quiet = *final(rec) == *old(rec) && final(queue)@ == old(queue)@
                && final(control).random_slot == old(control).random_slot
                && final(control).mirrored == old(control).mirrored;
            &&& is_only_flag(menu.save_state_enable@, 1) ==> e == no_effects() && quiet && final(p).player@ == old(p).player@
                && final(p).cpu@ == old(p).cpu@
            &&& !is_only_flag(menu.save_state_enable@, 1) && requests_load(phase0, *menu, obs) ==> {
                &&& e == no_effects()
                &&& final(queue)@ == old(queue)@
                &&& stopped(*old(rec), *final(rec))
                &&& exists|coin: bool| final(control).mirrored == mirrors(*menu, old(control).mirrored, coin)
                &&& phase0 != SaveState::NoAction ==> final(p).player@ == old(p).player@ && final(p).cpu@ == old(p).cpu@
                    && final(control).random_slot == old(control).random_slot
                &&& phase0 == SaveState::NoAction ==> exists|pick: Seq<u8>| {
                    let load_slot = if no_flags(pick) {
                        slot
                    } else {
                        match slot_index(pick) {
                            Some(k) => k as int,
                            None => 0,
                        }
                    };
                    &&& #[trigger] is_random_pick(pick, menu.randomize_slots@)
                    &&& final(p).player@ == old(p).player@.update(load_slot, SaveState::KillPlayer)
                    &&& final(p).cpu@ == old(p).cpu@.update(load_slot, SaveState::KillPlayer)
                    &&& final(control).random_slot == if no_flags(pick) { old(control).random_slot } else { load_slot as usize }
                }
            }
            &&& !is_only_flag(menu.save_state_enable@, 1) && !requests_load(phase0, *menu, obs)
                && phase0 == SaveState::KillPlayer && !obs.is_nana ==> {
                &&& e == SaveStateEffects { kill: !obs.is_dead, ptrainer_death: true, ..no_effects() }
                &&& quiet
                &&& mine1 == mine0.update(slot, SaveState::WaitForAlive)
                &&& other1 == other0
            }
            &&& !is_only_flag(menu.save_state_enable@, 1) && !requests_load(phase0, *menu, obs)
                && !(phase0 == SaveState::KillPlayer && !obs.is_nana) && (phase1 == SaveState::PosMove
                || phase1 == SaveState::NanaPosMove) && !moves_now(phase1, obs) ==> {
                &&& e == no_effects()
                &&& quiet
                &&& mine1 == mine0
                &&& other1 == other0
            }
            &&& !is_only_flag(menu.save_state_enable@, 1) && !requests_load(phase0, *menu, obs)
                && !(phase0 == SaveState::KillPlayer && !obs.is_nana) && moves_now(phase1, obs) ==> {
                &&& e == move_effects(phase0, *menu, obs)
                &&& final(queue)@ == old(queue)@
                &&& final(control).random_slot == old(control).random_slot
                &&& final(control).mirrored == old(control).mirrored
                &&& mine1 == mine0.update(slot, phase_after_move(phase1, obs))
                &&& other1 == other0
                &&& flags_contains(menu.record_trigger@, only_flag(2, 1)) ==> locked_out(*old(rec), *final(rec), *menu)
                &&& !flags_contains(menu.record_trigger@, only_flag(2, 1)) ==> exists|pick1: Seq<u8>, pick2: Seq<u8>| {
                    &&& #[trigger] is_random_pick(pick1, menu.save_state_playback@)
                    &&& #[trigger] is_random_pick(pick2, menu.save_state_playback@)
                    &&& !no_flags(pick1) && obs.saved_situation != SavedSituation::Cliff ==> played_back(
                        *old(rec),
                        *final(rec),
                        slot_index(pick2),
                    )
                    &&& !(!no_flags(pick1) && obs.saved_situation != SavedSituation::Cliff) ==> *final(rec) == *old(rec)
                }
            }
            &&& !is_only_flag(menu.save_state_enable@, 1) && !requests_load(phase0, *menu, obs)
                && !(phase0 == SaveState::KillPlayer && !obs.is_nana) && phase1 != SaveState::PosMove
                && phase1 != SaveState::NanaPosMove ==> {
                let settled_phase = settle(phase1, obs);
                let save_slot = match slot_index(menu.save_state_slot@) {
                    Some(k) => k as int,
                    None => 0,
                };
                let mine2 = if obs.save_combo {
                    mine0.update(slot, settled_phase).update(save_slot, SaveState::Save)
                } else {
                    mine0.update(slot, settled_phase)
                };
                let other2 = if obs.save_combo { other0.update(save_slot, SaveState::Save) } else { other0 };
                let capture = mine2[slot] == SaveState::Save && !obs.is_nana;
                &&& e == SaveStateEffects {
                    ptrainer_death: phase0 == SaveState::WaitForAlive,
                    restart_buff: phase1 == SaveState::ApplyBuff && obs.buffs_done,
                    capture,
                    write_file: capture && other2[slot] != SaveState::Save,
                    ..no_effects()
                }
                &&& mine1 == if capture { mine2.update(slot, SaveState::NoAction) } else { mine2 }
                &&& other1 == other2
                &&& *final(rec) == *old(rec)
                &&& final(control).random_slot == old(control).random_slot
                &&& final(control).mirrored == (old(control).mirrored && !obs.save_combo)
                &&& !obs.save_combo ==> final(queue)@ == old(queue)@
                &&& obs.save_combo ==> {
                    let cleared = old(queue)@.filter(|n: Notification| kept_by_clear(n, "Save State"@));
                    &&& final(queue)@.len() == cleared.len() + 1
                    &&& final(queue)@.subrange(0, cleared.len() as int) == cleared
                    &&& final(queue)@.last().header@ == "Save State"@
                    &&& final(queue)@.last().message@ == "Saved Slot "@ + flags_display(
                        menu.save_state_slot@,
                        SaveStateSlot::spec_names(),
                    )
                    &&& final(queue)@.last().length == 120
                }
            }
        }),
{
    let disabled = match choice_if_single(&menu.save_state_enable.to_vec()) {
        Some(k) => k == 1,
        None => false,
    };
    if disabled {
        return none_effects();
    }
    let slot = get_slot(menu, control.random_slot);
    let phase0 = if obs.is_cpu { p.cpu[slot] } else { p.player[slot] };
    let autoload_on = match choice_if_single(&menu.save_state_autoload.to_vec()) {
        Some(k) => k == 0,
        None => false,
    };
    let autoload_reset = autoload_on && phase0 == SaveState::NoAction && obs.is_dead;
    let triggered_reset = !obs.is_operated_by_cpu && !obs.is_nana && obs.load_combo;
    if (autoload_reset || triggered_reset) && !obs.is_nana {
        start_load(p, control, rec, menu, slot, phase0);
        return none_effects();
    }
    if phase0 == SaveState::KillPlayer && !obs.is_nana {
        set_phase(p, obs.is_cpu, slot, SaveState::WaitForAlive);
        let mut e = none_effects();
        e.ptrainer_death = true;
        e.kill = !obs.is_dead;
        return e;
    }
    continue_frame(p, control, rec, queue, menu, obs, slot, phase0)
}

} // verus!
