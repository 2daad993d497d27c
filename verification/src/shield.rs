//! Shield options: out-of-shield timing over multi-hit moves, shield decay
//! and when the CPU's shield must be dropped for a mash action.
use vstd::prelude::*;
use crate::flags::{
    choice_if_single, contains_weights, is_only_flag, is_random_pick, lemma_random_pick_empty_or_single,
    no_flags, only_flag, weights_empty,
};
use crate::ledge::is_rolled_delay;
use crate::frame_counter::{after_delay_check, delay_pending, fully_reset, FrameCounter};
use crate::frame_counter;
use crate::mash::{
    current_buffer, external_buffer_menu_mash, get_current_buffer, rebuffered, trigger_on, MashState,
    PlaybackStatus,
};
use crate::menu::TrainingModpackMenu;
use crate::options::{Action, Delay, MashTrigger};

verus! {

/// What the shield logic remembers between frames.
pub struct ShieldState {
    /// How many more hits to hold shield before an out-of-shield option.
    pub multi_hit_offset: u32,
    /// The rolled reaction time in shieldstun.
    pub shield_delay: u32,
    /// The CPU was in shieldstun on the previous check.
    pub was_in_shieldstun: bool,
    /// The shield hold is overridden so that a mash action can come out.
    pub suspend_shield: bool,
    /// Shield decay is running.
    pub shield_decay: bool,
}

/// The action is exactly one of the five aerials.
pub open spec fn is_aerial_action(a: Seq<u8>) -> bool {
    exists|k: int| 6 <= k <= 10 && is_only_flag(a, k)
}

/// Whether the action is exactly one aerial attack.
pub fn is_aerial(action: Action) -> (b: bool)
    ensures
        b == is_aerial_action(action@),
{
    match choice_if_single(&action.to_vec()) {
        Some(k) => 6 <= k && k <= 10,
        None => false,
    }
}

/// The shield must be dropped for the action: anything but no action, up
/// smash, grab and shield (which come out of shield).
pub open spec fn needs_shield_drop(a: Seq<u8>) -> bool {
    !no_flags(a) && !is_only_flag(a, 16) && !is_only_flag(a, 22) && !is_only_flag(a, 2)
}

/// Whether the shield must be dropped for the action.
pub fn need_suspend_shield(action: Action) -> (b: bool)
    ensures
        b == needs_shield_drop(action@),
{
    let w = action.to_vec();
    if weights_empty(&w) {
        return false;
    }
    match choice_if_single(&w) {
        Some(k) => !(k == 16 || k == 22 || k == 2),
        None => true,
    }
}

/// Overrides the shield hold exactly when the next action needs it.
pub fn suspend_shield(state: &mut ShieldState, action: Action)
    ensures
        final(state).suspend_shield == needs_shield_drop(action@),
        final(state).multi_hit_offset == old(state).multi_hit_offset,
        final(state).shield_delay == old(state).shield_delay,
        final(state).was_in_shieldstun == old(state).was_in_shieldstun,
        final(state).shield_decay == old(state).shield_decay,
{
    state.suspend_shield = need_suspend_shield(action);
}

/// Turns shield decay on or off.
pub fn set_shield_decay(state: &mut ShieldState, value: bool)
    ensures
        final(state).shield_decay == value,
        final(state).multi_hit_offset == old(state).multi_hit_offset,
        final(state).shield_delay == old(state).shield_delay,
        final(state).was_in_shieldstun == old(state).was_in_shieldstun,
        final(state).suspend_shield == old(state).suspend_shield,
{
    state.shield_decay = value;
}

/// Whether shield decay is paused.
pub fn should_pause_shield_decay(state: &ShieldState) -> (b: bool)
    ensures
        b == !state.shield_decay,
{
    !state.shield_decay
}

fn rolled_delay(w: &Delay) -> (d: u32)
    ensures
        is_rolled_delay(d, w@, 1),
        d <= 30,
{
    let pick = w.get_random();
    proof {
        lemma_random_pick_empty_or_single(pick@, w@);
    }
    let d = pick.into_delay();
    proof {
        if !no_flags(w@) {
            let k = choose|k: int| 0 <= k < w@.len() && w@[k] > 0 && pick@ == only_flag(w@.len(), k);
            assert(is_only_flag(pick@, k));
        }
    }
    d
}

/// Rolls how many hits to hold shield: the rolled out-of-shield offset plus
/// one, since the offset is counted down as soon as the shield is hit.
pub fn reset_oos_offset(state: &mut ShieldState, menu: &TrainingModpackMenu)
    ensures
        final(state).multi_hit_offset >= 1,
        is_rolled_delay((final(state).multi_hit_offset - 1) as u32, menu.oos_offset@, 1),
        final(state).shield_delay == old(state).shield_delay,
        final(state).was_in_shieldstun == old(state).was_in_shieldstun,
        final(state).suspend_shield == old(state).suspend_shield,
        final(state).shield_decay == old(state).shield_decay,
{
    state.multi_hit_offset = rolled_delay(&menu.oos_offset) + 1;
}

/// Counts a hit on shield: on the first frame of shieldstun the reaction time
/// is rolled and the hit offset goes down by one (not below zero). Outside of
/// shieldstun the next shieldstun is awaited.
pub fn handle_oos_offset(state: &mut ShieldState, menu: &TrainingModpackMenu, in_shieldstun: bool)
    ensures
        final(state).suspend_shield == old(state).suspend_shield,
        final(state).shield_decay == old(state).shield_decay,
        final(state).was_in_shieldstun == in_shieldstun,
        !in_shieldstun || old(state).was_in_shieldstun ==> {
            &&& final(state).multi_hit_offset == old(state).multi_hit_offset
            &&& final(state).shield_delay == old(state).shield_delay
        },
        in_shieldstun && !old(state).was_in_shieldstun ==> {
            &&& is_rolled_delay(final(state).shield_delay, menu.reaction_time@, 1)
            &&& final(state).multi_hit_offset == if old(state).multi_hit_offset > 0 {
                (old(state).multi_hit_offset - 1) as u32
            } else {
                0
            }
        },
{
    if !in_shieldstun {
        state.was_in_shieldstun = false;
        return;
    }
    if state.was_in_shieldstun {
        return;
    }
    state.shield_delay = rolled_delay(&menu.reaction_time);
    state.multi_hit_offset = state.multi_hit_offset.saturating_sub(1);
    state.was_in_shieldstun = true;
}

/// Out-of-shield options are allowed once the hit offset is used up.
pub fn allow_oos(state: &ShieldState) -> (b: bool)
    ensures
        b == (state.multi_hit_offset == 0),
{
    state.multi_hit_offset == 0
}

/// The shield option holds the shield: Infinite, Hold or Constant.
pub open spec fn holds_shield(menu: TrainingModpackMenu) -> bool {
    is_only_flag(menu.shield_state@, 1) || is_only_flag(menu.shield_state@, 2) || is_only_flag(menu.shield_state@, 3)
}

fn shield_option_holds(menu: &TrainingModpackMenu) -> (b: bool)
    ensures
        b == holds_shield(*menu),
{
    match choice_if_single(&menu.shield_state.to_vec()) {
        Some(k) => k == 1 || k == 2 || k == 3,
        None => false,
    }
}

/// The buffered action only comes out of shield when the shield is dropped
/// first: a jump, an aerial, up special, up smash, an air dodge, or a shield
/// when the shield option does not hold the shield.
pub open spec fn drops_shield_for(a: Seq<u8>, menu: TrainingModpackMenu) -> bool {
    ||| is_only_flag(a, 1)
    ||| is_aerial_action(a)
    ||| is_only_flag(a, 13)
    ||| is_only_flag(a, 16)
    ||| is_only_flag(a, 0)
    ||| (is_only_flag(a, 2) && !holds_shield(menu))
}

/// Whether the buffered action needs the shield dropped to come out of
/// shield. For an air dodge while the shield option holds the shield, the
/// shield hold is overridden as well.
pub fn needs_oos_handling_drop_shield(mash: &MashState, state: &mut ShieldState, menu: &TrainingModpackMenu) -> (b: bool)
    ensures
        b == drops_shield_for(current_buffer(mash.queue@), *menu),
        final(state).suspend_shield == if is_only_flag(current_buffer(mash.queue@), 0) && holds_shield(*menu) {
            true
        } else {
            old(state).suspend_shield
        },
        final(state).multi_hit_offset == old(state).multi_hit_offset,
        final(state).shield_delay == old(state).shield_delay,
        final(state).was_in_shieldstun == old(state).was_in_shieldstun,
        final(state).shield_decay == old(state).shield_decay,
{
    let action = get_current_buffer(mash);
    let aerial = is_aerial(action);
    match choice_if_single(&action.to_vec()) {
        Some(k) => {
            if k == 1 || aerial || k == 13 || k == 16 {
                return true;
            }
            if k == 0 {
                if shield_option_holds(menu) {
                    suspend_shield(state, action);
                    proof {
                        assert(needs_shield_drop(action@)) by {
                            assert(!is_only_flag(action@, 16));
                            assert(!is_only_flag(action@, 22));
                            assert(!is_only_flag(action@, 2));
                            assert(action@[0] == 1);
                        }
                    }
                }
                return true;
            }
            if k == 2 {
                return !shield_option_holds(menu);
            }
            false
        },
        None => {
            assert(!is_aerial_action(action@));
            false
        },
    }
}

/// The CPU asks for a shield: it buffered a shield, or an air dodge on the ground.
pub open spec fn requests_shield(a: Seq<u8>, is_grounded: bool) -> bool {
    is_only_flag(a, 2) || (is_only_flag(a, 0) && is_grounded)
}

/// Whether the buffered action asks for a shield.
pub fn request_shield(mash: &MashState, is_grounded: bool) -> (b: bool)
    ensures
        b == requests_shield(current_buffer(mash.queue@), is_grounded),
{
    let action = get_current_buffer(mash);
    match choice_if_single(&action.to_vec()) {
        Some(2) => true,
        Some(0) => is_grounded,
        _ => false,
    }
}

/// The CPU holds its shield: never during a playback or while a recording
/// waits; when it asks for a shield; otherwise when the shield option holds
/// the shield and no save state is loading.
pub open spec fn holds_shield_now(
    mash: MashState,
    menu: TrainingModpackMenu,
    playback: PlaybackStatus,
    is_grounded: bool,
    is_loading: bool,
) -> bool {
    if playback.is_playback || playback.is_standby {
        false
    } else if requests_shield(current_buffer(mash.queue@), is_grounded) {
        true
    } else {
        !is_loading && holds_shield(menu)
    }
}

/// Whether the CPU should hold its shield (see `holds_shield_now`).
pub fn should_hold_shield(
    mash: &MashState,
    menu: &TrainingModpackMenu,
    playback: PlaybackStatus,
    is_grounded: bool,
    is_loading: bool,
) -> (b: bool)
    ensures
        b == holds_shield_now(*mash, *menu, playback, is_grounded, is_loading),
{
    if playback.is_playback || playback.is_standby {
        return false;
    }
    if request_shield(mash, is_grounded) {
        return true;
    }
    if is_loading || !shield_option_holds(menu) {
        return false;
    }
    true
}

/// What the game asks when it checks whether the CPU presses a button.
#[derive(Clone, Copy, Debug, PartialEq, Eq, Structural)]
pub struct ShieldButtonQuery {
    /// The fighter is the CPU.
    pub is_cpu: bool,
    /// The button is one of the shield buttons.
    pub is_guard_button: bool,
    pub is_grounded: bool,
    /// A save state of the slot in use is loading.
    pub is_loading: bool,
}

/// The shield logic leaves the button to the game: not the CPU, not a shield
/// button, no shield wanted, or the shield hold is overridden.
pub open spec fn leaves_button(
    state: ShieldState,
    mash: MashState,
    menu: TrainingModpackMenu,
    playback: PlaybackStatus,
    q: ShieldButtonQuery,
) -> bool {
    ||| !q.is_cpu
    ||| !q.is_guard_button
    ||| !holds_shield_now(mash, menu, playback, q.is_grounded, q.is_loading)
    ||| state.suspend_shield
}

fn should_return_none_in_check_button(
    state: &ShieldState,
    mash: &MashState,
    menu: &TrainingModpackMenu,
    playback: PlaybackStatus,
    q: ShieldButtonQuery,
) -> (b: bool)
    ensures
        b == leaves_button(*state, *mash, *menu, playback, q),
{
    if !q.is_cpu || !q.is_guard_button {
        return true;
    }
    if !should_hold_shield(mash, menu, playback, q.is_grounded, q.is_loading) {
        return true;
    }
    state.suspend_shield
}

/// Keeps the CPU's shield button pressed while it should hold its shield;
/// `None` leaves the button to the game.
pub fn check_button_on(
    state: &ShieldState,
    mash: &MashState,
    menu: &TrainingModpackMenu,
    playback: PlaybackStatus,
    q: ShieldButtonQuery,
) -> (r: Option<bool>)
    ensures
        r == if leaves_button(*state, *mash, *menu, playback, q) { None } else { Some(true) },
{
    if should_return_none_in_check_button(state, mash, menu, playback, q) {
        return None;
    }
    Some(true)
}

/// Keeps the CPU's shield button from being released while it should hold
/// its shield, unless the buffered action needs the shield dropped (see
/// `needs_oos_handling_drop_shield`, which is only asked when the button is
/// not left to the game).
pub fn check_button_off(
    state: &mut ShieldState,
    mash: &MashState,
    menu: &TrainingModpackMenu,
    playback: PlaybackStatus,
    q: ShieldButtonQuery,
) -> (r: Option<bool>)
    ensures
        final(state).multi_hit_offset == old(state).multi_hit_offset,
        final(state).shield_delay == old(state).shield_delay,
        final(state).was_in_shieldstun == old(state).was_in_shieldstun,
        final(state).shield_decay == old(state).shield_decay,
        leaves_button(*old(state), *mash, *menu, playback, q) ==> r is None && *final(state) == *old(state),
        !leaves_button(*old(state), *mash, *menu, playback, q) ==> {
            let buf = current_buffer(mash.queue@);
            &&& r == if drops_shield_for(buf, *menu) { None::<bool> } else { Some(false) }
            &&& final(state).suspend_shield == (is_only_flag(buf, 0) && holds_shield(*menu))
        },
{
    if should_return_none_in_check_button(state, mash, menu, playback, q) {
        return None;
    }
    if needs_oos_handling_drop_shield(mash, state, menu) {
        return None;
    }
    Some(false)
}

/// A shield parameter that the game reads.
#[derive(Clone, Copy, Debug, PartialEq, Eq, Structural)]
pub enum ShieldParam {
    /// The common parameter `shield_dec1`: how fast a held shield shrinks.
    ShieldDec1,
    /// The common parameter `shield_recovery1`: how fast a shield grows back.
    ShieldRecovery1,
    /// Any other parameter.
    Other,
}

/// The value the shield logic gives a shield parameter in place of the game's.
#[derive(Clone, Copy, Debug, PartialEq, Eq, Structural)]
pub enum ShieldParamOverride {
    /// The shield does not shrink (0.0).
    NoDecay,
    /// The shield grows back at once (999.0).
    FullRecovery,
}

/// The shield keeps its size: infinite or constant shield, or shield decay paused.
pub open spec fn shield_keeps_size(state: ShieldState, menu: TrainingModpackMenu) -> bool {
    is_only_flag(menu.shield_state@, 1) || is_only_flag(menu.shield_state@, 3) || !state.shield_decay
}

/// The override of a shield parameter: while the shield keeps its size it
/// neither shrinks nor stays small.
pub open spec fn shield_param_override(state: ShieldState, menu: TrainingModpackMenu, param: ShieldParam) -> Option<ShieldParamOverride> {
    if !shield_keeps_size(state, menu) {
        None
    } else {
        match param {
            ShieldParam::ShieldDec1 => Some(ShieldParamOverride::NoDecay),
            ShieldParam::ShieldRecovery1 => Some(ShieldParamOverride::FullRecovery),
            ShieldParam::Other => None,
        }
    }
}

/// The override of a shield parameter (see `shield_param_override`).
pub fn handle_shield_decay(state: &ShieldState, menu: &TrainingModpackMenu, param: ShieldParam) -> (r: Option<ShieldParamOverride>)
    ensures
        r == shield_param_override(*state, *menu, param),
{
    let keeps = match choice_if_single(&menu.shield_state.to_vec()) {
        Some(k) => k == 1 || k == 3,
        None => false,
    };
    if !keeps && !should_pause_shield_decay(state) {
        return None;
    }
    match param {
        ShieldParam::ShieldDec1 => Some(ShieldParamOverride::NoDecay),
        ShieldParam::ShieldRecovery1 => Some(ShieldParamOverride::FullRecovery),
        ShieldParam::Other => None,
    }
}

/// A shield parameter read: for the CPU outside of playback, hits on shield
/// are counted when a shield option is set (see `handle_oos_offset`), and the
/// parameter is overridden as `handle_shield_decay` says.
pub fn get_param_float(
    state: &mut ShieldState,
    menu: &TrainingModpackMenu,
    is_cpu: bool,
    is_playback: bool,
    in_shieldstun: bool,
    param: ShieldParam,
) -> (r: Option<ShieldParamOverride>)
    ensures
        !is_cpu || is_playback ==> r is None && *final(state) == *old(state),
        is_cpu && !is_playback ==> {
            &&& r == shield_param_override(*final(state), *menu, param)
            &&& final(state).suspend_shield == old(state).suspend_shield
            &&& final(state).shield_decay == old(state).shield_decay
            &&& is_only_flag(menu.shield_state@, 0) ==> *final(state) == *old(state)
            &&& !is_only_flag(menu.shield_state@, 0) ==> {
                &&& final(state).was_in_shieldstun == in_shieldstun
                &&& !in_shieldstun || old(state).was_in_shieldstun ==> {
                    &&& final(state).multi_hit_offset == old(state).multi_hit_offset
                    &&& final(state).shield_delay == old(state).shield_delay
                }
                &&& in_shieldstun && !old(state).was_in_shieldstun ==> {
                    &&& is_rolled_delay(final(state).shield_delay, menu.reaction_time@, 1)
                    &&& final(state).multi_hit_offset == if old(state).multi_hit_offset > 0 {
                        (old(state).multi_hit_offset - 1) as u32
                    } else {
                        0
                    }
                }
            }
        },
{
    if !is_cpu || is_playback {
        return None;
    }
    let shield_none = match choice_if_single(&menu.shield_state.to_vec()) {
        Some(k) => k == 0,
        None => false,
    };
    if !shield_none {
        handle_oos_offset(state, menu, in_shieldstun);
    }
    handle_shield_decay(state, menu, param)
}

/// The shield logic of a frame's command check: for the CPU, the hit offset is
/// rolled again while standing or in hitstun, and shield decay stops outside
/// of shield.
pub fn get_command_flag_cat(
    state: &mut ShieldState,
    menu: &TrainingModpackMenu,
    is_cpu: bool,
    idle_or_in_hitstun: bool,
    is_guarding: bool,
)
    ensures
        !is_cpu ==> *final(state) == *old(state),
        is_cpu ==> {
            &&& final(state).shield_decay == (old(state).shield_decay && is_guarding)
            &&& final(state).shield_delay == old(state).shield_delay
            &&& final(state).was_in_shieldstun == old(state).was_in_shieldstun
            &&& final(state).suspend_shield == old(state).suspend_shield
            &&& !idle_or_in_hitstun ==> final(state).multi_hit_offset == old(state).multi_hit_offset
            &&& idle_or_in_hitstun ==> final(state).multi_hit_offset >= 1 && is_rolled_delay(
                (final(state).multi_hit_offset - 1) as u32,
                menu.oos_offset@,
                1,
            )
        },
{
    if !is_cpu {
        return;
    }
    if idle_or_in_hitstun {
        reset_oos_offset(state, menu);
    }
    if !is_guarding {
        set_shield_decay(state, false);
    }
}

/// A roll or spot dodge out of shield, which the game only performs when the
/// CPU's status is changed to it.
#[derive(Clone, Copy, Debug, PartialEq, Eq, Structural)]
pub enum EscapeOption {
    SpotDodge,
    RollForward,
    RollBack,
}

/// The escape that the buffered action asks for, if any.
pub open spec fn escape_for(a: Seq<u8>) -> Option<EscapeOption> {
    if is_only_flag(a, 3) {
        Some(EscapeOption::SpotDodge)
    } else if is_only_flag(a, 4) {
        Some(EscapeOption::RollForward)
    } else if is_only_flag(a, 5) {
        Some(EscapeOption::RollBack)
    } else {
        None
    }
}

/// The menu name of the action that asks for an escape.
pub open spec fn escape_name(e: EscapeOption) -> Seq<char> {
    match e {
        EscapeOption::SpotDodge => "Spot Dodge"@,
        EscapeOption::RollForward => "Roll Forwards"@,
        EscapeOption::RollBack => "Roll Backwards"@,
    }
}

/// The escape out of shield is the one that the buffered action names: when a
/// single buffered action asks for an escape, the action's menu name is that
/// escape's (the spot dodge for "Spot Dodge", the forward roll for "Roll
/// Forwards", the backward roll for "Roll Backwards"); each of the three
/// escapes is asked for by some action; an empty buffer asks for none.
pub proof fn lemma_escape_is_the_named_action(k: int, e: EscapeOption)
    requires
        0 <= k < Action::choices(),
    ensures
        escape_for(only_flag(Action::choices(), k)) matches Some(f) ==> Action::spec_names()[k] == escape_name(f),
        exists|j: int| 0 <= j < Action::choices() && #[trigger] escape_for(only_flag(Action::choices(), j)) == Some(e),
        escape_for(Seq::new(Action::choices(), |i: int| 0u8)) is None,
{
    let n = Action::choices();
    assert(is_only_flag(only_flag(n, k), k));
    if escape_for(only_flag(n, k)) is Some {
        if is_only_flag(only_flag(n, k), 3) {
            crate::flags::lemma_only_flag_unique(only_flag(n, k), 3, k);
        } else if is_only_flag(only_flag(n, k), 4) {
            crate::flags::lemma_only_flag_unique(only_flag(n, k), 4, k);
        } else {
            crate::flags::lemma_only_flag_unique(only_flag(n, k), 5, k);
        }
    }
    let j: int = match e {
        EscapeOption::SpotDodge => 3,
        EscapeOption::RollForward => 4,
        EscapeOption::RollBack => 5,
    };
    let w = only_flag(n, j);
    assert(is_only_flag(w, j));
    if j != 3 && is_only_flag(w, 3) {
        crate::flags::lemma_only_flag_unique(w, 3, j);
    }
    if j != 4 && is_only_flag(w, 4) {
        crate::flags::lemma_only_flag_unique(w, 4, j);
    }
    assert(escape_for(w) == Some(e));
    let z = Seq::new(n, |i: int| 0u8);
    assert forall|m: int| 3 <= m <= 5 implies !is_only_flag(z, m) by {
        if is_only_flag(z, m) {
            assert(z[m] == 0);
            assert(only_flag(z.len(), m)[m] == 1);
        }
    }
}

/// The escape to perform out of shield: the buffered spot dodge or roll, when
/// the game allows an escape now.
fn handle_escape_option(mash: &MashState, escape_enabled: bool) -> (r: Option<EscapeOption>)
    ensures
        r == if escape_enabled { escape_for(current_buffer(mash.queue@)) } else { None },
{
    if !escape_enabled {
        return None;
    }
    let action = get_current_buffer(mash);
    match choice_if_single(&action.to_vec()) {
        Some(3) => Some(EscapeOption::SpotDodge),
        Some(4) => Some(EscapeOption::RollForward),
        Some(5) => Some(EscapeOption::RollBack),
        _ => None,
    }
}

/// What the game shows about the CPU while it holds its shield.
#[derive(Clone, Copy, Debug, PartialEq, Eq, Structural)]
pub struct GuardObservation {
    pub is_cpu: bool,
    /// The previous status was shieldstun.
    pub was_in_shieldstun: bool,
    pub is_shielding: bool,
    pub in_parry: bool,
    /// The game allows a roll or spot dodge now.
    pub escape_enabled: bool,
}

/// The options that an out-of-shield mash picks from: the shieldstun
/// override, or the regular mash options when it is empty.
pub open spec fn shieldstun_choices(menu: TrainingModpackMenu) -> Seq<u8> {
    if no_flags(menu.shieldstun_override@) { menu.mash_state@ } else { menu.shieldstun_override@ }
}

/// One frame of the CPU holding its shield after shieldstun. Hold shield
/// starts shield decay. Once the hit offset is used up and the reaction time
/// has passed (counted on `reaction_counter`, reset when the shield is
/// down), a parry aside, the CPU mashes out of shieldstun when the
/// shieldstun trigger is on. The buffered action then comes out: a roll or
/// spot dodge is returned for the caller to perform; other actions drop or
/// keep the shield as they need.
pub fn mod_handle_sub_guard_cont(
    shield: &mut ShieldState,
    mash: &mut MashState,
    counters: &mut Vec<FrameCounter>,
    reaction_counter: usize,
    menu: &TrainingModpackMenu,
    playback: PlaybackStatus,
    obs: GuardObservation,
) -> (r: Option<EscapeOption>)
    requires
        old(mash).aerial_delay_counter < old(counters).len(),
        reaction_counter < old(counters).len(),
    ensures
        final(shield).multi_hit_offset == old(shield).multi_hit_offset,
        final(shield).shield_delay == old(shield).shield_delay,
        final(shield).was_in_shieldstun == old(shield).was_in_shieldstun,
        final(mash).aerial_delay_counter == old(mash).aerial_delay_counter,
        final(mash).current_aerial == old(mash).current_aerial,
        final(counters)@.len() == old(counters)@.len(),
        !(obs.is_cpu && obs.was_in_shieldstun) ==> {
            &&& r is None
            &&& *final(shield) == *old(shield)
            &&& *final(mash) == *old(mash)
            &&& final(counters)@ == old(counters)@
        },
        obs.is_cpu && obs.was_in_shieldstun ==> {
            let rc = reaction_counter as int;
            let adc = old(mash).aerial_delay_counter as int;
            let c1 = old(counters)@.update(rc, after_delay_check(old(counters)@[rc], old(shield).shield_delay));
            &&& final(shield).shield_decay == (old(shield).shield_decay || is_only_flag(menu.shield_state@, 2))
            &&& old(shield).multi_hit_offset != 0 ==> {
                &&& r is None
                &&& *final(mash) == *old(mash)
                &&& final(counters)@ == old(counters)@
                &&& final(shield).suspend_shield == old(shield).suspend_shield
            }
            &&& old(shield).multi_hit_offset == 0 && !obs.is_shielding ==> {
                &&& r is None
                &&& *final(mash) == *old(mash)
                &&& final(counters)@ == old(counters)@.update(rc, fully_reset(old(counters)@[rc]))
                &&& final(shield).suspend_shield == old(shield).suspend_shield
            }
            &&& old(shield).multi_hit_offset == 0 && obs.is_shielding
                && (delay_pending(old(counters)@[rc], old(shield).shield_delay) || obs.in_parry) ==> {
                &&& r is None
                &&& *final(mash) == *old(mash)
                &&& final(counters)@ == c1
                &&& final(shield).suspend_shield == old(shield).suspend_shield
            }
            &&& old(shield).multi_hit_offset == 0 && obs.is_shielding
                && !(delay_pending(old(counters)@[rc], old(shield).shield_delay) || obs.in_parry) ==> {
                let trig = trigger_on(*menu, 1);
                let buf = current_buffer(final(mash).queue@);
                let mid_suspend = if trig && old(mash).queue@.len() > 0 { false } else { old(shield).suspend_shield };
                &&& !trig ==> *final(mash) == *old(mash) && final(counters)@ == c1
                &&& trig ==> exists|a: Action| is_random_pick(a@, shieldstun_choices(*menu))
                    && #[trigger] rebuffered(*old(mash), *final(mash), *menu, playback, a)
                &&& trig ==> final(counters)@ == if old(mash).queue@.len() > 0 {
                    c1.update(adc, fully_reset(c1[adc]))
                } else {
                    c1
                }
                &&& r == if obs.escape_enabled { escape_for(buf) } else { None }
                &&& r is Some ==> final(shield).suspend_shield == mid_suspend
                &&& r is None && drops_shield_for(buf, *menu) ==> final(shield).suspend_shield
                    == ((is_only_flag(buf, 0) && holds_shield(*menu)) || mid_suspend)
                &&& r is None && !drops_shield_for(buf, *menu) ==> final(shield).suspend_shield
                    == needs_shield_drop(buf)
            }
        },
{
    if !obs.is_cpu || !obs.was_in_shieldstun {
        return None;
    }
    let hold = match choice_if_single(&menu.shield_state.to_vec()) {
        Some(k) => k == 2,
        None => false,
    };
    if hold {
        set_shield_decay(shield, true);
    }
    if !allow_oos(shield) {
        return None;
    }
    if !obs.is_shielding {
        frame_counter::full_reset(counters, reaction_counter);
        return None;
    }
    let delay = shield.shield_delay;
    if frame_counter::should_delay(counters, delay, reaction_counter) {
        return None;
    }
    if obs.in_parry {
        return None;
    }
    if contains_weights(&menu.mash_triggers.to_vec(), &MashTrigger::SHIELDSTUN().to_vec()) {
        let pick = if weights_empty(&menu.shieldstun_override.to_vec()) {
            menu.mash_state.get_random()
        } else {
            menu.shieldstun_override.get_random()
        };
        let ghost before = *mash;
        external_buffer_menu_mash(mash, shield, counters, menu, playback, pick);
        assert(is_random_pick(pick@, shieldstun_choices(*menu)) && rebuffered(before, *mash, *menu, playback, pick));
    }
    let action = get_current_buffer(mash);
    let escape = handle_escape_option(mash, obs.escape_enabled);
    if escape.is_some() {
        return escape;
    }
    if needs_oos_handling_drop_shield(mash, shield, menu) {
        return None;
    }
    suspend_shield(shield, action);
    None
}

} // verus!
