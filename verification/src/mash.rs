//! Mash options: which action the CPU performs out of a situation, the queue
//! of buffered actions (an action and its follow-up) and the choices rolled
//! with them.
use vstd::prelude::*;
use crate::flags::{
    choice_if_single, contains_weights, flags_contains, is_only_flag, is_random_pick, lemma_random_pick_empty_or_single, no_flags, only_flag, weights_empty,
};
use crate::frame_counter::{after_delay_check, delay_pending, fully_reset, FrameCounter};
use crate::frame_counter;
use crate::ledge::is_rolled_delay;
use crate::menu::TrainingModpackMenu;
use crate::options::{Action, AttackAngle, BoolFlag, MashTrigger};
use crate::shield::{is_aerial, is_aerial_action, needs_shield_drop, suspend_shield, ShieldState};

verus! {

/// What the input recorder is doing, as the mash logic needs it.
#[derive(Clone, Copy, Debug, PartialEq, Eq, Structural)]
pub struct PlaybackStatus {
    /// Recording or playing back.
    pub is_playback: bool,
    /// Recording.
    pub is_recording: bool,
    /// Waiting to record or locked out.
    pub is_standby: bool,
}

/// The mash state of the CPU.
pub struct MashState {
    /// Buffered actions; the last one is performed first.
    pub queue: Vec<Action>,
    /// The aerial the CPU performs when an aerial is requested.
    pub current_aerial: Action,
    /// Aerials are performed while falling.
    pub falling_aerial: bool,
    /// Frames to wait before an aerial.
    pub aerial_delay: u32,
    /// Frame counter of the aerial delay.
    pub aerial_delay_counter: usize,
    /// The rolled direction of angled attacks.
    pub attack_angle: AttackAngle,
    /// Jumps are full hops.
    pub full_hop: bool,
    /// Aerials are fast-fallen.
    pub fast_fall: bool,
}

/// No action.
pub open spec fn no_action() -> Seq<u8> {
    Seq::new(30, |i: int| 0u8)
}

/// The action the CPU is buffering: the last of the queue, or no action.
pub open spec fn current_buffer(queue: Seq<Action>) -> Seq<u8> {
    if queue.len() == 0 { no_action() } else { queue.last()@ }
}

/// The action is exactly one playback slot.
pub open spec fn is_playback_action(a: Seq<u8>) -> bool {
    exists|k: int| 25 <= k <= 29 && is_only_flag(a, k)
}

/// `b` is a possible rolled value of a true/false option: true only if "True"
/// is selected, false only if "True" is not selected or "False" is.
pub open spec fn is_rolled_bool(b: bool, w: Seq<u8>) -> bool {
    &&& b ==> w[0] > 0
    &&& !b ==> (w[0] == 0 || w[1] > 0)
}

/// The same state, the queue and rolled choices aside.
pub open spec fn same_settings(a: MashState, b: MashState) -> bool {
    &&& a.current_aerial == b.current_aerial
    &&& a.falling_aerial == b.falling_aerial
    &&& a.aerial_delay_counter == b.aerial_delay_counter
    &&& a.attack_angle == b.attack_angle
    &&& a.full_hop == b.full_hop
    &&& a.fast_fall == b.fast_fall
}

/// The action the CPU is buffering.
pub fn get_current_buffer(state: &MashState) -> (a: Action)
    ensures
        a@ == current_buffer(state.queue@),
{
    if state.queue.len() == 0 {
        let a = Action::empty();
        assert(a@ =~= no_action());
        return a;
    }
    state.queue[state.queue.len() - 1]
}

/// Whether the buffered action is a playback slot.
pub fn is_playback_queued(state: &MashState) -> (b: bool)
    ensures
        b == is_playback_action(current_buffer(state.queue@)),
{
    get_current_buffer(state).is_playback()
}

/// The playback slot of the buffered action.
pub fn queued_playback_slot(state: &MashState) -> (s: usize)
    requires
        is_playback_action(current_buffer(state.queue@)),
    ensures
        s < 5,
        is_only_flag(current_buffer(state.queue@), s + 25),
{
    get_current_buffer(state).playback_slot()
}

/// Whether the CPU is trying to dash attack while dashing.
pub fn is_dashing_for_dash_attack(state: &MashState, is_dashing: bool) -> (b: bool)
    ensures
        b == (is_only_flag(current_buffer(state.queue@), 24) && is_dashing),
{
    let action = get_current_buffer(state);
    let is_dash_attack = match choice_if_single(&action.to_vec()) {
        Some(k) => k == 24,
        None => false,
    };
    is_dash_attack && is_dashing
}

fn rolled_bool(w: &BoolFlag) -> (b: bool)
    ensures
        is_rolled_bool(b, w@),
{
    let pick = w.get_random();
    pick.into_bool()
}

/// Rolls the aerial delay from the menu when the action is an aerial.
pub fn roll_aerial_delay(state: &mut MashState, menu: &TrainingModpackMenu, action: Action)
    ensures
        final(state).queue@ == old(state).queue@,
        same_settings(*final(state), *old(state)),
        !is_aerial_action(action@) ==> final(state).aerial_delay == old(state).aerial_delay,
        is_aerial_action(action@) ==> is_rolled_delay(final(state).aerial_delay, menu.aerial_delay@, 1),
{
    if !is_aerial(action) {
        return;
    }
    let pick = menu.aerial_delay.get_random();
    proof {
        lemma_random_pick_empty_or_single(pick@, menu.aerial_delay@);
    }
    state.aerial_delay = pick.into_delay();
    proof {
        if !no_flags(menu.aerial_delay@) {
            let k = choose|k: int| 0 <= k < menu.aerial_delay@.len() && menu.aerial_delay@[k] > 0
                && pick@ == only_flag(menu.aerial_delay@.len(), k);
            assert(is_only_flag(pick@, k));
        }
    }
}

/// Buffers a random follow-up from the menu in front of the queue, unless the
/// pick is no action.
pub fn buffer_follow_up(state: &mut MashState, menu: &TrainingModpackMenu)
    ensures
        same_settings(*final(state), *old(state)),
        exists|f: Action| {
            &&& is_random_pick(f@, menu.follow_up@)
            &&& no_flags(f@) ==> final(state).queue@ == old(state).queue@
                && final(state).aerial_delay == old(state).aerial_delay
            &&& !no_flags(f@) ==> final(state).queue@ == seq![f].add(old(state).queue@)
                && (is_aerial_action(f@) ==> is_rolled_delay(final(state).aerial_delay, menu.aerial_delay@, 1))
                && (!is_aerial_action(f@) ==> final(state).aerial_delay == old(state).aerial_delay)
        },
{
    let action = menu.follow_up.get_random();
    if weights_empty(&action.to_vec()) {
        return;
    }
    roll_aerial_delay(state, menu, action);
    state.queue.insert(0, action);
    assert(state.queue@ =~= seq![action].add(old(state).queue@));
}

/// Buffering is refused: something is already buffered, there is no action, or
/// a playback that mashing may not interrupt is running.
pub open spec fn buffer_refused(state: MashState, menu: TrainingModpackMenu, playback: PlaybackStatus, action: Action) -> bool {
    ||| state.queue@.len() > 0
    ||| no_flags(action@)
    ||| (is_only_flag(menu.playback_mash@, 0) && playback.is_playback && !playback.is_recording
        && !playback.is_standby && !is_playback_action(action@))
}

/// Buffers an action and a random follow-up from the menu, rolling the attack
/// angle and, for aerials, the aerial delay. Nothing happens when something is
/// already buffered, when the action is no action, or when a playback is
/// running that mashing may not interrupt.
pub fn buffer_action(state: &mut MashState, menu: &TrainingModpackMenu, playback: PlaybackStatus, action: Action)
    ensures
        buffer_refused(*old(state), *menu, playback, action) ==> {
            &&& final(state).queue@ == old(state).queue@
            &&& final(state).aerial_delay == old(state).aerial_delay
            &&& same_settings(*final(state), *old(state))
        },
        !buffer_refused(*old(state), *menu, playback, action) ==> {
            &&& is_random_pick(final(state).attack_angle@, menu.attack_angle@)
            &&& final(state).current_aerial == old(state).current_aerial
            &&& final(state).falling_aerial == old(state).falling_aerial
            &&& final(state).aerial_delay_counter == old(state).aerial_delay_counter
            &&& final(state).full_hop == old(state).full_hop
            &&& final(state).fast_fall == old(state).fast_fall
            &&& exists|f: Action| {
                &&& is_random_pick(f@, menu.follow_up@)
                &&& no_flags(f@) ==> final(state).queue@ == seq![action]
                &&& !no_flags(f@) ==> final(state).queue@ == seq![f, action]
                &&& (is_aerial_action(action@) || (!no_flags(f@) && is_aerial_action(f@)))
                    ==> is_rolled_delay(final(state).aerial_delay, menu.aerial_delay@, 1)
                &&& !(is_aerial_action(action@) || (!no_flags(f@) && is_aerial_action(f@)))
                    ==> final(state).aerial_delay == old(state).aerial_delay
            }
        },
{
    if state.queue.len() > 0 {
        return;
    }
    if weights_empty(&action.to_vec()) {
        return;
    }
    let playback_mash_on = match choice_if_single(&menu.playback_mash.to_vec()) {
        Some(k) => k == 0,
        None => false,
    };
    if playback_mash_on && playback.is_playback && !playback.is_recording && !playback.is_standby
        && !is_playback_queued(state) && !action.is_playback() {
        if playback.is_playback {
            proof {
                assert(current_buffer(state.queue@) =~= no_action());
            }
            return;
        }
    }
    proof {
        assert(current_buffer(state.queue@) =~= no_action());
        assert(!is_playback_action(no_action())) by {
            if is_playback_action(no_action()) {
                let k = choose|k: int| 25 <= k <= 29 && is_only_flag(no_action(), k);
                assert(no_action()[k] == only_flag(30, k)[k]);
            }
        }
    }
    state.attack_angle = menu.attack_angle.get_random();
    roll_aerial_delay(state, menu, action);
    let ghost mid = *state;
    state.queue.insert(0, action);
    assert(state.queue@ =~= seq![action]);
    buffer_follow_up(state, menu);
    proof {
        let f = choose|f: Action| {
            &&& is_random_pick(f@, menu.follow_up@)
            &&& no_flags(f@) ==> state.queue@ == seq![action] && state.aerial_delay == mid.aerial_delay
            &&& !no_flags(f@) ==> state.queue@ == seq![f].add(seq![action])
                && (is_aerial_action(f@) ==> is_rolled_delay(state.aerial_delay, menu.aerial_delay@, 1))
                && (!is_aerial_action(f@) ==> state.aerial_delay == mid.aerial_delay)
        };
        assert(seq![f].add(seq![action]) =~= seq![f, action]);
    }
}

/// The outcome of `reset`: `m0`, `s0` and `c0` before, `m1`, `s1` and `c1` after.
pub open spec fn mash_reset(
    m0: MashState,
    m1: MashState,
    s0: ShieldState,
    s1: ShieldState,
    c0: Seq<FrameCounter>,
    c1: Seq<FrameCounter>,
) -> bool {
    &&& m1.queue@ == if m0.queue@.len() > 0 { m0.queue@.drop_last() } else { m0.queue@ }
    &&& same_settings(m1, m0)
    &&& m1.aerial_delay == 0
    &&& s1.suspend_shield == needs_shield_drop(current_buffer(m1.queue@))
    &&& s1.multi_hit_offset == s0.multi_hit_offset
    &&& s1.shield_delay == s0.shield_delay
    &&& s1.was_in_shieldstun == s0.was_in_shieldstun
    &&& s1.shield_decay == s0.shield_decay
    &&& c1 == c0.update(m0.aerial_delay_counter as int, fully_reset(c0[m0.aerial_delay_counter as int]))
}

/// Drops the action that was performed (the last one), lets the shield logic
/// know about the next action, and clears the aerial delay.
pub fn reset(state: &mut MashState, shield: &mut ShieldState, counters: &mut Vec<FrameCounter>)
    requires
        old(state).aerial_delay_counter < old(counters).len(),
    ensures
        mash_reset(*old(state), *final(state), *old(shield), *final(shield), old(counters)@, final(counters)@),

{
    state.queue.pop();
    let next = get_current_buffer(state);
    suspend_shield(shield, next);
    frame_counter::full_reset(counters, state.aerial_delay_counter);
    state.aerial_delay = 0;
}

/// Drops every buffered action, one by one as `reset` does.
pub fn full_reset(state: &mut MashState, shield: &mut ShieldState, counters: &mut Vec<FrameCounter>)
    requires
        old(state).aerial_delay_counter < old(counters).len(),
    ensures
        final(state).queue@.len() == 0,
        same_settings(*final(state), *old(state)),
        old(state).queue@.len() == 0 ==> {
            &&& final(state).aerial_delay == old(state).aerial_delay
            &&& final(shield).suspend_shield == old(shield).suspend_shield
            &&& final(counters)@ == old(counters)@
        },
        old(state).queue@.len() > 0 ==> {
            &&& final(state).aerial_delay == 0
            &&& !final(shield).suspend_shield
            &&& final(counters)@ == old(counters)@.update(
                old(state).aerial_delay_counter as int,
                fully_reset(old(counters)@[old(state).aerial_delay_counter as int]),
            )
        },
        final(shield).multi_hit_offset == old(shield).multi_hit_offset,
        final(shield).shield_delay == old(shield).shield_delay,
        final(shield).was_in_shieldstun == old(shield).was_in_shieldstun,
        final(shield).shield_decay == old(shield).shield_decay,
{
    let ghost first = true;
    while state.queue.len() > 0
        invariant
            state.aerial_delay_counter == old(state).aerial_delay_counter,
            state.aerial_delay_counter < counters.len(),
            counters@.len() == old(counters)@.len(),
            same_settings(*state, *old(state)),
            state.queue@.len() <= old(state).queue@.len(),
            state.queue@.len() == old(state).queue@.len() ==> {
                &&& state.aerial_delay == old(state).aerial_delay
                &&& shield.suspend_shield == old(shield).suspend_shield
                &&& counters@ == old(counters)@
            },
            state.queue@.len() < old(state).queue@.len() ==> {
                &&& state.aerial_delay == 0
                &&& shield.suspend_shield == needs_shield_drop(current_buffer(state.queue@))
                &&& counters@ == old(counters)@.update(
                    old(state).aerial_delay_counter as int,
                    fully_reset(old(counters)@[old(state).aerial_delay_counter as int]),
                )
            },
            shield.multi_hit_offset == old(shield).multi_hit_offset,
            shield.shield_delay == old(shield).shield_delay,
            shield.was_in_shieldstun == old(shield).was_in_shieldstun,
            shield.shield_decay == old(shield).shield_decay,
        decreases state.queue@.len(),
    {
        let ghost before = counters@;
        reset(state, shield, counters);
        proof {
            let i = old(state).aerial_delay_counter as int;
            if before != old(counters)@ {
                assert(before[i] == fully_reset(old(counters)@[i]));
            }
            assert(counters@ =~= old(counters)@.update(i, fully_reset(old(counters)@[i])));
        }
    }
    proof {
        if old(state).queue@.len() > 0 {
            assert(current_buffer(state.queue@) =~= no_action());
            assert(!needs_shield_drop(no_action()));
        }
    }
}

/// Empties the queue without touching anything else.
pub fn clear_queue(state: &mut MashState)
    ensures
        final(state).queue@.len() == 0,
        final(state).aerial_delay == old(state).aerial_delay,
        same_settings(*final(state), *old(state)),
{
    state.queue.clear();
}

/// Sets the aerial the CPU performs.
pub fn set_aerial(state: &mut MashState, attack: Action)
    ensures
        final(state).current_aerial == attack,
        final(state).queue@ == old(state).queue@,
        final(state).falling_aerial == old(state).falling_aerial,
        final(state).aerial_delay == old(state).aerial_delay,
        final(state).aerial_delay_counter == old(state).aerial_delay_counter,
        final(state).attack_angle == old(state).attack_angle,
        final(state).full_hop == old(state).full_hop,
        final(state).fast_fall == old(state).fast_fall,
{
    state.current_aerial = attack;
}

/// Buffers a menu mash (see `buffer_action`) and rolls the jump height, fast
/// fall and falling aerial choices.
pub fn buffer_menu_mash(state: &mut MashState, menu: &TrainingModpackMenu, playback: PlaybackStatus, action: Action)
    ensures
        final(state).current_aerial == old(state).current_aerial,
        final(state).aerial_delay_counter == old(state).aerial_delay_counter,
        is_rolled_bool(final(state).full_hop, menu.full_hop@),
        is_rolled_bool(final(state).fast_fall, menu.fast_fall@),
        is_rolled_bool(final(state).falling_aerial, menu.falling_aerials@),
        buffer_refused(*old(state), *menu, playback, action) ==> final(state).queue@ == old(state).queue@,
        !buffer_refused(*old(state), *menu, playback, action) ==> {
            ||| final(state).queue@ == seq![action]
            ||| exists|f: Action| is_random_pick(f@, menu.follow_up@) && !no_flags(f@)
                && final(state).queue@ == seq![f, action]
        },
{
    buffer_action(state, menu, playback, action);
    state.full_hop = rolled_bool(&menu.full_hop);
    state.fast_fall = rolled_bool(&menu.fast_fall);
    state.falling_aerial = rolled_bool(&menu.falling_aerials);
}

/// The random pick of an override, or when it is empty, of the regular mash
/// options if the situation's trigger is enabled.
pub open spec fn is_situation_pick(r: Option<Action>, override_set: Action, trigger_on: bool, menu: TrainingModpackMenu) -> bool {
    if !no_flags(override_set@) {
        r matches Some(a) && is_random_pick(a@, override_set@)
    } else if trigger_on {
        r matches Some(a) && is_random_pick(a@, menu.mash_state@)
    } else {
        r is None
    }
}

/// The situations in which the CPU may mash, as the game reports them. The
/// distance checks compare the distance between the fighters with the close,
/// mid and far thresholds.
#[derive(Clone, Copy, Debug, PartialEq, Eq, Structural)]
pub struct MashSituation {
    pub is_loading: bool,
    pub in_tech: bool,
    pub in_clatter: bool,
    pub in_tumble: bool,
    pub in_hitstun: bool,
    pub in_parry: bool,
    pub in_shieldstun: bool,
    pub in_footstool: bool,
    pub in_ledgetrump: bool,
    pub in_landing: bool,
    pub is_grounded: bool,
    pub is_airborne: bool,
    pub within_close_distance: bool,
    pub within_mid_distance: bool,
    pub within_far_distance: bool,
}

/// Trigger `k` of the mash triggers is enabled.
pub open spec fn trigger_on(menu: TrainingModpackMenu, k: int) -> bool {
    flags_contains(menu.mash_triggers@, only_flag(17, k))
}

fn trigger_enabled(menu: &TrainingModpackMenu, trigger: MashTrigger) -> (b: bool)
    ensures
        b == flags_contains(menu.mash_triggers@, trigger@),
{
    contains_weights(&menu.mash_triggers.to_vec(), &trigger.to_vec())
}

fn pick_for_situation(menu: &TrainingModpackMenu, override_set: &Action, trigger: MashTrigger) -> (r: Option<Action>)
    ensures
        is_situation_pick(r, *override_set, flags_contains(menu.mash_triggers@, trigger@), *menu),
{
    let action = override_set.get_random();
    if !weights_empty(&action.to_vec()) {
        Some(action)
    } else if trigger_enabled(menu, trigger) {
        Some(menu.mash_state.get_random())
    } else {
        None
    }
}

/// The generic triggers (grounded, airborne, distance, always) allow a mash.
pub open spec fn generic_trigger(menu: TrainingModpackMenu, s: MashSituation) -> bool {
    ||| trigger_on(menu, 11) && s.is_grounded
    ||| trigger_on(menu, 12) && s.is_airborne
    ||| trigger_on(menu, 13) && s.within_close_distance
    ||| trigger_on(menu, 14) && s.within_mid_distance
    ||| trigger_on(menu, 15) && s.within_far_distance
    ||| trigger_on(menu, 16)
}

/// `r` is a possible buffered action for situation `s` (see `get_buffered_action`).
pub open spec fn is_buffered_pick(r: Option<Action>, menu: TrainingModpackMenu, s: MashSituation) -> bool {
    &&& s.is_loading ==> r is None
    &&& !s.is_loading && s.in_tech ==> is_situation_pick(r, menu.tech_action_override, trigger_on(menu, 9), menu)
    &&& !s.is_loading && !s.in_tech && s.in_clatter ==> is_situation_pick(r, menu.clatter_override, trigger_on(menu, 7), menu)
    &&& !s.is_loading && !s.in_tech && !s.in_clatter && s.in_tumble
        ==> is_situation_pick(r, menu.tumble_override, trigger_on(menu, 3), menu)
    &&& !s.is_loading && !s.in_tech && !s.in_clatter && !s.in_tumble && s.in_hitstun
        ==> is_situation_pick(r, menu.hitstun_override, trigger_on(menu, 0), menu)
    &&& !s.is_loading && !s.in_tech && !s.in_clatter && !s.in_tumble && !s.in_hitstun && s.in_parry
        ==> is_situation_pick(r, menu.parry_override, trigger_on(menu, 2), menu)
    &&& !s.is_loading && !s.in_tech && !s.in_clatter && !s.in_tumble && !s.in_hitstun && !s.in_parry
        && s.in_shieldstun ==> is_situation_pick(r, menu.shieldstun_override, trigger_on(menu, 1), menu)
    &&& !s.is_loading && !s.in_tech && !s.in_clatter && !s.in_tumble && !s.in_hitstun && !s.in_parry
        && !s.in_shieldstun && s.in_footstool
        ==> is_situation_pick(r, menu.footstool_override, trigger_on(menu, 6), menu)
    &&& !s.is_loading && !s.in_tech && !s.in_clatter && !s.in_tumble && !s.in_hitstun && !s.in_parry
        && !s.in_shieldstun && !s.in_footstool && s.in_ledgetrump
        ==> is_situation_pick(r, menu.trump_override, trigger_on(menu, 5), menu)
    &&& !s.is_loading && !s.in_tech && !s.in_clatter && !s.in_tumble && !s.in_hitstun && !s.in_parry
        && !s.in_shieldstun && !s.in_footstool && !s.in_ledgetrump && s.in_landing
        ==> is_situation_pick(r, menu.landing_override, trigger_on(menu, 4), menu)
    &&& !s.is_loading && !s.in_tech && !s.in_clatter && !s.in_tumble && !s.in_hitstun && !s.in_parry
        && !s.in_shieldstun && !s.in_footstool && !s.in_ledgetrump && !s.in_landing ==> {
        &&& generic_trigger(menu, s) ==> (r matches Some(a) && is_random_pick(a@, menu.mash_state@))
        &&& !generic_trigger(menu, s) ==> r is None
    }
}

/// The mash action for the CPU's situation: the first situation that applies
/// decides (tech, clatter, tumble, hitstun, parry, shieldstun, footstool, ledge
/// trump, landing), using its override set or else the regular mash options if
/// its trigger is enabled; otherwise the generic triggers decide. Nothing while
/// a save state loads.
pub fn get_buffered_action(menu: &TrainingModpackMenu, s: MashSituation) -> (r: Option<Action>)
    ensures
        is_buffered_pick(r, *menu, s),
{
    if s.is_loading {
        return None;
    }
    if s.in_tech {
        pick_for_situation(menu, &menu.tech_action_override, MashTrigger::TECH())
    } else if s.in_clatter {
        pick_for_situation(menu, &menu.clatter_override, MashTrigger::CLATTER())
    } else if s.in_tumble {
        pick_for_situation(menu, &menu.tumble_override, MashTrigger::TUMBLE())
    } else if s.in_hitstun {
        pick_for_situation(menu, &menu.hitstun_override, MashTrigger::HIT())
    } else if s.in_parry {
        pick_for_situation(menu, &menu.parry_override, MashTrigger::PARRY())
    } else if s.in_shieldstun {
        pick_for_situation(menu, &menu.shieldstun_override, MashTrigger::SHIELDSTUN())
    } else if s.in_footstool {
        pick_for_situation(menu, &menu.footstool_override, MashTrigger::FOOTSTOOL())
    } else if s.in_ledgetrump {
        pick_for_situation(menu, &menu.trump_override, MashTrigger::TRUMP())
    } else if s.in_landing {
        pick_for_situation(menu, &menu.landing_override, MashTrigger::LANDING())
    } else if (trigger_enabled(menu, MashTrigger::GROUNDED()) && s.is_grounded)
        || (trigger_enabled(menu, MashTrigger::AIRBORNE()) && s.is_airborne)
        || (trigger_enabled(menu, MashTrigger::DISTANCE_CLOSE()) && s.within_close_distance)
        || (trigger_enabled(menu, MashTrigger::DISTANCE_MID()) && s.within_mid_distance)
        || (trigger_enabled(menu, MashTrigger::DISTANCE_FAR()) && s.within_far_distance)
        || trigger_enabled(menu, MashTrigger::ALWAYS()) {
        Some(menu.mash_state.get_random())
    } else {
        None
    }
}

/// `new` is `old` after dropping everything buffered and buffering a menu
/// mash of `action` (see `buffer_menu_mash`): the queue holds the action, and
/// maybe a follow-up, unless buffering is refused, and the jump height, fast
/// fall and falling aerial choices are rolled.
pub open spec fn rebuffered(old: MashState, new: MashState, menu: TrainingModpackMenu, playback: PlaybackStatus, action: Action) -> bool {
    let refused = no_flags(action@) || (is_only_flag(menu.playback_mash@, 0) && playback.is_playback
        && !playback.is_recording && !playback.is_standby && !is_playback_action(action@));
    &&& new.current_aerial == old.current_aerial
    &&& new.aerial_delay_counter == old.aerial_delay_counter
    &&& is_rolled_bool(new.full_hop, menu.full_hop@)
    &&& is_rolled_bool(new.fast_fall, menu.fast_fall@)
    &&& is_rolled_bool(new.falling_aerial, menu.falling_aerials@)
    &&& refused ==> new.queue@.len() == 0
    &&& !refused ==> {
        ||| new.queue@ == seq![action]
        ||| exists|f: Action| is_random_pick(f@, menu.follow_up@) && !no_flags(f@)
            && new.queue@ == seq![f, action]
    }
}

/// Drops everything buffered (see `full_reset`), then buffers a menu mash
/// (see `buffer_menu_mash`).
pub fn external_buffer_menu_mash(
    state: &mut MashState,
    shield: &mut ShieldState,
    counters: &mut Vec<FrameCounter>,
    menu: &TrainingModpackMenu,
    playback: PlaybackStatus,
    action: Action,
)
    requires
        old(state).aerial_delay_counter < old(counters).len(),
    ensures
        rebuffered(*old(state), *final(state), *menu, playback, action),
        old(state).queue@.len() == 0 ==> {
            &&& final(shield).suspend_shield == old(shield).suspend_shield
            &&& final(counters)@ == old(counters)@
        },
        old(state).queue@.len() > 0 ==> {
            &&& !final(shield).suspend_shield
            &&& final(counters)@ == old(counters)@.update(
                old(state).aerial_delay_counter as int,
                fully_reset(old(counters)@[old(state).aerial_delay_counter as int]),
            )
        },
        final(shield).multi_hit_offset == old(shield).multi_hit_offset,
        final(shield).shield_delay == old(shield).shield_delay,
        final(shield).was_in_shieldstun == old(shield).was_in_shieldstun,
        final(shield).shield_decay == old(shield).shield_decay,
{
    full_reset(state, shield, counters);
    buffer_menu_mash(state, menu, playback, action);
}

/// Each frame the CPU checks what its situation asks it to mash (see
/// `get_buffered_action`); a new action replaces whatever is buffered (see
/// `external_buffer_menu_mash`), unless a dash attack is beginning, which
/// commands could turn into a roll or a grab.
pub fn check_buffer(
    state: &mut MashState,
    shield: &mut ShieldState,
    counters: &mut Vec<FrameCounter>,
    menu: &TrainingModpackMenu,
    playback: PlaybackStatus,
    s: MashSituation,
    beginning_dash_attack: bool,
)
    requires
        old(state).aerial_delay_counter < old(counters).len(),
    ensures
        final(state).aerial_delay_counter == old(state).aerial_delay_counter,
        final(counters)@.len() == old(counters)@.len(),
        exists|r: Option<Action>| {
            &&& #[trigger] is_buffered_pick(r, *menu, s)
            &&& (r is None || beginning_dash_attack) ==> *final(state) == *old(state) && *final(shield) == *old(shield)
                && final(counters)@ == old(counters)@
            &&& r matches Some(a) ==> !beginning_dash_attack ==> {
                let i = old(state).aerial_delay_counter as int;
                &&& rebuffered(*old(state), *final(state), *menu, playback, a)
                &&& final(shield).multi_hit_offset == old(shield).multi_hit_offset
                &&& final(shield).shield_delay == old(shield).shield_delay
                &&& final(shield).was_in_shieldstun == old(shield).was_in_shieldstun
                &&& final(shield).shield_decay == old(shield).shield_decay
                &&& old(state).queue@.len() == 0 ==> final(shield).suspend_shield == old(shield).suspend_shield
                    && final(counters)@ == old(counters)@
                &&& old(state).queue@.len() > 0 ==> !final(shield).suspend_shield
                    && final(counters)@ == old(counters)@.update(i, fully_reset(old(counters)@[i]))
            }
        },
{
    let buffered = get_buffered_action(menu, s);
    if let Some(action) = buffered {
        if !beginning_dash_attack {
            external_buffer_menu_mash(state, shield, counters, menu, playback, action);
        }
    }
    assert(is_buffered_pick(buffered, *menu, s));
}

/// An aerial waits for the aerial delay: not without a delay or once the
/// aerial is out; until an aerial can be taken; then until the delay has
/// passed on the aerial delay counter.
pub fn should_delay_aerial(
    state: &MashState,
    counters: &mut Vec<FrameCounter>,
    in_attack_air: bool,
    can_attack_air: bool,
) -> (b: bool)
    requires
        state.aerial_delay_counter < old(counters).len(),
    ensures
        ({
            let i = state.aerial_delay_counter as int;
            let checks = state.aerial_delay != 0 && !in_attack_air && can_attack_air;
            &&& !checks ==> final(counters)@ == old(counters)@
                && b == (state.aerial_delay != 0 && !in_attack_air && !can_attack_air)
            &&& checks ==> b == delay_pending(old(counters)@[i], state.aerial_delay)
                && final(counters)@ == old(counters)@.update(i, after_delay_check(old(counters)@[i], state.aerial_delay))
        }),
{
    if state.aerial_delay == 0 {
        return false;
    }
    if in_attack_air {
        return false;
    }
    if !can_attack_air {
        return true;
    }
    frame_counter::should_delay(counters, state.aerial_delay, state.aerial_delay_counter)
}

/// The command flag of the buffered action this frame: once the CPU is in
/// the action's status (or a fighter's own version of it) the action is done
/// and dropped (see `reset`); while dashing no command is given, since dash
/// attacks come from status changes.
pub fn get_flag(
    state: &mut MashState,
    shield: &mut ShieldState,
    counters: &mut Vec<FrameCounter>,
    at_expected_status: bool,
    in_dash: bool,
    fighter_status_matches: bool,
    command_flag: i32,
) -> (flag: i32)
    requires
        old(state).aerial_delay_counter < old(counters).len(),
    ensures
        final(state).aerial_delay_counter == old(state).aerial_delay_counter,
        flag == if in_dash { 0 } else { command_flag },
        !at_expected_status && (in_dash || !fighter_status_matches) ==> *final(state) == *old(state)
            && *final(shield) == *old(shield) && final(counters)@ == old(counters)@,
        at_expected_status && (in_dash || !fighter_status_matches) ==> mash_reset(*old(state), *final(state),
            *old(shield), *final(shield), old(counters)@, final(counters)@),
        !at_expected_status && !in_dash && fighter_status_matches ==> mash_reset(*old(state), *final(state),
            *old(shield), *final(shield), old(counters)@, final(counters)@),
        at_expected_status && !in_dash && fighter_status_matches ==> exists|m: MashState, s: ShieldState,
            c: Seq<FrameCounter>| #[trigger] mash_reset(*old(state), m, *old(shield), s, old(counters)@, c)
            && mash_reset(m, *final(state), s, *final(shield), c, final(counters)@),
{
    if at_expected_status {
        reset(state, shield, counters);
    }
    if in_dash {
        return 0;
    }
    if fighter_status_matches {
        reset(state, shield, counters);
    }
    command_flag
}

} // verus!
