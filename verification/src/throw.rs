//! Throw options: which throw the CPU performs and the delays before it
//! throws and pummels.
use vstd::prelude::*;
use crate::flags::{
    choice_if_single, is_only_flag, is_random_pick, lemma_random_pick_empty_or_single, no_flags, only_flag,
    weights_empty,
};
use crate::frame_counter::{after_delay_check, delay_pending, full_reset, fully_reset, should_delay, FrameCounter};
use crate::mash::{external_buffer_menu_mash, rebuffered, MashState, PlaybackStatus};
use crate::shield::ShieldState;
use crate::ledge::{is_rolled_delay, NOT_SET};
use crate::menu::TrainingModpackMenu;
use crate::options::{Action, MedDelay, ThrowOption};

verus! {

/// The throw situation: the rolled delays, the rolled throw and the frame
/// counters of the delays.
pub struct ThrowState {
    pub throw_delay: u32,
    pub pummel_delay: u32,
    pub case: ThrowOption,
    pub throw_delay_counter: usize,
    pub pummel_delay_counter: usize,
}

/// Forgets the rolled throw delay and clears its counter, if one was rolled.
pub fn reset_throw_delay(state: &mut ThrowState, counters: &mut Vec<FrameCounter>)
    requires
        old(state).throw_delay_counter < old(counters).len(),
    ensures
        final(state).throw_delay == NOT_SET,
        final(state).pummel_delay == old(state).pummel_delay,
        final(state).case == old(state).case,
        final(state).throw_delay_counter == old(state).throw_delay_counter,
        final(state).pummel_delay_counter == old(state).pummel_delay_counter,
        old(state).throw_delay == NOT_SET ==> final(counters)@ == old(counters)@,
        old(state).throw_delay != NOT_SET ==> final(counters)@ == old(counters)@.update(
            old(state).throw_delay_counter as int,
            fully_reset(old(counters)@[old(state).throw_delay_counter as int]),
        ),
{
    if state.throw_delay != NOT_SET {
        state.throw_delay = NOT_SET;
        full_reset(counters, state.throw_delay_counter);
    }
}

/// Forgets the rolled pummel delay and clears its counter, if one was rolled.
pub fn reset_pummel_delay(state: &mut ThrowState, counters: &mut Vec<FrameCounter>)
    requires
        old(state).pummel_delay_counter < old(counters).len(),
    ensures
        final(state).pummel_delay == NOT_SET,
        final(state).throw_delay == old(state).throw_delay,
        final(state).case == old(state).case,
        final(state).throw_delay_counter == old(state).throw_delay_counter,
        final(state).pummel_delay_counter == old(state).pummel_delay_counter,
        old(state).pummel_delay == NOT_SET ==> final(counters)@ == old(counters)@,
        old(state).pummel_delay != NOT_SET ==> final(counters)@ == old(counters)@.update(
            old(state).pummel_delay_counter as int,
            fully_reset(old(counters)@[old(state).pummel_delay_counter as int]),
        ),
{
    if state.pummel_delay != NOT_SET {
        state.pummel_delay = NOT_SET;
        full_reset(counters, state.pummel_delay_counter);
    }
}

/// Forgets the rolled throw.
pub fn reset_throw_case(state: &mut ThrowState)
    ensures
        no_flags(final(state).case@),
        final(state).throw_delay == old(state).throw_delay,
        final(state).pummel_delay == old(state).pummel_delay,
        final(state).throw_delay_counter == old(state).throw_delay_counter,
        final(state).pummel_delay_counter == old(state).pummel_delay_counter,
{
    if !weights_empty(&state.case.to_vec()) {
        state.case = ThrowOption::empty();
    }
}

fn rolled_med_delay(w: &MedDelay) -> (d: u32)
    ensures
        is_rolled_delay(d, w@, 5),
{
    let pick = w.get_random();
    proof {
        lemma_random_pick_empty_or_single(pick@, w@);
    }
    let d = pick.into_meddelay();
    proof {
        if !no_flags(w@) {
            let k = choose|k: int| 0 <= k < w@.len() && w@[k] > 0 && pick@ == only_flag(w@.len(), k);
            assert(is_only_flag(pick@, k));
        }
    }
    d
}

/// Rolls the throw delay from the menu, unless one is already rolled.
pub fn roll_throw_delay(state: &mut ThrowState, menu: &TrainingModpackMenu)
    ensures
        final(state).pummel_delay == old(state).pummel_delay,
        final(state).case == old(state).case,
        final(state).throw_delay_counter == old(state).throw_delay_counter,
        final(state).pummel_delay_counter == old(state).pummel_delay_counter,
        old(state).throw_delay != NOT_SET ==> final(state).throw_delay == old(state).throw_delay,
        old(state).throw_delay == NOT_SET ==> is_rolled_delay(final(state).throw_delay, menu.throw_delay@, 5),
{
    if state.throw_delay == NOT_SET {
        state.throw_delay = rolled_med_delay(&menu.throw_delay);
    }
}

/// Rolls the pummel delay from the menu, unless one is already rolled.
pub fn roll_pummel_delay(state: &mut ThrowState, menu: &TrainingModpackMenu)
    ensures
        final(state).throw_delay == old(state).throw_delay,
        final(state).case == old(state).case,
        final(state).throw_delay_counter == old(state).throw_delay_counter,
        final(state).pummel_delay_counter == old(state).pummel_delay_counter,
        old(state).pummel_delay != NOT_SET ==> final(state).pummel_delay == old(state).pummel_delay,
        old(state).pummel_delay == NOT_SET ==> is_rolled_delay(final(state).pummel_delay, menu.pummel_delay@, 5),
{
    if state.pummel_delay == NOT_SET {
        state.pummel_delay = rolled_med_delay(&menu.pummel_delay);
    }
}

/// Rolls the throw from the menu, unless one is already rolled.
pub fn roll_throw_case(state: &mut ThrowState, menu: &TrainingModpackMenu)
    ensures
        final(state).throw_delay == old(state).throw_delay,
        final(state).pummel_delay == old(state).pummel_delay,
        final(state).throw_delay_counter == old(state).throw_delay_counter,
        final(state).pummel_delay_counter == old(state).pummel_delay_counter,
        !no_flags(old(state).case@) ==> final(state).case == old(state).case,
        no_flags(old(state).case@) ==> is_random_pick(final(state).case@, menu.throw_state@),
{
    if weights_empty(&state.case.to_vec()) {
        state.case = menu.throw_state.get_random();
    }
}

/// What the game shows about the CPU while it holds the player.
#[derive(Clone, Copy, Debug, PartialEq, Eq, Structural)]
pub struct ThrowObservation {
    pub is_cpu: bool,
    /// The CPU is in a grab: pulling, holding or pummelling.
    pub is_holding: bool,
    /// The CPU can throw now.
    pub can_throw: bool,
    /// The CPU is holding and not pummelling.
    pub in_catch_wait: bool,
}

/// What the CPU does with the player it holds.
#[derive(Clone, Copy, Debug, PartialEq, Eq, Structural)]
pub enum ThrowDecision {
    Nothing,
    /// Pummel now.
    Pummel,
    /// Throw this way (the caller turns it into the game's command).
    Throw(ThrowOption),
}

/// `new` is `old` with the throw delay, throw and pummel delay rolled when
/// not rolled yet (see the `roll_` functions).
pub open spec fn throw_rolled(old: ThrowState, new: ThrowState, menu: TrainingModpackMenu) -> bool {
    &&& old.throw_delay != NOT_SET ==> new.throw_delay == old.throw_delay
    &&& old.throw_delay == NOT_SET ==> is_rolled_delay(new.throw_delay, menu.throw_delay@, 5)
    &&& old.pummel_delay != NOT_SET ==> new.pummel_delay == old.pummel_delay
    &&& old.pummel_delay == NOT_SET ==> is_rolled_delay(new.pummel_delay, menu.pummel_delay@, 5)
    &&& !no_flags(old.case@) ==> new.case == old.case
    &&& no_flags(old.case@) ==> is_random_pick(new.case@, menu.throw_state@)
    &&& new.throw_delay_counter == old.throw_delay_counter
    &&& new.pummel_delay_counter == old.pummel_delay_counter
}

/// One frame of the CPU holding the player. Out of a grab, the rolled throw
/// and delays are forgotten. When the CPU can throw, the throw and delays are
/// rolled if needed; unless the throw is "None", the CPU pummels (when a
/// pummel delay is set and has passed, from the holding status) until the
/// throw delay has passed, then throws and mashes from the menu.
pub fn get_command_flag_throw_direction(
    state: &mut ThrowState,
    mash: &mut MashState,
    shield: &mut ShieldState,
    counters: &mut Vec<FrameCounter>,
    menu: &TrainingModpackMenu,
    playback: PlaybackStatus,
    obs: ThrowObservation,
) -> (r: ThrowDecision)
    requires
        old(state).throw_delay_counter < old(counters).len(),
        old(state).pummel_delay_counter < old(counters).len(),
        old(mash).aerial_delay_counter < old(counters).len(),
    ensures
        final(state).throw_delay_counter == old(state).throw_delay_counter,
        final(state).pummel_delay_counter == old(state).pummel_delay_counter,
        final(mash).aerial_delay_counter == old(mash).aerial_delay_counter,
        final(counters)@.len() == old(counters)@.len(),
        !obs.is_cpu || (obs.is_holding && !obs.can_throw) ==> {
            &&& r == ThrowDecision::Nothing
            &&& *final(state) == *old(state)
            &&& *final(mash) == *old(mash)
            &&& final(counters)@ == old(counters)@
        },
        obs.is_cpu && !obs.is_holding ==> {
            let t = old(state).throw_delay_counter as int;
            let p = old(state).pummel_delay_counter as int;
            let c1 = if old(state).throw_delay != NOT_SET { old(counters)@.update(t, fully_reset(old(counters)@[t])) } else { old(counters)@ };
            &&& r == ThrowDecision::Nothing
            &&& no_flags(final(state).case@)
            &&& final(state).throw_delay == NOT_SET
            &&& final(state).pummel_delay == NOT_SET
            &&& *final(mash) == *old(mash)
            &&& final(counters)@ == if old(state).pummel_delay != NOT_SET { c1.update(p, fully_reset(c1[p])) } else { c1 }
        },
        obs.is_cpu && obs.is_holding && obs.can_throw ==> {
            let s = *final(state);
            let t = s.throw_delay_counter as int;
            let p = s.pummel_delay_counter as int;
            let c1 = old(counters)@.update(t, after_delay_check(old(counters)@[t], s.throw_delay));
            let c2 = c1.update(p, after_delay_check(c1[p], s.pummel_delay));
            &&& throw_rolled(*old(state), s, *menu)
            &&& is_only_flag(s.case@, 0) ==> r == ThrowDecision::Nothing && *final(mash) == *old(mash)
                && final(counters)@ == old(counters)@
            &&& !is_only_flag(s.case@, 0) && delay_pending(old(counters)@[t], s.throw_delay) ==> {
                &&& *final(mash) == *old(mash)
                &&& final(counters)@ == c2
                &&& r == if !delay_pending(c1[p], s.pummel_delay) && !no_flags(menu.pummel_delay@) && obs.in_catch_wait {
                    ThrowDecision::Pummel
                } else {
                    ThrowDecision::Nothing
                }
            }
            &&& !is_only_flag(s.case@, 0) && !delay_pending(old(counters)@[t], s.throw_delay) ==> {
                let a = old(mash).aerial_delay_counter as int;
                &&& r == ThrowDecision::Throw(s.case)
                &&& exists|m: Action| is_random_pick(m@, menu.mash_state@)
                    && #[trigger] rebuffered(*old(mash), *final(mash), *menu, playback, m)
                &&& final(counters)@ == if old(mash).queue@.len() > 0 { c1.update(a, fully_reset(c1[a])) } else { c1 }
            }
        },
{
    if !obs.is_cpu {
        return ThrowDecision::Nothing;
    }
    if !obs.is_holding {
        reset_throw_case(state);
        reset_throw_delay(state, counters);
        reset_pummel_delay(state, counters);
        return ThrowDecision::Nothing;
    }
    if !obs.can_throw {
        return ThrowDecision::Nothing;
    }
    roll_throw_delay(state, menu);
    roll_throw_case(state, menu);
    roll_pummel_delay(state, menu);
    let throw_none = match choice_if_single(&state.case.to_vec()) {
        Some(k) => k == 0,
        None => false,
    };
    if throw_none {
        return ThrowDecision::Nothing;
    }
    if should_delay(counters, state.throw_delay, state.throw_delay_counter) {
        if should_delay(counters, state.pummel_delay, state.pummel_delay_counter) {
            return ThrowDecision::Nothing;
        }
        if weights_empty(&menu.pummel_delay.to_vec()) {
            return ThrowDecision::Nothing;
        }
        if obs.in_catch_wait {
            return ThrowDecision::Pummel;
        }
        return ThrowDecision::Nothing;
    }
    let pick = menu.mash_state.get_random();
    let ghost before = *mash;
    external_buffer_menu_mash(mash, shield, counters, menu, playback, pick);
    assert(is_random_pick(pick@, menu.mash_state@) && rebuffered(before, *mash, *menu, playback, pick));
    ThrowDecision::Throw(state.case)
}

} // verus!
