//! Fast fall: the CPU fast-falls after a rolled delay once it starts falling.
use vstd::prelude::*;
use crate::flags::lemma_random_pick_empty_or_single;
use crate::frame_counter::{after_delay_check, delay_pending, fully_reset, FrameCounter};
use crate::frame_counter;
use crate::ledge::is_rolled_delay;
use crate::mash::is_rolled_bool;
use crate::menu::TrainingModpackMenu;

verus! {

/// What the fast fall logic remembers.
pub struct FastFallState {
    /// The CPU fast-falls this time.
    pub fast_fall: bool,
    /// Frames to wait after the CPU starts falling.
    pub delay: u32,
    /// Frame counter of the delay.
    pub delay_counter: usize,
}

/// Whether the CPU fast-falls this time.
pub fn should_fast_fall(state: &FastFallState) -> (b: bool)
    ensures
        b == state.fast_fall,
{
    state.fast_fall
}

/// Rolls whether the CPU fast-falls from the menu.
pub fn roll_fast_fall(state: &mut FastFallState, menu: &TrainingModpackMenu)
    ensures
        is_rolled_bool(final(state).fast_fall, menu.fast_fall@),
        final(state).delay == old(state).delay,
        final(state).delay_counter == old(state).delay_counter,
{
    state.fast_fall = menu.fast_fall.get_random().into_bool();
}

/// What the game shows about the CPU this frame.
#[derive(Clone, Copy, Debug, PartialEq, Eq, Structural)]
pub struct FastFallObservation {
    pub is_cpu: bool,
    pub is_airborne: bool,
    /// Moving downwards.
    pub is_falling: bool,
    /// Falling or in an aerial: statuses that can fast-fall.
    pub can_fast_fall: bool,
    /// Already fast-falling.
    pub is_diving: bool,
}

/// One frame of the fast fall logic; true when the CPU starts fast-falling
/// now (the caller sets the fast fall flag and shows a spark). While the CPU
/// rises, the delay is rolled again and its counter reset.
pub fn get_command_flag_cat(
    state: &mut FastFallState,
    counters: &mut Vec<FrameCounter>,
    menu: &TrainingModpackMenu,
    obs: FastFallObservation,
) -> (dive: bool)
    requires
        old(state).delay_counter < old(counters).len(),
    ensures
        final(state).fast_fall == old(state).fast_fall,
        final(state).delay_counter == old(state).delay_counter,
        ({
            let i = old(state).delay_counter as int;
            let active = old(state).fast_fall && obs.is_cpu && obs.is_airborne;
            &&& !active ==> !dive && final(state).delay == old(state).delay && final(counters)@ == old(counters)@
            &&& active && !obs.is_falling ==> {
                &&& !dive
                &&& is_rolled_delay(final(state).delay, menu.fast_fall_delay@, 1)
                &&& final(counters)@ == old(counters)@.update(i, fully_reset(old(counters)@[i]))
            }
            &&& active && obs.is_falling && (!obs.can_fast_fall || obs.is_diving) ==> {
                &&& !dive
                &&& final(state).delay == old(state).delay
                &&& final(counters)@ == old(counters)@
            }
            &&& active && obs.is_falling && obs.can_fast_fall && !obs.is_diving ==> {
                &&& dive == !delay_pending(old(counters)@[i], old(state).delay)
                &&& final(state).delay == old(state).delay
                &&& final(counters)@ == old(counters)@.update(i, after_delay_check(old(counters)@[i], old(state).delay))
            }
        }),
{
    if !should_fast_fall(state) || !obs.is_cpu || !obs.is_airborne {
        return false;
    }
    if !obs.is_falling {
        let pick = menu.fast_fall_delay.get_random();
        proof {
            lemma_random_pick_empty_or_single(pick@, menu.fast_fall_delay@);
        }
        state.delay = pick.into_delay();
        proof {
            if !crate::flags::no_flags(menu.fast_fall_delay@) {
                let k = choose|k: int| 0 <= k < menu.fast_fall_delay@.len() && menu.fast_fall_delay@[k] > 0
                    && pick@ == crate::flags::only_flag(menu.fast_fall_delay@.len(), k);
                assert(crate::flags::is_only_flag(pick@, k));
            }
        }
        frame_counter::full_reset(counters, state.delay_counter);
        return false;
    }
    if !obs.can_fast_fall || obs.is_diving {
        return false;
    }
    !frame_counter::should_delay(counters, state.delay, state.delay_counter)
}

} // verus!
