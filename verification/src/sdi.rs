//! Smash directional influence: during hitstop the CPU nudges itself in the
//! rolled direction at the rhythm that the menu's SDI strength gives.
use vstd::prelude::*;
use crate::clatter::{next_count, tick_rhythm};
use crate::flags::{empty_or_single, is_only_flag, is_random_pick, is_single, lemma_random_pick_empty_or_single, no_flags};
use crate::menu::TrainingModpackMenu;
use crate::option_values::{direction_index, sdi_interval};
use crate::options::Direction;

verus! {

/// What the SDI logic remembers: the rhythm's frame counter and the rolled direction.
pub struct SdiState {
    pub counter: u32,
    pub direction: Direction,
}

impl SdiState {
    /// The counter can advance and the direction is one choice or none.
    pub open spec fn wf(&self) -> bool {
        self.counter < u32::MAX && empty_or_single(self.direction@)
    }
}

/// Rolls a new direction from the menu and restarts the rhythm.
pub fn roll_direction(state: &mut SdiState, menu: &TrainingModpackMenu)
    ensures
        final(state).wf(),
        final(state).counter == 0,
        is_random_pick(final(state).direction@, menu.sdi_state@),
{
    state.counter = 0;
    state.direction = menu.sdi_state.get_random();
    proof {
        lemma_random_pick_empty_or_single(state.direction@, menu.sdi_state@);
    }
}

/// What the CPU does at a hitstop frame's SDI check.
#[derive(Clone, Copy, Debug, PartialEq, Eq, Structural)]
pub enum SdiDecision {
    /// Not the CPU in training mode: the game decides.
    Passthrough,
    /// No SDI input this frame.
    NoInput,
    /// An SDI input toward the direction at this position around the circle
    /// (see `direction_index`); the caller turns it into an angle.
    Input(u32),
}

/// The position of the rolled direction around the circle; 0 when none.
pub open spec fn rolled_index(d: Seq<u8>) -> u32 {
    if no_flags(d) { 0 } else { direction_index(choose|k: int| is_only_flag(d, k)) }
}

/// One SDI check: every `sdi_strength` frames the CPU inputs the rolled
/// direction, unless it is neutral or none.
pub fn check_hit_stop_delay_command(state: &mut SdiState, menu: &TrainingModpackMenu, is_training_cpu: bool) -> (r: SdiDecision)
    requires
        old(state).wf(),
        is_training_cpu ==> is_single(menu.sdi_strength@),
    ensures
        final(state).wf(),
        final(state).direction == old(state).direction,
        !is_training_cpu ==> r == SdiDecision::Passthrough && final(state).counter == old(state).counter,
        is_training_cpu ==> forall|k: int| is_only_flag(menu.sdi_strength@, k) ==> {
            let repeat = sdi_interval(k);
            let idx = rolled_index(old(state).direction@);
            &&& final(state).counter == next_count(old(state).counter, repeat)
            &&& r == if final(state).counter == repeat - 1 && idx != 0 {
                SdiDecision::Input(idx)
            } else {
                SdiDecision::NoInput
            }
        },
{
    if !is_training_cpu {
        return SdiDecision::Passthrough;
    }
    let repeat = menu.sdi_strength.into_u32();
    proof {
        let k = choose|k: int| is_only_flag(menu.sdi_strength@, k);
        assert(repeat == sdi_interval(k));
    }
    let press = tick_rhythm(&mut state.counter, repeat);
    let idx = state.direction.into_index();
    proof {
        if !no_flags(state.direction@) {
            let k = choose|k: int| is_only_flag(state.direction@, k);
            assert(idx == direction_index(k));
        }
    }
    if press && idx != 0 {
        SdiDecision::Input(idx)
    } else {
        SdiDecision::NoInput
    }
}

} // verus!
