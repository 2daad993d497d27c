//! Mashing out of clatter (grabs, buries and the like): the CPU presses at a
//! fixed rhythm while it is stuck, and may mash an action once it is free.
use vstd::prelude::*;
use crate::flags::{contains_weights, flags_contains, is_single, only_flag};
use crate::menu::TrainingModpackMenu;
use crate::option_values::clatter_interval;
use crate::options::MashTrigger;

verus! {

/// The frame counter of a rhythm of `repeat` frames after one more frame.
pub open spec fn next_count(counter: u32, repeat: u32) -> u32 {
    ((counter + 1) % (repeat as int)) as u32
}

/// The counter of a rhythm of `repeat` frames after `k` frames from zero.
pub open spec fn count_after(k: nat, repeat: u32) -> u32
    decreases k,
{
    if k == 0 { 0 } else { next_count(count_after((k - 1) as nat, repeat), repeat) }
}

/// A rhythm of `repeat` frames started at zero is at `k % repeat` after `k`
/// frames: it presses (reaches `repeat - 1`) on every `repeat`-th frame.
pub proof fn lemma_rhythm(k: nat, repeat: u32)
    requires
        repeat > 0,
    ensures
        count_after(k, repeat) == k % (repeat as nat),
    decreases k,
{
    if k > 0 {
        lemma_rhythm((k - 1) as nat, repeat);
        let n = repeat as int;
        let prev = count_after((k - 1) as nat, repeat);
        assert(prev as int == ((k - 1) as int) % n);
        vstd::arithmetic::div_mod::lemma_add_mod_noop_right(1, (k - 1) as int, n);
        assert((1 + prev as int) % n == (k as int) % n);
        assert(0 <= (k as int) % n < n);
        assert(count_after(k, repeat) as int == (prev as int + 1) % n);
        assert((k as int) % n == k % (repeat as nat));
    } else {
        assert(0nat % (repeat as nat) == 0) by (nonlinear_arith)
            requires
                repeat > 0,
        ;
    }
}

/// Advances a rhythm of `repeat` frames by one frame; true on the frame that
/// presses.
pub fn tick_rhythm(counter: &mut u32, repeat: u32) -> (press: bool)
    requires
        repeat > 0,
        *old(counter) < u32::MAX,
    ensures
        *final(counter) == next_count(*old(counter), repeat),
        *final(counter) < repeat,
        press == (*final(counter) == repeat - 1),
{
    *counter = (*counter + 1) % repeat;
    *counter == repeat - 1
}

/// What the clatter logic remembers between frames.
pub struct ClatterState {
    /// The frame counter of the mash rhythm.
    pub counter: u32,
    /// The CPU was in clatter on the previous frame.
    pub was_in_clatter: bool,
}

/// What the CPU does this frame.
#[derive(Clone, Copy, Debug, PartialEq, Eq, Structural)]
pub struct ClatterAction {
    /// The CPU just got out of clatter and mashes an action from the menu.
    pub buffer_mash: bool,
    /// The CPU presses a button to get out of clatter sooner.
    pub press: bool,
}

/// One frame of the CPU in training mode: while in clatter it presses every
/// `clatter_strength` frames; on leaving clatter it mashes when the clatter
/// trigger is on.
pub fn handle_clatter(state: &mut ClatterState, menu: &TrainingModpackMenu, is_training_cpu: bool, in_clatter: bool) -> (a: ClatterAction)
    requires
        old(state).counter < u32::MAX,
        is_training_cpu && in_clatter ==> is_single(menu.clatter_strength@),
    ensures
        final(state).counter < u32::MAX,
        !is_training_cpu ==> final(state).counter == old(state).counter
            && final(state).was_in_clatter == old(state).was_in_clatter && !a.buffer_mash && !a.press,
        is_training_cpu && !in_clatter ==> {
            &&& final(state).counter == old(state).counter
            &&& !final(state).was_in_clatter
            &&& a.buffer_mash == (old(state).was_in_clatter && flags_contains(menu.mash_triggers@, only_flag(17, 7)))
            &&& !a.press
        },
        is_training_cpu && in_clatter ==> {
            &&& final(state).was_in_clatter
            &&& !a.buffer_mash
            &&& forall|k: int| crate::flags::is_only_flag(menu.clatter_strength@, k) ==> {
                let repeat = clatter_interval(k);
                &&& final(state).counter == next_count(old(state).counter, repeat)
                &&& a.press == (final(state).counter == repeat - 1)
            }
        },
{
    if !is_training_cpu {
        return ClatterAction { buffer_mash: false, press: false };
    }
    if !in_clatter {
        let buffer_mash = state.was_in_clatter
            && contains_weights(&menu.mash_triggers.to_vec(), &MashTrigger::CLATTER().to_vec());
        state.was_in_clatter = false;
        return ClatterAction { buffer_mash, press: false };
    }
    state.was_in_clatter = true;
    let repeat = menu.clatter_strength.into_u32();
    proof {
        let k = choose|k: int| crate::flags::is_only_flag(menu.clatter_strength@, k);
        assert(repeat == clatter_interval(k));
    }
    let press = tick_rhythm(&mut state.counter, repeat);
    ClatterAction { buffer_mash: false, press }
}

} // verus!
