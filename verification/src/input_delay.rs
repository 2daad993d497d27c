//! Input delay: the player's inputs reach the game a set number of frames late.
use vstd::prelude::*;
use crate::flags::empty_or_single;
use crate::menu::TrainingModpackMenu;

verus! {

/// The queue after one frame: the new input in front, at most `delay` kept.
pub open spec fn delayed_queue<T>(queue: Seq<T>, actual: T, delay: nat) -> Seq<T> {
    let n = if queue.len() + 1 < delay { queue.len() + 1 } else { delay };
    (seq![actual] + queue).take(n as int)
}

/// What the game gets this frame: nothing while fewer than `delay` inputs
/// are queued, else the oldest queued input; the input itself without delay.
pub open spec fn delayed_output<T>(queue: Seq<T>, actual: T, empty: T, delay: nat) -> T {
    if queue.len() < delay {
        empty
    } else if queue.len() > 0 {
        queue.last()
    } else {
        actual
    }
}

/// Delays the player's inputs by `delay` frames: `out` holds this frame's
/// inputs and is replaced with the inputs of `delay` frames ago (`empty`
/// before that many frames have passed). `delayed` holds the recent inputs,
/// newest first. Only the first player's inputs are delayed.
pub fn delay_inputs<T: Copy>(delayed: &mut Vec<T>, player_idx: i32, out: &mut T, empty: T, delay: usize)
    ensures
        player_idx != 0 ==> final(delayed)@ == old(delayed)@ && *final(out) == *old(out),
        player_idx == 0 ==> {
            &&& final(delayed)@ == delayed_queue(old(delayed)@, *old(out), delay as nat)
            &&& *final(out) == delayed_output(old(delayed)@, *old(out), empty, delay as nat)
        },
{
    if player_idx != 0 {
        return;
    }
    let actual = *out;
    let len = delayed.len();
    if len < delay {
        *out = empty;
    } else if len > 0 {
        *out = delayed[len - 1];
    }
    delayed.insert(0, actual);
    if delayed.len() > delay {
        delayed.truncate(delay);
    }
    assert(delayed@ =~= delayed_queue(old(delayed)@, actual, delay as nat));
}

/// Delays the player's inputs by the menu's input delay (see `delay_inputs`).
pub fn handle_final_input_mapping<T: Copy>(
    delayed: &mut Vec<T>,
    menu: &TrainingModpackMenu,
    player_idx: i32,
    out: &mut T,
    empty: T,
)
    requires
        empty_or_single(menu.input_delay@),
    ensures
        player_idx != 0 ==> final(delayed)@ == old(delayed)@ && *final(out) == *old(out),
        player_idx == 0 ==> exists|d: u32| {
            &&& (d as int) < menu.input_delay@.len()
            &&& final(delayed)@ == delayed_queue(old(delayed)@, *old(out), d as nat)
            &&& *final(out) == delayed_output(old(delayed)@, *old(out), empty, d as nat)
            &&& (crate::flags::no_flags(menu.input_delay@) ==> d == 0)
            &&& (forall|k: int| crate::flags::is_only_flag(menu.input_delay@, k) ==> d == k)
        },
{
    let d = menu.input_delay.into_delay();
    delay_inputs(delayed, player_idx, out, empty, d as usize);
}

/// The queue before frame `t` of a run of `inputs` with a delay of `delay`
/// frames: the last `min(t, delay)` inputs, newest first.
pub open spec fn window<T>(inputs: Seq<T>, t: int, delay: nat) -> Seq<T> {
    let n = if t < delay { t } else { delay as int };
    Seq::new(n as nat, |j: int| inputs[t - 1 - j])
}

/// Frame by frame, the delayed queue holds the recent inputs, and what the
/// game gets at frame `t` is the input of frame `t - delay` (nothing before
/// `delay` frames have passed; the input itself when there is no delay).
pub proof fn lemma_input_delay<T>(inputs: Seq<T>, empty: T, delay: nat, t: int)
    requires
        0 <= t < inputs.len(),
    ensures
        delayed_queue(window(inputs, t, delay), inputs[t], delay) == window(inputs, t + 1, delay),
        delayed_output(window(inputs, t, delay), inputs[t], empty, delay) == if delay == 0 {
            inputs[t]
        } else if t < delay {
            empty
        } else {
            inputs[t - delay]
        },
{
    let w = window(inputs, t, delay);
    assert(delayed_queue(w, inputs[t], delay) =~= window(inputs, t + 1, delay));
}

} // verus!
