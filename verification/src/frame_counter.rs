//! Frame counters: a registry of counters that advance once per in-game or
//! real frame while they are started.
use vstd::prelude::*;

verus! {

/// Which frames advance a counter, and whether a training reset clears it.
#[derive(Clone, Copy, Debug, PartialEq, Eq, Structural)]
pub enum FrameCounterType {
    /// Advances on in-game frames; cleared when training mode resets.
    InGame,
    /// Advances on in-game frames; survives training mode resets.
    InGameNoReset,
    /// Advances on real frames (also while the game is paused).
    Real,
}

/// One counter of the registry.
#[derive(Clone, Copy, Debug, PartialEq, Eq, Structural)]
pub struct FrameCounter {
    pub count: u32,
    pub should_count: bool,
    pub counter_type: FrameCounterType,
}

/// A freshly registered counter.
pub open spec fn fresh_counter(counter_type: FrameCounterType) -> FrameCounter {
    FrameCounter { count: 0, should_count: false, counter_type }
}

/// The counter with `should_count` set to `on`.
pub open spec fn with_counting(c: FrameCounter, on: bool) -> FrameCounter {
    FrameCounter { should_count: on, ..c }
}

/// The counter with its count set to `n`.
pub open spec fn with_count(c: FrameCounter, n: u32) -> FrameCounter {
    FrameCounter { count: n, ..c }
}

/// The counter stopped and cleared.
pub open spec fn fully_reset(c: FrameCounter) -> FrameCounter {
    FrameCounter { count: 0, should_count: false, ..c }
}

/// Whether an in-game frame advances the counter.
pub open spec fn advances_ingame(c: FrameCounter) -> bool {
    c.should_count && c.counter_type != FrameCounterType::Real
}

/// Whether a real frame advances the counter.
pub open spec fn advances_real(c: FrameCounter) -> bool {
    c.should_count && c.counter_type == FrameCounterType::Real
}

/// Whether an in-game frame advances the counter (see `advances_ingame`).
pub fn advances_ingame_now(c: &FrameCounter) -> (b: bool)
    ensures
        b == advances_ingame(*c),
{
    c.should_count && !matches!(c.counter_type, FrameCounterType::Real)
}

/// Whether a real frame advances the counter (see `advances_real`).
pub fn advances_real_now(c: &FrameCounter) -> (b: bool)
    ensures
        b == advances_real(*c),
{
    c.should_count && matches!(c.counter_type, FrameCounterType::Real)
}

/// The counter after one in-game frame.
pub open spec fn ticked_ingame(c: FrameCounter) -> FrameCounter {
    if advances_ingame(c) { with_count(c, (c.count + 1) as u32) } else { c }
}

/// The counter after one real frame.
pub open spec fn ticked_real(c: FrameCounter) -> FrameCounter {
    if advances_real(c) { with_count(c, (c.count + 1) as u32) } else { c }
}

/// The counter after a training mode reset: in-game counters are stopped and cleared.
pub open spec fn after_reset(c: FrameCounter) -> FrameCounter {
    if c.counter_type == FrameCounterType::InGame { fully_reset(c) } else { c }
}

/// What `should_delay` answers for a counter.
pub open spec fn delay_pending(c: FrameCounter, delay: u32) -> bool {
    delay != 0 && c.count < delay
}

/// The counter after `should_delay`: started when at zero, fully reset once
/// `delay` frames have passed.
pub open spec fn after_delay_check(c: FrameCounter, delay: u32) -> FrameCounter {
    if delay == 0 {
        c
    } else if c.count >= delay {
        fully_reset(c)
    } else if c.count == 0 {
        with_counting(c, true)
    } else {
        c
    }
}

/// One frame of a delayed action: the delay is checked, then the in-game frame passes.
pub open spec fn delay_round(c: FrameCounter, delay: u32) -> FrameCounter {
    ticked_ingame(after_delay_check(c, delay))
}

/// The counter after `k` rounds of `delay_round`.
pub open spec fn delay_rounds(c: FrameCounter, delay: u32, k: nat) -> FrameCounter
    decreases k,
{
    if k == 0 { c } else { delay_round(delay_rounds(c, delay, (k - 1) as nat), delay) }
}

/// A counter that is not started is left alone by every tick.
pub proof fn lemma_stopped_counter_frozen(c: FrameCounter)
    requires
        !c.should_count,
    ensures
        ticked_ingame(c) == c,
        ticked_real(c) == c,
{
}

/// A training reset only clears in-game counters: counters of real frames and
/// in-game counters that survive resets keep their count and their state.
pub proof fn lemma_reset_keeps_surviving_counters(c: FrameCounter)
    requires
        c.counter_type != FrameCounterType::InGame,
    ensures
        after_reset(c) == c,
{
}

/// A started counter advances on exactly one of the two kinds of frames.
pub proof fn lemma_started_counter_advances_once(c: FrameCounter)
    requires
        c.should_count,
        c.count < u32::MAX,
    ensures
        (ticked_ingame(c).count == c.count + 1) != (ticked_real(c).count == c.count + 1),
{
}

/// A delay of `delay` frames on an in-game counter at zero: each frame the delay
/// is checked and then an in-game frame passes. The check answers "still
/// delaying" on the first `delay` frames, and on the next one it answers "done"
/// and leaves the counter stopped at zero.
pub proof fn lemma_delay_cycle(c: FrameCounter, delay: u32, k: nat)
    requires
        c.count == 0,
        c.counter_type != FrameCounterType::Real,
        delay > 0,
        k <= delay,
    ensures
        delay_rounds(c, delay, k).count == k,
        delay_rounds(c, delay, k).counter_type == c.counter_type,
        k > 0 ==> delay_rounds(c, delay, k).should_count,
        delay_pending(delay_rounds(c, delay, k), delay) == (k < delay),
        k == delay ==> after_delay_check(delay_rounds(c, delay, k), delay) == fully_reset(delay_rounds(c, delay, k)),
    decreases k,
{
    if k > 0 {
        lemma_delay_cycle(c, delay, (k - 1) as nat);
    }
}

/// The registry after one frame of a delayed action on counter `index`:
/// `should_delay(delay, index)` is called, then `tick_ingame` (the two
/// functions' `ensures` compose to exactly this).
pub open spec fn registry_delay_round(s: Seq<FrameCounter>, delay: u32, index: int) -> Seq<FrameCounter> {
    s.update(index, after_delay_check(s[index], delay)).map_values(|c: FrameCounter| ticked_ingame(c))
}

/// One frame of a delayed action, as the two calls state it: the registry
/// `s1` that `should_delay(delay, index)` leaves from `s0`, then the registry
/// `s2` that `tick_ingame` leaves from `s1`, is one `registry_delay_round`;
/// the answer of the call is `delay_pending` of the counter in `s0`.
pub proof fn lemma_delay_round_of_calls(s0: Seq<FrameCounter>, s1: Seq<FrameCounter>, s2: Seq<FrameCounter>, delay: u32, index: int)
    requires
        delay != 0,
        0 <= index < s0.len(),
        s1 == s0.update(index, after_delay_check(s0[index], delay)),
        s2 == s1.map_values(|c: FrameCounter| ticked_ingame(c)),
    ensures
        s2 == registry_delay_round(s0, delay, index),
{
}

/// The registry after `k` such frames.
pub open spec fn registry_delay_rounds(s: Seq<FrameCounter>, delay: u32, index: int, k: nat) -> Seq<FrameCounter>
    decreases k,
{
    if k == 0 { s } else { registry_delay_round(registry_delay_rounds(s, delay, index, (k - 1) as nat), delay, index) }
}

/// Counter `index` of the registry follows `delay_rounds`, whatever the
/// other counters do.
proof fn lemma_registry_rounds_follow_counter(s: Seq<FrameCounter>, delay: u32, index: int, k: nat)
    requires
        0 <= index < s.len(),
    ensures
        registry_delay_rounds(s, delay, index, k).len() == s.len(),
        registry_delay_rounds(s, delay, index, k)[index] == delay_rounds(s[index], delay, k),
    decreases k,
{
    if k > 0 {
        lemma_registry_rounds_follow_counter(s, delay, index, (k - 1) as nat);
    }
}

/// A delay of `delay > 0` frames on an idle in-game counter, where every frame
/// calls `should_delay(delay, index)` and then `tick_ingame`: the calls of
/// frames 1 to `delay` answer "still delaying", the call of frame `delay + 1`
/// answers "done", and after that frame the counter is back as it was
/// (stopped at zero), so the cycle starts over with frame `delay + 2`.
pub proof fn lemma_delay_calls_cycle(s: Seq<FrameCounter>, delay: u32, index: int)
    requires
        0 <= index < s.len(),
        delay > 0,
        s[index].count == 0,
        !s[index].should_count,
        s[index].counter_type != FrameCounterType::Real,
    ensures
        forall|k: nat| k < delay ==> delay_pending(#[trigger] registry_delay_rounds(s, delay, index, k)[index], delay),
        !delay_pending(registry_delay_rounds(s, delay, index, delay as nat)[index], delay),
        registry_delay_rounds(s, delay, index, (delay + 1) as nat)[index] == s[index],
        registry_delay_rounds(s, delay, index, (delay + 1) as nat).len() == s.len(),
{
    assert forall|k: nat| k < delay implies delay_pending(#[trigger] registry_delay_rounds(s, delay, index, k)[index], delay) by {
        lemma_registry_rounds_follow_counter(s, delay, index, k);
        lemma_delay_cycle(s[index], delay, k);
    }
    lemma_registry_rounds_follow_counter(s, delay, index, delay as nat);
    lemma_registry_rounds_follow_counter(s, delay, index, (delay + 1) as nat);
    lemma_delay_cycle(s[index], delay, delay as nat);
}

/// Adds a counter of the given type to the registry and returns its index.
pub fn register_counter(counters: &mut Vec<FrameCounter>, counter_type: FrameCounterType) -> (index: usize)
    requires
        old(counters).len() < usize::MAX,
    ensures
        index == old(counters).len(),
        final(counters)@ == old(counters)@.push(fresh_counter(counter_type)),
{
    let index = counters.len();
    counters.push(FrameCounter { count: 0, should_count: false, counter_type });
    index
}

/// Starts the counter at `index`.
pub fn start_counting(counters: &mut Vec<FrameCounter>, index: usize)
    requires
        index < old(counters).len(),
    ensures
        final(counters)@ == old(counters)@.update(index as int, with_counting(old(counters)@[index as int], true)),
{
    let mut c = counters[index];
    c.should_count = true;
    counters.set(index, c);
}

/// Stops the counter at `index`; its count is kept.
pub fn stop_counting(counters: &mut Vec<FrameCounter>, index: usize)
    requires
        index < old(counters).len(),
    ensures
        final(counters)@ == old(counters)@.update(index as int, with_counting(old(counters)@[index as int], false)),
{
    let mut c = counters[index];
    c.should_count = false;
    counters.set(index, c);
}

/// Whether the counter at `index` is started.
pub fn is_counting(counters: &Vec<FrameCounter>, index: usize) -> (b: bool)
    requires
        index < counters.len(),
    ensures
        b == counters@[index as int].should_count,
{
    counters[index].should_count
}

/// Sets the count of the counter at `index` to zero; started or not is kept.
pub fn reset_frame_count(counters: &mut Vec<FrameCounter>, index: usize)
    requires
        index < old(counters).len(),
    ensures
        final(counters)@ == old(counters)@.update(index as int, with_count(old(counters)@[index as int], 0)),
{
    let mut c = counters[index];
    c.count = 0;
    counters.set(index, c);
}

/// Stops the counter at `index` and sets its count to zero.
pub fn full_reset(counters: &mut Vec<FrameCounter>, index: usize)
    requires
        index < old(counters).len(),
    ensures
        final(counters)@ == old(counters)@.update(index as int, fully_reset(old(counters)@[index as int])),
{
    reset_frame_count(counters, index);
    stop_counting(counters, index);
    assert(counters@ =~= old(counters)@.update(index as int, fully_reset(old(counters)@[index as int])));
}

/// Returns true until `delay` frames have passed on the counter at `index`.
/// The first call on a counter at zero starts it; the call that sees `delay`
/// frames fully resets it. A delay of zero never delays and does not look at
/// the counter.
pub fn should_delay(counters: &mut Vec<FrameCounter>, delay: u32, index: usize) -> (b: bool)
    requires
        delay != 0 ==> index < old(counters).len(),
    ensures
        delay == 0 ==> !b && final(counters)@ == old(counters)@,
        index < old(counters).len() ==> b == delay_pending(old(counters)@[index as int], delay),
        index < old(counters).len() ==> final(counters)@ == old(counters)@.update(index as int,
            after_delay_check(old(counters)@[index as int], delay)),
{
    if delay == 0 {
        proof {
            if index < counters.len() {
                assert(counters@ =~= old(counters)@.update(index as int, old(counters)@[index as int]));
            }
        }
        return false;
    }
    let current_frame = get_frame_count(counters, index);
    if current_frame == 0 {
        start_counting(counters, index);
    }
    if current_frame >= delay {
        full_reset(counters, index);
        return false;
    }
    proof {
        if current_frame != 0 {
            assert(counters@ =~= old(counters)@.update(index as int, old(counters)@[index as int]));
        }
    }
    true
}

/// The count of the counter at `index`.
pub fn get_frame_count(counters: &Vec<FrameCounter>, index: usize) -> (n: u32)
    requires
        index < counters.len(),
    ensures
        n == counters@[index as int].count,
{
    counters[index].count
}

/// Advances the counter at `index` by one, started or not.
pub fn tick_idx(counters: &mut Vec<FrameCounter>, index: usize)
    requires
        index < old(counters).len(),
        old(counters)@[index as int].count < u32::MAX,
    ensures
        final(counters)@ == old(counters)@.update(index as int,
            with_count(old(counters)@[index as int], (old(counters)@[index as int].count + 1) as u32)),
{
    let mut c = counters[index];
    c.count = c.count + 1;
    counters.set(index, c);
}

/// Advances every started counter that counts in-game frames.
pub fn tick_ingame(counters: &mut Vec<FrameCounter>)
    requires
        forall|i: int| 0 <= i < old(counters).len() && advances_ingame(#[trigger] old(counters)@[i])
            ==> old(counters)@[i].count < u32::MAX,
    ensures
        final(counters)@ == old(counters)@.map_values(|c: FrameCounter| ticked_ingame(c)),
{
    let ghost before = counters@;
    let n = counters.len();
    let mut i: usize = 0;
    while i < n
        invariant
            n == counters.len(),
            n == before.len(),
            i <= n,
            forall|j: int| 0 <= j < n && advances_ingame(#[trigger] before[j]) ==> before[j].count < u32::MAX,
            forall|j: int| 0 <= j < i ==> counters@[j] == ticked_ingame(#[trigger] before[j]),
            forall|j: int| i <= j < n ==> counters@[j] == #[trigger] before[j],
        decreases n - i,
    {
        let mut c = counters[i];
        assert(c == before[i as int]);
        if c.should_count && c.counter_type != FrameCounterType::Real {
            c.count = c.count + 1;
        }
        counters.set(i, c);
        i = i + 1;
    }
    assert(counters@ =~= before.map_values(|c: FrameCounter| ticked_ingame(c)));
}

/// Advances every started counter that counts real frames.
pub fn tick_real(counters: &mut Vec<FrameCounter>)
    requires
        forall|i: int| 0 <= i < old(counters).len() && advances_real(#[trigger] old(counters)@[i])
            ==> old(counters)@[i].count < u32::MAX,
    ensures
        final(counters)@ == old(counters)@.map_values(|c: FrameCounter| ticked_real(c)),
{
    let ghost before = counters@;
    let n = counters.len();
    let mut i: usize = 0;
    while i < n
        invariant
            n == counters.len(),
            n == before.len(),
            i <= n,
            forall|j: int| 0 <= j < n && advances_real(#[trigger] before[j]) ==> before[j].count < u32::MAX,
            forall|j: int| 0 <= j < i ==> counters@[j] == ticked_real(#[trigger] before[j]),
            forall|j: int| i <= j < n ==> counters@[j] == #[trigger] before[j],
        decreases n - i,
    {
        let mut c = counters[i];
        assert(c == before[i as int]);
        if !(!c.should_count || (c.counter_type == FrameCounterType::InGame
            || c.counter_type == FrameCounterType::InGameNoReset)) {
            c.count = c.count + 1;
        }
        counters.set(i, c);
        i = i + 1;
    }
    assert(counters@ =~= before.map_values(|c: FrameCounter| ticked_real(c)));
}

/// Stops and clears every in-game counter that does not survive a training reset.
pub fn reset_all(counters: &mut Vec<FrameCounter>)
    ensures
        final(counters)@ == old(counters)@.map_values(|c: FrameCounter| after_reset(c)),
{
    let ghost before = counters@;
    let n = counters.len();
    let mut i: usize = 0;
    while i < n
        invariant
            n == counters.len(),
            n == before.len(),
            i <= n,
            forall|j: int| 0 <= j < i ==> counters@[j] == after_reset(#[trigger] before[j]),
            forall|j: int| i <= j < n ==> counters@[j] == #[trigger] before[j],
        decreases n - i,
    {
        let mut c = counters[i];
        if c.counter_type == FrameCounterType::InGame {
            c.count = 0;
            c.should_count = false;
        }
        counters.set(i, c);
        i = i + 1;
    }
    assert(counters@ =~= before.map_values(|c: FrameCounter| after_reset(c)));
}

} // verus!
