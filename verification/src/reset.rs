//! Training resets: when training mode resets the fighters, the CPU forgets
//! what it buffered and rolled, and the in-game frame counters start over.
use vstd::prelude::*;
use crate::flags::is_random_pick;
use crate::frame_counter::{after_reset, fully_reset, reset_all, FrameCounter};
use crate::ledge::{reset_ledge_delay, LedgeState, NOT_SET};
use crate::mash::{full_reset, MashState};
use crate::menu::TrainingModpackMenu;
use crate::options::Direction;
use crate::sdi::{roll_direction, SdiState};
use crate::shield::ShieldState;
use crate::throw::{reset_throw_delay, ThrowState};

verus! {

/// The CPU logic that a training reset touches.
pub struct TrainingState {
    pub mash: MashState,
    pub shield: ShieldState,
    pub sdi: SdiState,
    pub ledge: LedgeState,
    pub throw: ThrowState,
    /// The rolled shield tilt direction.
    pub shield_tilt: Direction,
}

impl TrainingState {
    /// The delay counters exist in the registry.
    pub open spec fn wf(&self, counters: Seq<FrameCounter>) -> bool {
        &&& self.mash.aerial_delay_counter < counters.len()
        &&& self.ledge.delay_counter < counters.len()
        &&& self.throw.throw_delay_counter < counters.len()
    }
}

/// The counter `i` is fully reset by the reset of training state `t`: the
/// aerial delay counter when something was buffered, the ledge and throw
/// delay counters when a delay was rolled.
pub open spec fn reset_touches(t: TrainingState, i: int) -> bool {
    ||| (t.mash.queue@.len() > 0 && i == t.mash.aerial_delay_counter)
    ||| (t.ledge.delay != NOT_SET && i == t.ledge.delay_counter)
    ||| (t.throw.throw_delay != NOT_SET && i == t.throw.throw_delay_counter)
}

/// The outcome of `on_reset`: `t0` and `c0` before, `t1` and `c1` after.
pub open spec fn training_reset(
    t0: TrainingState,
    t1: TrainingState,
    c0: Seq<FrameCounter>,
    c1: Seq<FrameCounter>,
    menu: TrainingModpackMenu,
) -> bool {
    &&& t1.wf(c1)
    &&& t1.mash.queue@.len() == 0
    &&& t1.mash.aerial_delay_counter == t0.mash.aerial_delay_counter
    &&& t1.sdi.wf()
    &&& t1.sdi.counter == 0
    &&& is_random_pick(t1.sdi.direction@, menu.sdi_state@)
    &&& t1.ledge.delay == NOT_SET
    &&& t1.ledge.case == t0.ledge.case
    &&& t1.ledge.delay_counter == t0.ledge.delay_counter
    &&& t1.throw.throw_delay == NOT_SET
    &&& t1.throw.pummel_delay == t0.throw.pummel_delay
    &&& t1.throw.case == t0.throw.case
    &&& t1.throw.throw_delay_counter == t0.throw.throw_delay_counter
    &&& t1.throw.pummel_delay_counter == t0.throw.pummel_delay_counter
    &&& is_random_pick(t1.shield_tilt@, menu.shield_tilt@)
    &&& c1.len() == c0.len()
    &&& forall|i: int| 0 <= i < c0.len() ==> #[trigger] c1[i] == if reset_touches(t0, i) {
        fully_reset(c0[i])
    } else {
        after_reset(c0[i])
    }
}

/// A training reset: everything buffered is dropped (see `full_reset`), a new
/// SDI direction is rolled, the in-game counters that do not survive resets
/// are cleared (see `reset_all`), the rolled ledge and throw delays are
/// forgotten and a new shield tilt direction is rolled.
pub fn on_reset(t: &mut TrainingState, counters: &mut Vec<FrameCounter>, menu: &TrainingModpackMenu)
    requires
        old(t).wf(old(counters)@),
    ensures
        training_reset(*old(t), *final(t), old(counters)@, final(counters)@, *menu),
{
    let ghost t0 = *t;
    let ghost c0 = counters@;
    full_reset(&mut t.mash, &mut t.shield, counters);
    let ghost c1 = counters@;
    roll_direction(&mut t.sdi, menu);
    reset_all(counters);
    let ghost c2 = counters@;
    reset_ledge_delay(&mut t.ledge, counters);
    let ghost c3 = counters@;
    reset_throw_delay(&mut t.throw, counters);
    t.shield_tilt = menu.shield_tilt.get_random();
    assert forall|i: int| 0 <= i < c0.len() implies #[trigger] counters@[i] == if reset_touches(t0, i) {
        fully_reset(c0[i])
    } else {
        after_reset(c0[i])
    } by {
        assert(c2[i] == after_reset(c1[i]));
    }
}

/// The CPU's reset check: a training reset (see `on_reset`) happens when the
/// CPU stands idle right after training mode reset the fighters (its previous
/// status is none). Returns whether it happened.
pub fn check_reset(
    t: &mut TrainingState,
    counters: &mut Vec<FrameCounter>,
    menu: &TrainingModpackMenu,
    is_cpu: bool,
    is_idle: bool,
    after_training_reset: bool,
) -> (did: bool)
    requires
        old(t).wf(old(counters)@),
    ensures
        did == (is_cpu && is_idle && after_training_reset),
        !did ==> *final(t) == *old(t) && final(counters)@ == old(counters)@,
        did ==> training_reset(*old(t), *final(t), old(counters)@, final(counters)@, *menu),
{
    if !is_cpu || !is_idle || !after_training_reset {
        return false;
    }
    on_reset(t, counters, menu);
    true
}

} // verus!
