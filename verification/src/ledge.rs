//! Ledge options: the delay before the CPU gets up, which getup it performs and
//! which mash action follows.
use vstd::prelude::*;
use crate::flags::{
    flags_contains, is_only_flag, is_random_pick, lemma_random_pick_empty_or_single, no_flags,
    only_flag, weights_empty, contains_weights,
};
use crate::frame_counter::{after_delay_check, delay_pending, full_reset, fully_reset, should_delay, FrameCounter};
use crate::input_record::{
    is_playback, playback, playback_ledge, playback_status, played_back, status_of, InputRecordState, InputRecorder,
};
use crate::mash::{external_buffer_menu_mash, rebuffered, MashState};
use crate::menu::TrainingModpackMenu;
use crate::shield::ShieldState;
use crate::options::{Action, LedgeOption, MashTrigger};

verus! {

/// Marks a delay that has not been rolled yet.
pub const NOT_SET: u32 = 9001;

/// The ledge situation the CPU is in: the rolled delay, the rolled getup and
/// the frame counter of the delay.
pub struct LedgeState {
    pub delay: u32,
    pub case: LedgeOption,
    pub delay_counter: usize,
}

/// `d` is a possible rolled delay for weights `w` with `step` frames per choice.
pub open spec fn is_rolled_delay(d: u32, w: Seq<u8>, step: int) -> bool {
    ||| no_flags(w) && d == 0
    ||| exists|k: int| 0 <= k < w.len() && w[k] > 0 && d == step * k
}

/// The mash action set that overrides the regular mash options after getup
/// `case`, if the getup has one and it is not empty.
pub open spec fn ledge_override(case: Seq<u8>, menu: TrainingModpackMenu) -> Option<Action> {
    if is_only_flag(case, 0) && !no_flags(menu.ledge_neutral_override@) {
        Some(menu.ledge_neutral_override)
    } else if is_only_flag(case, 1) && !no_flags(menu.ledge_roll_override@) {
        Some(menu.ledge_roll_override)
    } else if is_only_flag(case, 2) && !no_flags(menu.ledge_jump_override@) {
        Some(menu.ledge_jump_override)
    } else if is_only_flag(case, 3) && !no_flags(menu.ledge_attack_override@) {
        Some(menu.ledge_attack_override)
    } else {
        None
    }
}

/// Mash actions on the ledge are enabled in the mash triggers.
pub open spec fn ledge_mash_enabled(menu: TrainingModpackMenu) -> bool {
    flags_contains(menu.mash_triggers@, only_flag(17, 8))
}

/// Forgets the rolled delay and clears its counter, if a delay was rolled.
pub fn reset_ledge_delay(state: &mut LedgeState, counters: &mut Vec<FrameCounter>)
    requires
        old(state).delay_counter < old(counters).len(),
    ensures
        final(state).delay == NOT_SET,
        final(state).case == old(state).case,
        final(state).delay_counter == old(state).delay_counter,
        old(state).delay == NOT_SET ==> final(counters)@ == old(counters)@,
        old(state).delay != NOT_SET ==> final(counters)@ == old(counters)@.update(
            old(state).delay_counter as int,
            fully_reset(old(counters)@[old(state).delay_counter as int]),
        ),
{
    if state.delay != NOT_SET {
        state.delay = NOT_SET;
        full_reset(counters, state.delay_counter);
    }
}

/// Forgets the rolled getup.
pub fn reset_ledge_case(state: &mut LedgeState)
    ensures
        no_flags(final(state).case@),
        final(state).delay == old(state).delay,
        final(state).delay_counter == old(state).delay_counter,
{
    if !weights_empty(&state.case.to_vec()) {
        state.case = LedgeOption::empty();
    }
}

/// Rolls the delay from the menu's ledge delays, unless one is already rolled.
pub fn roll_ledge_delay(state: &mut LedgeState, menu: &TrainingModpackMenu)
    ensures
        final(state).case == old(state).case,
        final(state).delay_counter == old(state).delay_counter,
        old(state).delay != NOT_SET ==> final(state).delay == old(state).delay,
        old(state).delay == NOT_SET ==> is_rolled_delay(final(state).delay, menu.ledge_delay@, 10),
{
    if state.delay != NOT_SET {
        return;
    }
    let pick = menu.ledge_delay.get_random();
    proof {
        lemma_random_pick_empty_or_single(pick@, menu.ledge_delay@);
    }
    state.delay = pick.into_longdelay();
    proof {
        if !no_flags(menu.ledge_delay@) {
            let k = choose|k: int| 0 <= k < menu.ledge_delay@.len() && menu.ledge_delay@[k] > 0
                && pick@ == only_flag(menu.ledge_delay@.len(), k);
            assert(is_only_flag(pick@, k));
        }
    }
}

/// Rolls the getup from the menu's ledge options, unless one is already rolled.
pub fn roll_ledge_case(state: &mut LedgeState, menu: &TrainingModpackMenu)
    ensures
        final(state).delay == old(state).delay,
        final(state).delay_counter == old(state).delay_counter,
        !no_flags(old(state).case@) ==> final(state).case == old(state).case,
        no_flags(old(state).case@) ==> is_random_pick(final(state).case@, menu.ledge_state@),
{
    if !weights_empty(&state.case.to_vec()) {
        return;
    }
    state.case = menu.ledge_state.get_random();
}

/// `r` is a possible mash action after getup `case`: a random pick from the
/// getup's override when it has one, else from the regular mash options when
/// ledge mashing is enabled, else none.
pub open spec fn is_ledge_pick(r: Option<Action>, case: Seq<u8>, menu: TrainingModpackMenu) -> bool {
    match ledge_override(case, menu) {
        Some(o) => r matches Some(a) && is_random_pick(a@, o@),
        None => if ledge_mash_enabled(menu) {
            r matches Some(a) && is_random_pick(a@, menu.mash_state@)
        } else {
            r is None
        },
    }
}

/// The override that the menu names for the getup called `name`: the
/// neutral getup's for "Neutral Getup", the roll's for "Roll", the jump's
/// for "Jump" and the getup attack's for "Getup Attack".
pub open spec fn override_named(name: Seq<char>, menu: TrainingModpackMenu) -> Option<Action> {
    if name == "Neutral Getup"@ {
        Some(menu.ledge_neutral_override)
    } else if name == "Roll"@ {
        Some(menu.ledge_roll_override)
    } else if name == "Jump"@ {
        Some(menu.ledge_jump_override)
    } else if name == "Getup Attack"@ {
        Some(menu.ledge_attack_override)
    } else {
        None
    }
}

/// After a getup, the mash action comes from the override that the menu names
/// for that getup, whenever that override is not empty; the overrides of the
/// other getups play no part: two menus that differ only in them allow the
/// same actions. Without an override of its own, the getup falls back to the
/// regular mash options when ledge mashing is on, and to no action otherwise.
pub proof fn lemma_getup_uses_its_own_override(
    k: int,
    menu: TrainingModpackMenu,
    other: TrainingModpackMenu,
    r: Option<Action>,
)
    requires
        0 <= k < LedgeOption::choices(),
        other.mash_triggers == menu.mash_triggers,
        other.mash_state == menu.mash_state,
        override_named(LedgeOption::spec_names()[k], other) == override_named(LedgeOption::spec_names()[k], menu),
    ensures
        match override_named(LedgeOption::spec_names()[k], menu) {
            Some(o) => !no_flags(o@) ==> (is_ledge_pick(r, only_flag(LedgeOption::choices(), k), menu)
                <==> (r matches Some(a) && is_random_pick(a@, o@))),
            None => true,
        },
        !(match override_named(LedgeOption::spec_names()[k], menu) {
            Some(o) => !no_flags(o@),
            None => false,
        }) ==> (
            is_ledge_pick(r, only_flag(LedgeOption::choices(), k), menu) <==> if ledge_mash_enabled(menu) {
                r matches Some(a) && is_random_pick(a@, menu.mash_state@)
            } else {
                r is None
            }),
        is_ledge_pick(r, only_flag(LedgeOption::choices(), k), menu)
            == is_ledge_pick(r, only_flag(LedgeOption::choices(), k), other),
{
    reveal_strlit("Neutral Getup");
    reveal_strlit("Roll");
    reveal_strlit("Jump");
    reveal_strlit("Getup Attack");
    reveal_strlit("Wait");
    reveal_strlit("Playback Slot 1");
    reveal_strlit("Playback Slot 2");
    reveal_strlit("Playback Slot 3");
    reveal_strlit("Playback Slot 4");
    reveal_strlit("Playback Slot 5");
    let n = LedgeOption::choices();
    let c = only_flag(n, k);
    assert forall|m: int| 0 <= m < n implies (is_only_flag(c, m) <==> m == k) by {
        assert(is_only_flag(c, k));
        if is_only_flag(c, m) {
            crate::flags::lemma_only_flag_unique(c, m, k);
        }
    }
    let names = LedgeOption::spec_names();
    assert("Jump"@[0] != "Roll"@[0]);
    assert("Wait"@[0] != "Roll"@[0] && "Wait"@[0] != "Jump"@[0]);
    let expected: Option<Action> = if k == 0 {
        Some(menu.ledge_neutral_override)
    } else if k == 1 {
        Some(menu.ledge_roll_override)
    } else if k == 2 {
        Some(menu.ledge_jump_override)
    } else if k == 3 {
        Some(menu.ledge_attack_override)
    } else {
        None
    };
    if k == 0 {
        assert(names[k] == "Neutral Getup"@);
    } else if k == 1 {
        assert(names[k] == "Roll"@);
        assert(names[k].len() != "Neutral Getup"@.len());
    } else if k == 2 {
        assert(names[k] == "Jump"@);
        assert(names[k].len() != "Neutral Getup"@.len());
        assert(names[k] != "Roll"@);
    } else if k == 3 {
        assert(names[k] == "Getup Attack"@);
        assert(names[k].len() != "Neutral Getup"@.len());
        assert(names[k].len() != "Roll"@.len());
        assert(names[k].len() != "Jump"@.len());
    } else if k == 4 {
        assert(names[k] == "Wait"@);
        assert(names[k].len() != "Neutral Getup"@.len());
        assert(names[k] != "Roll"@);
        assert(names[k] != "Jump"@);
        assert(names[k].len() != "Getup Attack"@.len());
    } else {
        assert(names[k].len() == 15);
        assert(names[k].len() != "Neutral Getup"@.len());
        assert(names[k].len() != "Roll"@.len());
        assert(names[k].len() != "Jump"@.len());
        assert(names[k].len() != "Getup Attack"@.len());
    }
    assert(override_named(names[k], menu) == expected);
    assert(ledge_override(c, menu) == match expected {
        Some(o) => if no_flags(o@) { None } else { Some(o) },
        None => None,
    });
}

/// The mash action after the rolled getup: a random pick from the getup's
/// override when it has one, else from the regular mash options when ledge
/// mashing is enabled, else none.
pub fn get_ledge_option(state: &LedgeState, menu: &TrainingModpackMenu) -> (r: Option<Action>)
    ensures
        is_ledge_pick(r, state.case@, *menu),
{
    let regular_action = if contains_weights(&menu.mash_triggers.to_vec(), &MashTrigger::LEDGE().to_vec()) {
        Some(menu.mash_state.get_random())
    } else {
        None
    };
    let case = state.case.to_vec();
    let mut override_action: Option<Action> = None;
    if weights_equal(&case, &LedgeOption::NEUTRAL().to_vec()) {
        if !weights_empty(&menu.ledge_neutral_override.to_vec()) {
            override_action = Some(menu.ledge_neutral_override.get_random());
        }
    } else if weights_equal(&case, &LedgeOption::ROLL().to_vec()) {
        if !weights_empty(&menu.ledge_roll_override.to_vec()) {
            override_action = Some(menu.ledge_roll_override.get_random());
        }
    } else if weights_equal(&case, &LedgeOption::JUMP().to_vec()) {
        if !weights_empty(&menu.ledge_jump_override.to_vec()) {
            override_action = Some(menu.ledge_jump_override.get_random());
        }
    } else if weights_equal(&case, &LedgeOption::ATTACK().to_vec()) {
        if !weights_empty(&menu.ledge_attack_override.to_vec()) {
            override_action = Some(menu.ledge_attack_override.get_random());
        }
    }
    match override_action {
        Some(a) => Some(a),
        None => regular_action,
    }
}

/// Whether two weight lists are equal.
pub fn weights_equal(a: &Vec<u8>, b: &Vec<u8>) -> (r: bool)
    ensures
        r == (a@ == b@),
{
    if a.len() != b.len() {
        return false;
    }
    let mut i: usize = 0;
    while i < a.len()
        invariant
            a.len() == b.len(),
            i <= a.len(),
            forall|j: int| 0 <= j < i ==> a@[j] == b@[j],
        decreases a.len() - i,
    {
        if a[i] != b[i] {
            return false;
        }
        i = i + 1;
    }
    assert(a@ =~= b@);
    true
}

/// What the game shows about the CPU on the ledge.
#[derive(Clone, Copy, Debug, PartialEq, Eq, Structural)]
pub struct LedgeObservation {
    /// The CPU hangs on the ledge.
    pub on_cliff: bool,
    /// The CPU's status is waiting on the ledge.
    pub in_cliff_wait: bool,
    /// The CPU's previous status was catching the ledge.
    pub from_cliff_catch: bool,
    /// The CPU's status is catching the ledge.
    pub in_cliff_catch: bool,
    /// The game's ledge flag: false while a getup must be buffered, true
    /// while getting up (and for a tether grab).
    pub flag_cliff: bool,
    /// The frame of the current animation.
    pub current_frame: i32,
    /// The CPU can take a ledge action now.
    pub can_cliff_attack: bool,
}

/// What the CPU does on the ledge this frame.
#[derive(Clone, Copy, Debug, PartialEq, Eq, Structural)]
pub enum LedgeDecision {
    Nothing,
    /// Get up with this option (the caller changes the CPU's status).
    Getup(LedgeOption),
}

/// The playback slot that a ledge option names, if it is one.
pub open spec fn ledge_slot(case: Seq<u8>) -> Option<usize> {
    if exists|k: int| 5 <= k <= 9 && is_only_flag(case, k) {
        Some(((choose|k: int| 5 <= k <= 9 && is_only_flag(case, k)) - 5) as usize)
    } else {
        None
    }
}

/// A playback from the ledge is buffered on frame 13 when there is no delay.
pub open spec fn buffers_playback(delay: u32, o: LedgeObservation) -> bool {
    delay == 0 && o.current_frame == 13
}

/// A getup is buffered on the frame before it can be taken when there is no
/// delay: frame 19 of a regular ledge grab, frame 18 of a tether grab.
pub open spec fn buffers_getup(delay: u32, o: LedgeObservation) -> bool {
    if o.in_cliff_wait && o.from_cliff_catch {
        delay == 0 && o.current_frame == 19 && !o.flag_cliff
    } else if o.in_cliff_wait {
        delay == 0 && o.current_frame == 18 && o.flag_cliff
    } else {
        false
    }
}

/// `new` is `old` with the delay and getup rolled when not rolled yet.
pub open spec fn ledge_rolled(old: LedgeState, new: LedgeState, menu: TrainingModpackMenu) -> bool {
    &&& old.delay != NOT_SET ==> new.delay == old.delay
    &&& old.delay == NOT_SET ==> is_rolled_delay(new.delay, menu.ledge_delay@, 10)
    &&& !no_flags(old.case@) ==> new.case == old.case
    &&& no_flags(old.case@) ==> is_random_pick(new.case@, menu.ledge_state@)
    &&& new.delay_counter == old.delay_counter
}

/// `mash2` is `mash` after the mash that follows a getup: nothing when no
/// action is picked, else the picked action is buffered (see
/// `external_buffer_menu_mash`).
pub open spec fn ledge_mash(
    mash: MashState,
    mash2: MashState,
    counters: Seq<FrameCounter>,
    counters2: Seq<FrameCounter>,
    case: Seq<u8>,
    menu: TrainingModpackMenu,
    rec: InputRecorder,
) -> bool {
    exists|o: Option<Action>| #[trigger] is_ledge_pick(o, case, menu) && match o {
        None => mash2 == mash && counters2 == counters,
        Some(a) => {
            let i = mash.aerial_delay_counter as int;
            &&& rebuffered(mash, mash2, menu, status_of(rec), a)
            &&& counters2 == if mash.queue@.len() > 0 { counters.update(i, fully_reset(counters[i])) } else { counters }
        },
    }
}

/// The outcome of `force_option`: `s0`, `rec0`, `m0` and `cs0` before the
/// frame, `s1`, `rec1`, `m1` and `cs1` after it, and the decision `r`.
pub open spec fn forced_option(
    s0: LedgeState,
    s1: LedgeState,
    rec0: InputRecorder,
    rec1: InputRecorder,
    m0: MashState,
    m1: MashState,
    cs0: Seq<FrameCounter>,
    cs1: Seq<FrameCounter>,
    menu: TrainingModpackMenu,
    obs: LedgeObservation,
    r: LedgeDecision,
) -> bool {
    &&& !obs.on_cliff ==> {
        let i = s0.delay_counter as int;
        &&& r == LedgeDecision::Nothing
        &&& no_flags(s1.case@)
        &&& s1.delay == NOT_SET
        &&& rec1 == rec0
        &&& m1 == m0
        &&& cs1 == if s0.delay != NOT_SET {
            cs0.update(i, fully_reset(cs0[i]))
        } else {
            cs0
        }
    }
    &&& obs.on_cliff ==> {
        let i = s1.delay_counter as int;
        let early_playback = !obs.can_cliff_attack && buffers_playback(s1.delay, obs)
            && ledge_slot(s1.case@) is Some && !no_flags(menu.ledge_delay@);
        let acts = !early_playback && (obs.can_cliff_attack || buffers_getup(s1.delay, obs));
        let c1 = cs0.update(i, after_delay_check(cs0[i], s1.delay));
        &&& ledge_rolled(s0, s1, menu)
        &&& early_playback ==> {
            &&& r == LedgeDecision::Nothing
            &&& m1 == m0
            &&& cs1 == cs0
            &&& rec0.input_record == InputRecordState::Pause ==> rec1 == rec0
            &&& rec0.input_record != InputRecordState::Pause ==> {
                &&& rec1.input_record == InputRecordState::Playback
                &&& rec1.current_playback_slot == ledge_slot(s1.case@)->0
                &&& rec1.buffer_frame == if obs.in_cliff_catch { 4usize } else { 5usize }
            }
        }
        &&& !early_playback && !acts ==> {
            &&& r == LedgeDecision::Nothing
            &&& rec1 == rec0
            &&& m1 == m0
            &&& cs1 == cs0
        }
        &&& acts && is_only_flag(s1.case@, 4) ==> {
            &&& r == LedgeDecision::Nothing
            &&& rec1 == rec0
            &&& m1 == m0
            &&& cs1 == cs0
        }
        &&& acts && !is_only_flag(s1.case@, 4) && delay_pending(cs0[i], s1.delay) ==> {
            &&& r == LedgeDecision::Nothing
            &&& rec1 == rec0
            &&& m1 == m0
            &&& cs1 == c1
        }
        &&& acts && !is_only_flag(s1.case@, 4) && !delay_pending(cs0[i], s1.delay) ==> {
            &&& ledge_slot(s1.case@) is Some ==> r == LedgeDecision::Nothing
                && played_back(rec0, rec1, ledge_slot(s1.case@))
            &&& ledge_slot(s1.case@) is None ==> r == LedgeDecision::Getup(s1.case) && rec1 == rec0
            &&& ledge_mash(m0, m1, c1, cs1, s1.case@, menu, rec1)
        }
    }
}

/// Forces the CPU's ledge option. Off the ledge, the rolled getup and delay
/// are forgotten. On the ledge they are rolled if needed; a playback getup
/// with a delay set is buffered on frame 13 when there is no delay; until a
/// ledge action can be taken (or is buffered, see `buffers_getup`), nothing
/// happens. Then, unless the CPU waits, the getup is taken once the delay has
/// passed (a playback getup plays its slot back), followed by the mash action
/// of the getup.
pub fn force_option(
    state: &mut LedgeState,
    rec: &mut InputRecorder,
    mash: &mut MashState,
    shield: &mut ShieldState,
    counters: &mut Vec<FrameCounter>,
    menu: &TrainingModpackMenu,
    obs: LedgeObservation,
) -> (r: LedgeDecision)
    requires
        old(state).delay_counter < old(counters).len(),
        old(mash).aerial_delay_counter < old(counters).len(),
        old(rec).wf(),
    ensures
        final(rec).wf(),
        final(state).delay_counter == old(state).delay_counter,
        final(mash).aerial_delay_counter == old(mash).aerial_delay_counter,
        final(counters)@.len() == old(counters)@.len(),
        forced_option(*old(state), *final(state), *old(rec), *final(rec), *old(mash), *final(mash),
            old(counters)@, final(counters)@, *menu, obs, r),
{
    if !obs.on_cliff {
        reset_ledge_case(state);
        reset_ledge_delay(state, counters);
        return LedgeDecision::Nothing;
    }
    roll_ledge_delay(state, menu);
    roll_ledge_case(state, menu);
    let delay = state.delay;
    let case = state.case;
    let slot = case.playback_slot();
    proof {
        match slot {
            Some(k) => {
                assert(is_only_flag(case@, k + 5));
                assert(exists|j: int| 5 <= j <= 9 && is_only_flag(case@, j));
                let j = choose|j: int| 5 <= j <= 9 && is_only_flag(case@, j);
                crate::flags::lemma_only_flag_unique(case@, j, k + 5);
            },
            None => {},
        }
    }
    let should_buffer_playback = delay == 0 && obs.current_frame == 13;
    let should_buffer = if obs.in_cliff_wait && obs.from_cliff_catch {
        delay == 0 && obs.current_frame == 19 && !obs.flag_cliff
    } else if obs.in_cliff_wait {
        delay == 0 && obs.current_frame == 18 && obs.flag_cliff
    } else {
        false
    };
    if !obs.can_cliff_attack {
        if should_buffer_playback && slot.is_some() && !weights_empty(&menu.ledge_delay.to_vec()) {
            playback_ledge(rec, slot, obs.in_cliff_catch);
            return LedgeDecision::Nothing;
        }
        if !should_buffer {
            return LedgeDecision::Nothing;
        }
    }
    let waits = match crate::flags::choice_if_single(&case.to_vec()) {
        Some(k) => k == 4,
        None => false,
    };
    if waits {
        return LedgeDecision::Nothing;
    }
    if should_delay(counters, delay, state.delay_counter) {
        return LedgeDecision::Nothing;
    }
    let decision = if slot.is_some() {
        playback(rec, slot);
        LedgeDecision::Nothing
    } else {
        LedgeDecision::Getup(case)
    };
    let opt = get_ledge_option(state, menu);
    match opt {
        Some(a) => {
            let status = playback_status(rec);
            external_buffer_menu_mash(mash, shield, counters, menu, status, a);
            assert(is_ledge_pick(opt, case@, *menu));
        },
        None => {
            assert(is_ledge_pick(opt, case@, *menu));
        },
    }
    decision
}

/// The ledge logic of a frame's command check: for the CPU, unless a
/// recording or playback runs or no ledge option is set, the ledge option is
/// forced (see `force_option`).
pub fn get_command_flag_cat(
    state: &mut LedgeState,
    rec: &mut InputRecorder,
    mash: &mut MashState,
    shield: &mut ShieldState,
    counters: &mut Vec<FrameCounter>,
    menu: &TrainingModpackMenu,
    is_cpu: bool,
    obs: LedgeObservation,
) -> (r: LedgeDecision)
    requires
        old(state).delay_counter < old(counters).len(),
        old(mash).aerial_delay_counter < old(counters).len(),
        old(rec).wf(),
    ensures
        final(rec).wf(),
        !is_cpu || status_of(*old(rec)).is_playback || no_flags(menu.ledge_state@) ==> {
            &&& r == LedgeDecision::Nothing
            &&& *final(state) == *old(state)
            &&& *final(rec) == *old(rec)
            &&& *final(mash) == *old(mash)
            &&& final(counters)@ == old(counters)@
        },
        !(!is_cpu || status_of(*old(rec)).is_playback || no_flags(menu.ledge_state@)) ==> forced_option(
            *old(state),
            *final(state),
            *old(rec),
            *final(rec),
            *old(mash),
            *final(mash),
            old(counters)@,
            final(counters)@,
            *menu,
            obs,
            r,
        ),
{
    if !is_cpu || is_playback(rec) || weights_empty(&menu.ledge_state.to_vec()) {
        return LedgeDecision::Nothing;
    }
    force_option(state, rec, mash, shield, counters, menu, obs)
}

/// Whether the game may let the CPU climb up from the ledge by itself: for
/// the CPU waiting on the ledge with a ledge option set, the climb is refused
/// while it waits, while the delay runs, or while a playback getup has not
/// started playing back; otherwise the game decides (`None`).
pub fn is_enable_transition_term(
    state: &LedgeState,
    counters: &Vec<FrameCounter>,
    rec: &InputRecorder,
    menu: &TrainingModpackMenu,
    is_cpu: bool,
    in_cliff_wait: bool,
    is_climb_term: bool,
) -> (r: Option<bool>)
    requires
        state.delay_counter < counters.len(),
    ensures
        r == if is_cpu && in_cliff_wait && !no_flags(menu.ledge_state@) && is_climb_term && (
            is_only_flag(state.case@, 4) || counters@[state.delay_counter as int].count < state.delay
                || (ledge_slot(state.case@) is Some && !status_of(*rec).is_playback)
        ) {
            Some(false)
        } else {
            None
        },
{
    if !is_cpu {
        return None;
    }
    if !in_cliff_wait || weights_empty(&menu.ledge_state.to_vec()) {
        return None;
    }
    let waits = match crate::flags::choice_if_single(&state.case.to_vec()) {
        Some(k) => k == 4,
        None => false,
    };
    let slot = state.case.playback_slot();
    proof {
        match slot {
            Some(k) => {
                let j = choose|j: int| 5 <= j <= 9 && is_only_flag(state.case@, j);
                crate::flags::lemma_only_flag_unique(state.case@, j, k + 5);
            },
            None => {},
        }
    }
    if is_climb_term && ((waits || crate::frame_counter::get_frame_count(counters, state.delay_counter) < state.delay)
        || (slot.is_some() && !is_playback(rec))) {
        return Some(false);
    }
    None
}

} // verus!
