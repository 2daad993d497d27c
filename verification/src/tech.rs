//! Teching: how the CPU techs on the ground, walls and ceilings, how it gets
//! up after a missed tech, and which way its rolls face.
use vstd::prelude::*;
use crate::flags::{choice_if_single, contains_weights, is_only_flag, is_random_pick, no_flags, only_flag, weights_empty};
use crate::frame_counter::{after_delay_check, delay_pending, fully_reset, should_delay, FrameCounter};
use crate::frame_counter;
use crate::mash::{external_buffer_menu_mash, rebuffered, trigger_on, MashState, PlaybackStatus};
use crate::menu::TrainingModpackMenu;
use crate::options::{Action, Direction, MashTrigger, MissTechFlags, TechFlags};
use crate::shield::ShieldState;

verus! {

/// What the tech logic remembers: which way the last tech roll and missed
/// tech roll went, and the frame counter of a lay-down lockout.
pub struct TechState {
    pub tech_roll_direction: Direction,
    pub miss_tech_roll_direction: Direction,
    pub frame_counter: usize,
}

/// Where the CPU is about to land after being launched.
#[derive(Clone, Copy, Debug, PartialEq, Eq, Structural)]
pub enum TechSurface {
    /// Falling down on the ground or bouncing off it.
    Ground,
    /// Hitting or bouncing off a wall.
    Wall,
    /// Hitting or bouncing off a ceiling.
    Ceiling,
    /// Anything else.
    Other,
}

/// The tech status that the CPU's status change is turned into.
#[derive(Clone, Copy, Debug, PartialEq, Eq, Structural)]
pub enum TechStatus {
    /// Tech in place.
    Passive,
    /// Tech roll on the ground.
    PassiveRoll,
    /// Wall tech.
    PassiveWall,
    /// Wall jump tech.
    PassiveWallJump,
    /// Ceiling tech.
    PassiveCeil,
}

/// The options that a mash after a tech picks from: the tech override, or the
/// regular mash options when it is empty.
pub open spec fn tech_choices(menu: TrainingModpackMenu) -> Seq<u8> {
    if no_flags(menu.tech_action_override@) { menu.mash_state@ } else { menu.tech_action_override@ }
}

/// The tech status for a rolled tech option on a surface, if the CPU techs
/// there: on the ground in place or rolling; on a wall in place or with a
/// wall jump; on a ceiling with anything but "No Tech".
pub open spec fn tech_status(surface: TechSurface, state: Seq<u8>) -> Option<TechStatus> {
    match surface {
        TechSurface::Ground => if is_only_flag(state, 3) {
            Some(TechStatus::Passive)
        } else if is_only_flag(state, 1) || is_only_flag(state, 2) {
            Some(TechStatus::PassiveRoll)
        } else {
            None
        },
        TechSurface::Wall => if is_only_flag(state, 3) {
            Some(TechStatus::PassiveWall)
        } else if is_only_flag(state, 1) {
            Some(TechStatus::PassiveWallJump)
        } else {
            None
        },
        TechSurface::Ceiling => if !is_only_flag(state, 0) { Some(TechStatus::PassiveCeil) } else { None },
        TechSurface::Other => None,
    }
}

/// `m1` and `cs1` are `m0` and `cs0` after a mash that follows a tech when
/// `trigger` is on (see `external_buffer_menu_mash`), and unchanged otherwise.
pub open spec fn tech_mash(
    m0: MashState,
    m1: MashState,
    cs0: Seq<FrameCounter>,
    cs1: Seq<FrameCounter>,
    menu: TrainingModpackMenu,
    playback: PlaybackStatus,
    trigger: bool,
) -> bool {
    let i = m0.aerial_delay_counter as int;
    &&& !trigger ==> m1 == m0 && cs1 == cs0
    &&& trigger ==> {
        &&& exists|a: Action| is_random_pick(a@, tech_choices(menu)) && #[trigger] rebuffered(m0, m1, menu, playback, a)
        &&& cs1 == if m0.queue@.len() > 0 { cs0.update(i, fully_reset(cs0[i])) } else { cs0 }
    }
}

fn mash_after_tech(
    mash: &mut MashState,
    shield: &mut ShieldState,
    counters: &mut Vec<FrameCounter>,
    menu: &TrainingModpackMenu,
    playback: PlaybackStatus,
    trigger: MashTrigger,
)
    requires
        old(mash).aerial_delay_counter < old(counters).len(),
    ensures
        final(mash).aerial_delay_counter == old(mash).aerial_delay_counter,
        final(counters)@.len() == old(counters)@.len(),
        tech_mash(*old(mash), *final(mash), old(counters)@, final(counters)@, *menu, playback,
            crate::flags::flags_contains(menu.mash_triggers@, trigger@)),
{
    if contains_weights(&menu.mash_triggers.to_vec(), &trigger.to_vec()) {
        let pick = if weights_empty(&menu.tech_action_override.to_vec()) {
            menu.mash_state.get_random()
        } else {
            menu.tech_action_override.get_random()
        };
        let ghost before = *mash;
        external_buffer_menu_mash(mash, shield, counters, menu, playback, pick);
        assert(is_random_pick(pick@, tech_choices(*menu)) && rebuffered(before, *mash, *menu, playback, pick));
    }
}

/// The CPU's status is changing while it is launched. When it can tech on the
/// surface it meets, a tech option is rolled from the menu: the status becomes
/// the tech (see `tech_status`), a ground roll remembers its direction (in for
/// forward, out for backward), and a tech is followed by a mash when the tech
/// trigger is on. `None` leaves the status change alone.
pub fn mod_handle_change_status(
    state: &mut TechState,
    mash: &mut MashState,
    shield: &mut ShieldState,
    counters: &mut Vec<FrameCounter>,
    menu: &TrainingModpackMenu,
    playback: PlaybackStatus,
    is_cpu: bool,
    surface: TechSurface,
    can_tech: bool,
) -> (r: Option<TechStatus>)
    requires
        old(mash).aerial_delay_counter < old(counters).len(),
    ensures
        final(state).miss_tech_roll_direction == old(state).miss_tech_roll_direction,
        final(state).frame_counter == old(state).frame_counter,
        final(mash).aerial_delay_counter == old(mash).aerial_delay_counter,
        final(counters)@.len() == old(counters)@.len(),
        !is_cpu || !can_tech ==> {
            &&& r is None
            &&& final(state).tech_roll_direction == old(state).tech_roll_direction
            &&& *final(mash) == *old(mash)
            &&& final(counters)@ == old(counters)@
        },
        is_cpu && can_tech ==> exists|t: TechFlags| {
            &&& is_random_pick(t@, menu.tech_state@)
            &&& #[trigger] tech_status(surface, t@) == r
            &&& final(state).tech_roll_direction@ == if surface == TechSurface::Ground && is_only_flag(t@, 1) {
                only_flag(11, 4)
            } else if surface == TechSurface::Ground && is_only_flag(t@, 2) {
                only_flag(11, 0)
            } else {
                old(state).tech_roll_direction@
            }
            &&& tech_mash(*old(mash), *final(mash), old(counters)@, final(counters)@, *menu, playback,
                r is Some && trigger_on(*menu, 9))
        },
{
    if !is_cpu {
        return None;
    }
    let tech = menu.tech_state.get_random();
    if !can_tech {
        return None;
    }
    let choice = choice_if_single(&tech.to_vec());
    let r = match surface {
        TechSurface::Ground => match choice {
            Some(3) => Some(TechStatus::Passive),
            Some(1) => {
                state.tech_roll_direction = Direction::IN();
                Some(TechStatus::PassiveRoll)
            },
            Some(2) => {
                state.tech_roll_direction = Direction::OUT();
                Some(TechStatus::PassiveRoll)
            },
            _ => None,
        },
        TechSurface::Wall => match choice {
            Some(3) => Some(TechStatus::PassiveWall),
            Some(1) => Some(TechStatus::PassiveWallJump),
            _ => None,
        },
        TechSurface::Ceiling => match choice {
            Some(0) => None,
            _ => Some(TechStatus::PassiveCeil),
        },
        TechSurface::Other => None,
    };
    if r.is_some() {
        mash_after_tech(mash, shield, counters, menu, playback, MashTrigger::TECH());
    }
    assert(tech_status(surface, tech@) == r);
    r
}

/// Where the CPU lies after a missed tech.
#[derive(Clone, Copy, Debug, PartialEq, Eq, Structural)]
pub enum DownSituation {
    /// Lying down after a missed tech.
    DownWait,
    /// Laid down by a throw that locks the CPU out for a while.
    LayDown,
    /// Slipped (on a banana, for one).
    SlipWait,
    /// Anything else.
    Other,
}

/// How the CPU gets up after a missed tech.
#[derive(Clone, Copy, Debug, PartialEq, Eq, Structural)]
pub enum GetupStatus {
    DownStand,
    DownStandAttack,
    DownStandRoll,
    SlipStand,
    SlipStandAttack,
    SlipStandForward,
    SlipStandBack,
}

/// The getup for a rolled missed-tech option, if it names one.
pub open spec fn getup_status(situation: DownSituation, miss: Seq<u8>) -> Option<GetupStatus> {
    if situation == DownSituation::SlipWait {
        if is_only_flag(miss, 0) {
            Some(GetupStatus::SlipStand)
        } else if is_only_flag(miss, 1) {
            Some(GetupStatus::SlipStandAttack)
        } else if is_only_flag(miss, 2) {
            Some(GetupStatus::SlipStandForward)
        } else if is_only_flag(miss, 3) {
            Some(GetupStatus::SlipStandBack)
        } else {
            None
        }
    } else if is_only_flag(miss, 0) {
        Some(GetupStatus::DownStand)
    } else if is_only_flag(miss, 1) {
        Some(GetupStatus::DownStandAttack)
    } else if is_only_flag(miss, 2) || is_only_flag(miss, 3) {
        Some(GetupStatus::DownStandRoll)
    } else {
        None
    }
}

/// The getup is the one that the missed-tech choice named `name` asks for:
/// "Neutral Getup" stands up in place, "Getup Attack" attacks, "Roll
/// Forwards" and "Roll Backwards" roll (slipped, each to its own side).
pub open spec fn getup_named(name: Seq<char>, g: GetupStatus) -> bool {
    match g {
        GetupStatus::DownStand | GetupStatus::SlipStand => name == "Neutral Getup"@,
        GetupStatus::DownStandAttack | GetupStatus::SlipStandAttack => name == "Getup Attack"@,
        GetupStatus::DownStandRoll => name == "Roll Forwards"@ || name == "Roll Backwards"@,
        GetupStatus::SlipStandForward => name == "Roll Forwards"@,
        GetupStatus::SlipStandBack => name == "Roll Backwards"@,
    }
}

/// The getups of a slipped fighter.
pub open spec fn is_slip_getup(g: GetupStatus) -> bool {
    g == GetupStatus::SlipStand || g == GetupStatus::SlipStandAttack || g == GetupStatus::SlipStandForward
        || g == GetupStatus::SlipStandBack
}

/// A missed-tech choice gets the CPU up as its menu name says: every single
/// choice gives a getup, the one its name asks for, a slipped getup exactly
/// when the CPU slipped; different choices give different getups, but for the
/// two rolls of a fighter lying down, which share the getup and differ in
/// the roll's direction; and each getup of the situation is asked for by
/// some choice.
pub proof fn lemma_getup_is_the_named_choice(situation: DownSituation, j: int, k: int, g: GetupStatus)
    requires
        0 <= j < 4,
        0 <= k < 4,
        is_slip_getup(g) == (situation == DownSituation::SlipWait),
    ensures
        getup_status(situation, only_flag(4, k)) matches Some(f) && getup_named(MissTechFlags::spec_names()[k], f)
            && is_slip_getup(f) == (situation == DownSituation::SlipWait),
        j != k && getup_status(situation, only_flag(4, j)) == getup_status(situation, only_flag(4, k))
            ==> situation != DownSituation::SlipWait && j >= 2 && k >= 2,
        exists|i: int| 0 <= i < 4 && #[trigger] getup_status(situation, only_flag(4, i)) == Some(g),
{
    assert forall|i: int, m: int| 0 <= i < 4 && 0 <= m < 4 implies (is_only_flag(only_flag(4, i), m) <==> i == m) by {
        assert(is_only_flag(only_flag(4, i), i));
        if is_only_flag(only_flag(4, i), m) {
            crate::flags::lemma_only_flag_unique(only_flag(4, i), m, i);
        }
    }
    let i: int = match g {
        GetupStatus::DownStand | GetupStatus::SlipStand => 0,
        GetupStatus::DownStandAttack | GetupStatus::SlipStandAttack => 1,
        GetupStatus::DownStandRoll | GetupStatus::SlipStandForward => 2,
        GetupStatus::SlipStandBack => 3,
    };
    assert(getup_status(situation, only_flag(4, i)) == Some(g));
}

fn down_getup(state: &mut TechState, situation: DownSituation, miss: MissTechFlags) -> (r: Option<GetupStatus>)
    ensures
        r == getup_status(situation, miss@),
        final(state).tech_roll_direction == old(state).tech_roll_direction,
        final(state).frame_counter == old(state).frame_counter,
        final(state).miss_tech_roll_direction@ == if situation != DownSituation::SlipWait && is_only_flag(miss@, 2) {
            only_flag(11, 4)
        } else if situation != DownSituation::SlipWait && is_only_flag(miss@, 3) {
            only_flag(11, 0)
        } else {
            old(state).miss_tech_roll_direction@
        },
{
    let choice = choice_if_single(&miss.to_vec());
    if situation == DownSituation::SlipWait {
        match choice {
            Some(0) => Some(GetupStatus::SlipStand),
            Some(1) => Some(GetupStatus::SlipStandAttack),
            Some(2) => Some(GetupStatus::SlipStandForward),
            Some(3) => Some(GetupStatus::SlipStandBack),
            _ => None,
        }
    } else {
        match choice {
            Some(0) => Some(GetupStatus::DownStand),
            Some(1) => Some(GetupStatus::DownStandAttack),
            Some(2) => {
                state.miss_tech_roll_direction = Direction::IN();
                Some(GetupStatus::DownStandRoll)
            },
            Some(3) => {
                state.miss_tech_roll_direction = Direction::OUT();
                Some(GetupStatus::DownStandRoll)
            },
            _ => None,
        }
    }
}

/// The missed-tech logic of a frame's command check, for the CPU with a tech
/// option set. Lying down or slipped, the CPU gets up as a missed-tech option
/// rolled from the menu says (after `lockout` frames when laid down by a
/// throw); a getup is followed by a mash when the missed-tech trigger is on.
/// Elsewhere the lockout counter is reset. Returns the getup to force.
pub fn get_command_flag_cat(
    state: &mut TechState,
    mash: &mut MashState,
    shield: &mut ShieldState,
    counters: &mut Vec<FrameCounter>,
    menu: &TrainingModpackMenu,
    playback: PlaybackStatus,
    is_cpu: bool,
    situation: DownSituation,
    lockout: u32,
) -> (r: Option<GetupStatus>)
    requires
        old(state).frame_counter < old(counters).len(),
        old(mash).aerial_delay_counter < old(counters).len(),
    ensures
        final(state).tech_roll_direction == old(state).tech_roll_direction,
        final(state).frame_counter == old(state).frame_counter,
        final(mash).aerial_delay_counter == old(mash).aerial_delay_counter,
        final(counters)@.len() == old(counters)@.len(),
        ({
            let i = old(state).frame_counter as int;
            let c1 = old(counters)@.update(i, after_delay_check(old(counters)@[i], lockout));
            let rolls = situation == DownSituation::DownWait || situation == DownSituation::SlipWait
                || (situation == DownSituation::LayDown && !delay_pending(old(counters)@[i], lockout));
            let cs = if situation == DownSituation::LayDown { c1 } else { old(counters)@ };
            &&& !is_cpu || no_flags(menu.tech_state@) ==> {
                &&& r is None
                &&& final(state).miss_tech_roll_direction == old(state).miss_tech_roll_direction
                &&& *final(mash) == *old(mash)
                &&& final(counters)@ == old(counters)@
            }
            &&& is_cpu && !no_flags(menu.tech_state@) && situation == DownSituation::Other ==> {
                &&& r is None
                &&& final(state).miss_tech_roll_direction == old(state).miss_tech_roll_direction
                &&& *final(mash) == *old(mash)
                &&& final(counters)@ == old(counters)@.update(i, fully_reset(old(counters)@[i]))
            }
            &&& is_cpu && !no_flags(menu.tech_state@) && situation == DownSituation::LayDown
                && delay_pending(old(counters)@[i], lockout) ==> {
                &&& r is None
                &&& final(state).miss_tech_roll_direction == old(state).miss_tech_roll_direction
                &&& *final(mash) == *old(mash)
                &&& final(counters)@ == c1
            }
            &&& is_cpu && !no_flags(menu.tech_state@) && rolls ==> exists|m: MissTechFlags| {
                &&& is_random_pick(m@, menu.miss_tech_state@)
                &&& #[trigger] getup_status(situation, m@) == r
                &&& final(state).miss_tech_roll_direction@ == if situation != DownSituation::SlipWait
                    && is_only_flag(m@, 2) {
                    only_flag(11, 4)
                } else if situation != DownSituation::SlipWait && is_only_flag(m@, 3) {
                    only_flag(11, 0)
                } else {
                    old(state).miss_tech_roll_direction@
                }
                &&& tech_mash(*old(mash), *final(mash), cs, final(counters)@, *menu, playback,
                    r is Some && trigger_on(*menu, 10))
            }
        }),
{
    if !is_cpu || weights_empty(&menu.tech_state.to_vec()) {
        return None;
    }
    let ghost c0 = counters@;
    match situation {
        DownSituation::Other => {
            frame_counter::full_reset(counters, state.frame_counter);
            return None;
        },
        DownSituation::LayDown => {
            if should_delay(counters, lockout, state.frame_counter) {
                return None;
            }
        },
        _ => {},
    }
    let miss = menu.miss_tech_state.get_random();
    let r = down_getup(state, situation, miss);
    if r.is_some() {
        mash_after_tech(mash, shield, counters, menu, playback, MashTrigger::MISTECH());
    }
    r
}

/// A motion that a tech roll or a missed-tech roll plays, forward or back.
#[derive(Clone, Copy, Debug, PartialEq, Eq, Structural)]
pub enum RollMotion {
    /// A tech roll (`passive_stand_f` or `passive_stand_b`).
    TechRoll,
    /// A missed-tech roll face up (`down_forward_u` or `down_back_u`).
    DownRollUp,
    /// A missed-tech roll face down (`down_forward_d` or `down_back_d`).
    DownRollDown,
    /// Any other motion.
    Other,
}

/// Which way a roll motion goes: forward or back.
#[derive(Clone, Copy, Debug, PartialEq, Eq, Structural)]
pub enum RollWay {
    Forward,
    Back,
}

/// The way of a roll motion: forward when the remembered roll went in
/// (the direction "In", choice 4), back otherwise; none for other motions, other fighters or without a tech option.
pub open spec fn roll_way(state: TechState, menu: TrainingModpackMenu, is_cpu: bool, motion: RollMotion) -> Option<RollWay> {
    if !is_cpu || no_flags(menu.tech_state@) {
        None
    } else {
        match motion {
            RollMotion::TechRoll => Some(if is_only_flag(state.tech_roll_direction@, 4) { RollWay::Forward } else { RollWay::Back }),
            RollMotion::DownRollUp | RollMotion::DownRollDown => Some(
                if is_only_flag(state.miss_tech_roll_direction@, 4) { RollWay::Forward } else { RollWay::Back },
            ),
            RollMotion::Other => None,
        }
    }
}

/// Replaces a roll motion so that the roll goes the way that was rolled (see
/// `roll_way`); the caller plays the forward or back version of the motion.
pub fn change_motion(state: &TechState, menu: &TrainingModpackMenu, is_cpu: bool, motion: RollMotion) -> (r: Option<RollWay>)
    ensures
        r == roll_way(*state, *menu, is_cpu, motion),
{
    if !is_cpu || weights_empty(&menu.tech_state.to_vec()) {
        return None;
    }
    match motion {
        RollMotion::TechRoll => Some(
            if choice_if_single(&state.tech_roll_direction.to_vec()) == Some(4usize) { RollWay::Forward } else { RollWay::Back },
        ),
        RollMotion::DownRollUp | RollMotion::DownRollDown => Some(
            if choice_if_single(&state.miss_tech_roll_direction.to_vec()) == Some(4usize) {
                RollWay::Forward
            } else {
                RollWay::Back
            },
        ),
        RollMotion::Other => None,
    }
}

} // verus!
