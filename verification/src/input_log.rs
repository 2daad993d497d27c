//! Input log helpers: binning stick positions into display directions and
//! inserting new entries at the front of the fixed-size log.
use vstd::prelude::*;
use crate::flags::{choice_if_single, is_only_flag, is_single};
use crate::frame_counter::{
    get_frame_count, reset_frame_count, start_counting, tick_idx, with_count, with_counting, FrameCounter,
};
use crate::menu::TrainingModpackMenu;

verus! {

/// How far a stick is pushed, as the input log shows it.
#[derive(Clone, Copy, Debug, PartialEq, Eq, Structural)]
pub enum DirectionStrength {
    /// The stick is centred (no direction).
    Centred,
    Weak,
}

/// Horizontal stick travel below which the stick counts as centred.
pub const WALK_THRESHOLD_X: i8 = 20;
/// Vertical stick travel below which the stick counts as centred.
pub const DEADZONE_THRESHOLD_Y: i8 = 30;

/// The strength and the angle in degrees (counter-clockwise from right) that
/// the log shows for stick position `(x, y)`.
pub open spec fn binned_stick(x: int, y: int) -> (DirectionStrength, u16) {
    if -30 < y < 30 {
        if x > 20 {
            (DirectionStrength::Weak, 0)
        } else if x < -20 {
            (DirectionStrength::Weak, 180)
        } else {
            (DirectionStrength::Centred, 0)
        }
    } else if -20 < x < 20 {
        if y > 30 {
            (DirectionStrength::Weak, 90)
        } else if y < -30 {
            (DirectionStrength::Weak, 270)
        } else {
            (DirectionStrength::Centred, 0)
        }
    } else if y > 30 {
        if x > 20 {
            (DirectionStrength::Weak, 45)
        } else if x < -20 {
            (DirectionStrength::Weak, 135)
        } else {
            (DirectionStrength::Weak, 90)
        }
    } else if y < 30 {
        if x > 20 {
            (DirectionStrength::Weak, 315)
        } else if x < -20 {
            (DirectionStrength::Weak, 225)
        } else {
            (DirectionStrength::Weak, 270)
        }
    } else {
        (DirectionStrength::Centred, 0)
    }
}

/// Bins a stick position into one of eight directions, or none when the stick
/// is centred. The angle is in whole degrees.
pub fn bin_stick_values(x: i8, y: i8) -> (r: (DirectionStrength, u16))
    requires
        y != i8::MIN,
        x == i8::MIN ==> -30 < y < 30,
    ensures
        r == binned_stick(x as int, y as int),
{
    let ay: i8 = if y < 0 { -y } else { y };
    if ay < DEADZONE_THRESHOLD_Y {
        return if x > WALK_THRESHOLD_X {
            (DirectionStrength::Weak, 0)
        } else if x < -WALK_THRESHOLD_X {
            (DirectionStrength::Weak, 180)
        } else {
            (DirectionStrength::Centred, 0)
        };
    }
    let ax: i8 = if x < 0 { -x } else { x };
    if ax < WALK_THRESHOLD_X {
        if y > DEADZONE_THRESHOLD_Y {
            (DirectionStrength::Weak, 90)
        } else if y < -DEADZONE_THRESHOLD_Y {
            (DirectionStrength::Weak, 270)
        } else {
            (DirectionStrength::Centred, 0)
        }
    } else if y > DEADZONE_THRESHOLD_Y {
        if x > WALK_THRESHOLD_X {
            (DirectionStrength::Weak, 45)
        } else if x < -WALK_THRESHOLD_X {
            (DirectionStrength::Weak, 135)
        } else {
            (DirectionStrength::Weak, 90)
        }
    } else if y < DEADZONE_THRESHOLD_Y {
        if x > WALK_THRESHOLD_X {
            (DirectionStrength::Weak, 315)
        } else if x < -WALK_THRESHOLD_X {
            (DirectionStrength::Weak, 225)
        } else {
            (DirectionStrength::Weak, 270)
        }
    } else {
        (DirectionStrength::Centred, 0)
    }
}

/// `s` with `value` inserted at `index`, the last entry falling off the end.
pub open spec fn inserted_in_place<T>(s: Seq<T>, value: T, index: int) -> Seq<T> {
    s.subrange(0, index).push(value) + s.subrange(index, s.len() - 1)
}

/// Inserts `value` at `index`, moving the later entries back by one; the last
/// entry is dropped.
pub fn insert_in_place<T: Copy>(array: &mut [T], value: T, index: usize)
    requires
        index < old(array)@.len(),
    ensures
        final(array)@ == inserted_in_place(old(array)@, value, index as int),
{
    let ghost a = array@;
    let n = array.len();
    let mut i: usize = n - 1;
    while i > index
        invariant
            index <= i < n,
            n == a.len(),
            array@.len() == n,
            forall|j: int| 0 <= j <= i ==> array@[j] == a[j],
            forall|j: int| i < j < n ==> array@[j] == a[j - 1],
        decreases i,
    {
        let prev = array[i - 1];
        array[i] = prev;
        i = i - 1;
    }
    array[index] = value;
    assert(array@ =~= inserted_in_place(a, value, index as int));
}

/// Inserts `value` at the front, moving every entry back by one; the last
/// entry is dropped.
pub fn insert_in_front<T: Copy>(array: &mut [T], value: T)
    requires
        old(array)@.len() > 0,
    ensures
        final(array)@ == inserted_in_place(old(array)@, value, 0),
{
    insert_in_place(array, value, 0);
}

/// Number of entries of the input log.
pub const NUM_LOGS: usize = 15;

/// The sticks of a logged input: left x and y, right x and y.
#[derive(Clone, Copy, Debug, PartialEq, Eq, Structural)]
pub struct LoggedSticks {
    pub lx: i8,
    pub ly: i8,
    pub rx: i8,
    pub ry: i8,
}

/// One entry of the input log: an input held for a number of frames.
#[derive(Clone, Copy, Debug, PartialEq, Eq, Structural)]
pub struct InputLog {
    /// Frames left before the entry fades out.
    pub ttl: u32,
    /// Frames the input was held (at most 99 shown).
    pub frames: u32,
    /// The overall frame the entry was last updated on.
    pub overall_frame: u32,
    /// The buttons as the game maps them, as a bit set.
    pub smash_buttons: u64,
    /// The sticks as the game maps them.
    pub smash_sticks: LoggedSticks,
    /// The controller's buttons, as a bit set.
    pub raw_buttons: u64,
    /// The controller's sticks, scaled to the game's range.
    pub raw_sticks: LoggedSticks,
    pub status: i32,
    pub fighter_kind: i32,
}

/// The sticks can be binned (see `bin_stick_values`).
pub open spec fn binnable(s: LoggedSticks) -> bool {
    &&& s.ly != i8::MIN && (s.lx == i8::MIN ==> -30 < s.ly < 30)
    &&& s.ry != i8::MIN && (s.rx == i8::MIN ==> -30 < s.ry < 30)
}

/// Two stick pairs look different in the log.
pub open spec fn sticks_differ(a: LoggedSticks, b: LoggedSticks) -> bool {
    binned_stick(a.lx as int, a.ly as int) != binned_stick(b.lx as int, b.ly as int)
        || binned_stick(a.rx as int, a.ry as int) != binned_stick(b.rx as int, b.ry as int)
}

/// Two entries look different in the log for the menu's input display:
/// other buttons or stick directions (with the status when the menu shows
/// it) for game or controller inputs, the status alone for status display,
/// never without a display.
pub open spec fn log_differs(a: InputLog, b: InputLog, menu: TrainingModpackMenu) -> bool {
    let status_shown = is_only_flag(menu.input_display_status@, 0);
    if is_only_flag(menu.input_display@, 1) {
        a.smash_buttons != b.smash_buttons || sticks_differ(a.smash_sticks, b.smash_sticks)
            || (status_shown && a.status != b.status)
    } else if is_only_flag(menu.input_display@, 2) {
        a.raw_buttons != b.raw_buttons || sticks_differ(a.raw_sticks, b.raw_sticks)
            || (status_shown && a.status != b.status)
    } else if is_only_flag(menu.input_display@, 3) {
        status_shown && a.status != b.status
    } else {
        false
    }
}

fn sticks_differ_now(a: LoggedSticks, b: LoggedSticks) -> (r: bool)
    requires
        binnable(a),
        binnable(b),
    ensures
        r == sticks_differ(a, b),
{
    let (sa, da) = bin_stick_values(a.lx, a.ly);
    let (sb, db) = bin_stick_values(b.lx, b.ly);
    let (ta, ea) = bin_stick_values(a.rx, a.ry);
    let (tb, eb) = bin_stick_values(b.rx, b.ry);
    !(sa == sb && da == db) || !(ta == tb && ea == eb)
}

impl InputLog {
    /// Whether two entries look different in the log (see `log_differs`).
    pub fn is_different(&self, other: &InputLog, menu: &TrainingModpackMenu) -> (r: bool)
        requires
            is_single(menu.input_display@),
            is_single(menu.input_display_status@),
            binnable(self.smash_sticks),
            binnable(self.raw_sticks),
            binnable(other.smash_sticks),
            binnable(other.raw_sticks),
        ensures
            r == log_differs(*self, *other, *menu),
    {
        let status_shown = match choice_if_single(&menu.input_display_status.to_vec()) {
            Some(k) => k == 0,
            None => false,
        };
        match choice_if_single(&menu.input_display.to_vec()) {
            Some(1) => self.smash_buttons != other.smash_buttons || sticks_differ_now(self.smash_sticks, other.smash_sticks)
                || (status_shown && self.status != other.status),
            Some(2) => self.raw_buttons != other.raw_buttons || sticks_differ_now(self.raw_sticks, other.raw_sticks)
                || (status_shown && self.status != other.status),
            Some(3) => status_shown && self.status != other.status,
            _ => false,
        }
    }
}

/// An entry one frame older: its time to live goes down (not below zero).
pub open spec fn decayed(l: InputLog) -> InputLog {
    if l.ttl > 0 { InputLog { ttl: (l.ttl - 1) as u32, ..l } } else { l }
}

/// Every entry one frame older.
pub open spec fn all_decayed(logs: Seq<InputLog>) -> Seq<InputLog> {
    Seq::new(logs.len(), |i: int| decayed(logs[i]))
}

/// What the player inputs this frame, for the log.
#[derive(Clone, Copy, Debug, PartialEq, Eq, Structural)]
pub struct FrameInputs {
    pub smash_buttons: u64,
    pub smash_sticks: LoggedSticks,
    pub raw_buttons: u64,
    pub raw_sticks: LoggedSticks,
    pub status: i32,
    pub fighter_kind: i32,
}

/// The entry for this frame's inputs on overall frame `overall`.
pub open spec fn fresh_log(inputs: FrameInputs, overall: u32) -> InputLog {
    InputLog {
        ttl: 600,
        frames: 1,
        overall_frame: overall,
        smash_buttons: inputs.smash_buttons,
        smash_sticks: inputs.smash_sticks,
        raw_buttons: inputs.raw_buttons,
        raw_sticks: inputs.raw_sticks,
        status: inputs.status,
        fighter_kind: inputs.fighter_kind,
    }
}

/// Logs the first player's inputs of a frame, unless the log is off or the
/// quick menu is open. Both log counters run. On a new overall frame, inputs
/// that look different (see `log_differs`) start a new entry in front (the
/// oldest drops out, the per-entry counter restarts at one and the drawing
/// start moves by one); the same inputs refresh the newest entry, which keeps
/// its time to live and counts its frames (at most 99). Every entry then gets
/// one frame older.
pub fn log_inputs(
    logs: &mut Vec<InputLog>,
    draw_base: &mut usize,
    counters: &mut Vec<FrameCounter>,
    per_log_counter: usize,
    overall_counter: usize,
    menu: &TrainingModpackMenu,
    player_idx: i32,
    quick_menu_active: bool,
    inputs: FrameInputs,
)
    requires
        old(logs)@.len() == NUM_LOGS,
        per_log_counter < old(counters).len(),
        overall_counter < old(counters).len(),
        per_log_counter != overall_counter,
        is_single(menu.input_display@),
        is_single(menu.input_display_status@),
        binnable(inputs.smash_sticks),
        binnable(inputs.raw_sticks),
        forall|i: int| 0 <= i < NUM_LOGS ==> binnable(#[trigger] old(logs)@[i].smash_sticks)
            && binnable(old(logs)@[i].raw_sticks),
    ensures
        final(logs)@.len() == NUM_LOGS,
        forall|i: int| 0 <= i < NUM_LOGS ==> binnable(#[trigger] final(logs)@[i].smash_sticks)
            && binnable(final(logs)@[i].raw_sticks),
        ({
            let pl = per_log_counter as int;
            let ov = overall_counter as int;
            let c0 = old(counters)@;
            let c2 = c0.update(pl, with_counting(c0[pl], true)).update(ov, with_counting(c0[ov], true));
            let current = c0[pl].count;
            let overall = c0[ov].count;
            let fresh = fresh_log(inputs, overall);
            let latest = old(logs)@[0];
            let new_frame = latest.overall_frame != overall;
            let active = !is_only_flag(menu.input_display@, 0) && !quick_menu_active && player_idx == 0;
            &&& !active ==> final(logs)@ == old(logs)@ && *final(draw_base) == *old(draw_base)
                && final(counters)@ == old(counters)@
            &&& active && !new_frame ==> final(logs)@ == old(logs)@ && *final(draw_base) == *old(draw_base)
                && final(counters)@ == c2
            &&& active && new_frame && log_differs(latest, fresh, *menu) ==> {
                &&& final(logs)@ == all_decayed(old(logs)@.subrange(0, 0).push(fresh) + old(logs)@.subrange(0, NUM_LOGS - 1))
                &&& *final(draw_base) == (*old(draw_base) + 1) % (NUM_LOGS as int)
                &&& final(counters)@ == c2.update(pl, with_count(c2[pl], 1))
            }
            &&& active && new_frame && !log_differs(latest, fresh, *menu) ==> {
                let refreshed = InputLog { frames: if current < 99 { current } else { 99 }, ttl: latest.ttl, ..fresh };
                &&& final(logs)@ == all_decayed(old(logs)@.update(0, refreshed))
                &&& *final(draw_base) == *old(draw_base)
                &&& final(counters)@ == c2
            }
        }),
{
    let display_none = match choice_if_single(&menu.input_display.to_vec()) {
        Some(k) => k == 0,
        None => false,
    };
    if display_none || quick_menu_active || player_idx != 0 {
        return;
    }
    let current = get_frame_count(counters, per_log_counter);
    let overall = get_frame_count(counters, overall_counter);
    start_counting(counters, per_log_counter);
    start_counting(counters, overall_counter);
    let fresh = InputLog {
        ttl: 600,
        frames: 1,
        overall_frame: overall,
        smash_buttons: inputs.smash_buttons,
        smash_sticks: inputs.smash_sticks,
        raw_buttons: inputs.raw_buttons,
        raw_sticks: inputs.raw_sticks,
        status: inputs.status,
        fighter_kind: inputs.fighter_kind,
    };
    let latest = logs[0];
    assert(binnable(logs@[0].smash_sticks) && binnable(logs@[0].raw_sticks));
    let new_frame = latest.overall_frame != overall;
    let ghost before = logs@;
    if new_frame && latest.is_different(&fresh, menu) {
        reset_frame_count(counters, per_log_counter);
        tick_idx(counters, per_log_counter);
        insert_in_front(logs.as_mut_slice(), fresh);
        let ghost b = *draw_base as int;
        *draw_base = (*draw_base % NUM_LOGS + 1) % NUM_LOGS;
        proof {
            vstd::arithmetic::div_mod::lemma_add_mod_noop_right(1, b, NUM_LOGS as int);
        }
    } else if new_frame {
        let frames = if current < 99 { current } else { 99 };
        let refreshed = InputLog { frames, ttl: latest.ttl, ..fresh };
        logs.set(0, refreshed);
    }
    if new_frame {
        let ghost mid = logs@;
        let mut i: usize = 0;
        while i < logs.len()
            invariant
                logs@.len() == NUM_LOGS,
                mid.len() == NUM_LOGS,
                i <= NUM_LOGS,
                forall|j: int| 0 <= j < i ==> logs@[j] == decayed(mid[j]),
                forall|j: int| i <= j < NUM_LOGS ==> logs@[j] == mid[j],
            decreases NUM_LOGS - i,
        {
            let mut l = logs[i];
            if l.ttl > 0 {
                l.ttl = l.ttl - 1;
            }
            logs.set(i, l);
            i = i + 1;
        }
        assert(logs@ =~= all_decayed(mid));
    }
}

} // verus!
