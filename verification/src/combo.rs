//! Frame advantage: how many frames earlier the player can act than the CPU
//! after the player's hit or throw connects.
use vstd::prelude::*;
use crate::frame_counter::{
    get_frame_count, reset_frame_count, start_counting, stop_counting, with_count, with_counting,
    FrameCounter,
};
use crate::notifications::{clear_all_notifications, color_notification, Notification};
use crate::resources::ResColor;
use crate::text::{format_signed, signed_decimal};

verus! {

/// What the frame advantage display remembers between frames.
#[derive(Clone, Copy, Debug, PartialEq, Eq, Structural)]
pub struct FrameAdvantageTracker {
    pub player_was_actionable: bool,
    pub cpu_was_actionable: bool,
    pub is_counting: bool,
    /// Index of the player's in-game frame counter.
    pub player_counter: usize,
    /// Index of the CPU's in-game frame counter.
    pub cpu_counter: usize,
}

/// What the game shows about the current frame.
#[derive(Clone, Copy, Debug, PartialEq, Eq, Structural)]
pub struct FrameObservation {
    /// The frame is being processed for the player's fighter (each frame is
    /// seen once per fighter; only the player's pass counts).
    pub is_player_pass: bool,
    /// The CPU is set to mash, which would disturb the measurement.
    pub cpu_mashing: bool,
    pub player_is_actionable: bool,
    pub cpu_is_actionable: bool,
    /// The player's attack is hitting or being shielded, or the player is throwing.
    pub player_connects: bool,
}

impl FrameAdvantageTracker {
    /// The two counters exist in the registry and are different.
    pub open spec fn wf(&self, counters: Seq<FrameCounter>) -> bool {
        &&& self.player_counter < counters.len()
        &&& self.cpu_counter < counters.len()
        &&& self.player_counter != self.cpu_counter
    }
}

/// Both fighters can act and a measurement is running: the advantage is read now.
pub open spec fn measurement_ends(t: FrameAdvantageTracker, o: FrameObservation) -> bool {
    o.player_is_actionable && o.cpu_is_actionable && t.is_counting
}

/// Neither fighter can act and the player's attack connects: a measurement (re)starts.
pub open spec fn measurement_starts(o: FrameObservation) -> bool {
    !o.player_is_actionable && !o.cpu_is_actionable && o.player_connects
}

/// The counter after the "just became actionable" step: stopped when its fighter
/// was not actionable last frame and is now.
pub open spec fn lock_in(c: FrameCounter, was: bool, is: bool) -> FrameCounter {
    if !was && is { with_counting(c, false) } else { c }
}

/// The counter at the end of a frame of the player's pass.
pub open spec fn counter_after_frame(c: FrameCounter, was: bool, is: bool, t: FrameAdvantageTracker, o: FrameObservation) -> FrameCounter {
    let locked = lock_in(c, was, is);
    if measurement_starts(o) {
        with_counting(with_count(locked, 0), true)
    } else if measurement_ends(t, o) {
        with_count(locked, 0)
    } else {
        locked
    }
}

/// Runs the frame advantage logic for one pass of a frame. Returns the frame
/// advantage (CPU frames minus player frames) when a measurement ends.
pub fn once_per_frame(
    tracker: &mut FrameAdvantageTracker,
    counters: &mut Vec<FrameCounter>,
    obs: FrameObservation,
) -> (advantage: Option<i32>)
    requires
        old(tracker).wf(old(counters)@),
        old(counters)@[old(tracker).player_counter as int].count <= i32::MAX,
        old(counters)@[old(tracker).cpu_counter as int].count <= i32::MAX,
    ensures
        final(tracker).wf(final(counters)@),
        final(tracker).player_counter == old(tracker).player_counter,
        final(tracker).cpu_counter == old(tracker).cpu_counter,
        !obs.is_player_pass || obs.cpu_mashing ==> {
            &&& *final(tracker) == *old(tracker)
            &&& final(counters)@ == old(counters)@
            &&& advantage is None
        },
        obs.is_player_pass && !obs.cpu_mashing ==> {
            let t = *old(tracker);
            let p = t.player_counter as int;
            let c = t.cpu_counter as int;
            &&& final(tracker).player_was_actionable == obs.player_is_actionable
            &&& final(tracker).cpu_was_actionable == obs.cpu_is_actionable
            &&& final(tracker).is_counting == if measurement_starts(obs) {
                true
            } else if measurement_ends(t, obs) {
                false
            } else {
                t.is_counting
            }
            &&& advantage == if measurement_ends(t, obs) {
                Some((old(counters)@[c].count - old(counters)@[p].count) as i32)
            } else {
                None::<i32>
            }
            &&& final(counters)@ == old(counters)@
                .update(c, counter_after_frame(old(counters)@[c], t.cpu_was_actionable, obs.cpu_is_actionable, t, obs))
                .update(p, counter_after_frame(old(counters)@[p], t.player_was_actionable, obs.player_is_actionable, t, obs))
        },
{
    if !obs.is_player_pass || obs.cpu_mashing {
        return None;
    }
    let ghost c0 = counters@;
    let p = tracker.player_counter;
    let c = tracker.cpu_counter;
    let player_just_actionable = !tracker.player_was_actionable && obs.player_is_actionable;
    let cpu_just_actionable = !tracker.cpu_was_actionable && obs.cpu_is_actionable;

    if cpu_just_actionable {
        stop_counting(counters, c);
    }
    if player_just_actionable {
        stop_counting(counters, p);
    }
    let mut advantage: Option<i32> = None;
    if !obs.player_is_actionable && !obs.cpu_is_actionable {
        if obs.player_connects {
            reset_frame_count(counters, p);
            reset_frame_count(counters, c);
            start_counting(counters, p);
            start_counting(counters, c);
            tracker.is_counting = true;
        }
    } else if obs.player_is_actionable && obs.cpu_is_actionable {
        if tracker.is_counting {
            let cpu_frames = get_frame_count(counters, c);
            let player_frames = get_frame_count(counters, p);
            advantage = Some(cpu_frames as i32 - player_frames as i32);
            reset_frame_count(counters, p);
            reset_frame_count(counters, c);
            tracker.is_counting = false;
        }
    }
    tracker.cpu_was_actionable = obs.cpu_is_actionable;
    tracker.player_was_actionable = obs.player_is_actionable;
    let ghost t = *old(tracker);
    assert(counters@ =~= c0
        .update(c as int, counter_after_frame(c0[c as int], t.cpu_was_actionable, obs.cpu_is_actionable, t, obs))
        .update(p as int, counter_after_frame(c0[p as int], t.player_was_actionable, obs.player_is_actionable, t, obs)));
    advantage
}

/// Colour of a frame advantage: red when negative, black at zero, green when positive.
pub open spec fn advantage_color(frame_advantage: int) -> ResColor {
    if frame_advantage < 0 {
        ResColor { r: 200, g: 8, b: 8, a: 255 }
    } else if frame_advantage == 0 {
        ResColor { r: 0, g: 0, b: 0, a: 255 }
    } else {
        ResColor { r: 31, g: 198, b: 0, a: 255 }
    }
}

/// Shows a frame advantage when the menu's frame advantage display is on:
/// the queue is cleared (frame advantage has priority) and holds only the
/// notification with header "Frame Advantage", the signed number, one second
/// long, coloured by sign. When the display is off nothing changes.
pub fn update_frame_advantage(queue: &mut Vec<Notification>, frame_advantage: i32, display_on: bool)
    ensures
        !display_on ==> final(queue)@ == old(queue)@,
        display_on ==> {
            &&& final(queue)@.len() == 1
            &&& final(queue)@[0].header@ == "Frame Advantage"@
            &&& final(queue)@[0].message@ == signed_decimal(frame_advantage as int)
            &&& final(queue)@[0].length == 60
            &&& final(queue)@[0].color == advantage_color(frame_advantage as int)
            &&& !final(queue)@[0].has_drawn
        },
{
    if !display_on {
        return;
    }
    clear_all_notifications(queue);
    let color = if frame_advantage < 0 {
        ResColor { r: 200, g: 8, b: 8, a: 255 }
    } else if frame_advantage == 0 {
        ResColor { r: 0, g: 0, b: 0, a: 255 }
    } else {
        ResColor { r: 31, g: 198, b: 0, a: 255 }
    };
    color_notification(queue, "Frame Advantage".to_owned(), format_signed(frame_advantage), 60, color);
}

} // verus!
