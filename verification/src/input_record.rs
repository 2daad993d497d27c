//! Input recording and playback: the recorder's state machine and the
//! recorded inputs of its slots. It decides which slot is recorded or played
//! back, for how long, who controls the CPU, and which inputs the CPU plays.
use vstd::prelude::*;
use crate::flags::{
    choice_if_single, contains_weights, is_only_flag, is_random_pick, is_single, flags_contains, lemma_random_pick_empty_or_single, only_flag,
};
use crate::menu::TrainingModpackMenu;
use crate::notifications::{clear_notifications, color_notification, kept_by_clear, Notification};
use crate::frame_counter::FrameCounter;
use crate::mash::{
    current_buffer, is_playback_action, is_playback_queued, mash_reset, queued_playback_slot, reset, MashState,
    PlaybackStatus,
};
use crate::shield::ShieldState;
use crate::options::RecordTrigger;
use crate::resources::ResColor;

verus! {

/// What the recorder is doing.
#[derive(Clone, Copy, Debug, PartialEq, Eq, Structural)]
pub enum InputRecordState {
    /// Neither recording nor playing back.
    Idle,
    /// Waiting for the recording to begin.
    Pause,
    Record,
    Playback,
}

/// Who controls the CPU.
#[derive(Clone, Copy, Debug, PartialEq, Eq, Structural)]
pub enum PossessionState {
    Player,
    Cpu,
    Lockout,
    Standby,
}

/// Longest recording in frames.
pub const FINAL_RECORD_MAX: usize = 600;
/// Number of recording slots.
pub const TOTAL_SLOT_COUNT: usize = 5;

/// The flick-jump bit of the game's button set.
pub const BUTTON_FLICK_JUMP: u32 = 0x8000;

/// The inputs of one frame as the game maps them: the buttons as a bit set
/// and the two sticks.
#[derive(Clone, Copy, Debug, PartialEq, Eq, Structural)]
pub struct MappedInputs {
    pub buttons: u32,
    pub lstick_x: i8,
    pub lstick_y: i8,
    pub rstick_x: i8,
    pub rstick_y: i8,
}

/// No button and both sticks at rest.
pub open spec fn no_inputs() -> MappedInputs {
    MappedInputs { buttons: 0, lstick_x: 0, lstick_y: 0, rstick_x: 0, rstick_y: 0 }
}

impl MappedInputs {
    /// No button and both sticks at rest.
    pub fn empty() -> (m: MappedInputs)
        ensures
            m == no_inputs(),
    {
        MappedInputs { buttons: 0, lstick_x: 0, lstick_y: 0, rstick_x: 0, rstick_y: 0 }
    }
}

/// A stick value out of the dead zone: the value over 120, clamped to
/// [-1, 1], is 0.2 or more away from rest, which is 24 or more either way.
pub open spec fn stick_moved(v: i8) -> bool {
    v <= -24 || v >= 24
}

/// Inputs without a significant input: no button, or only flick jump (a real
/// stick jump moves the left stick too), and both sticks in the dead zone.
pub open spec fn input_neutral(m: MappedInputs) -> bool {
    &&& (m.buttons == 0 || m.buttons == BUTTON_FLICK_JUMP)
    &&& !stick_moved(m.lstick_x) && !stick_moved(m.lstick_y)
    &&& !stick_moved(m.rstick_x) && !stick_moved(m.rstick_y)
}

/// Whether the inputs have no significant input (see `input_neutral`).
pub fn inputs_neutral(m: &MappedInputs) -> (b: bool)
    ensures
        b == input_neutral(*m),
{
    let buttons_pressed = !(m.buttons == 0 || m.buttons == BUTTON_FLICK_JUMP);
    let lstick_movement = m.lstick_x <= -24 || m.lstick_x >= 24 || m.lstick_y <= -24 || m.lstick_y >= 24;
    let rstick_movement = m.rstick_x <= -24 || m.rstick_x >= 24 || m.rstick_y <= -24 || m.rstick_y >= 24;
    !(lstick_movement || rstick_movement || buttons_pressed)
}

/// An emptied recording slot: every frame without input.
pub open spec fn empty_recording() -> Seq<MappedInputs> {
    Seq::new(FINAL_RECORD_MAX as nat, |i: int| no_inputs())
}

/// An emptied recording slot (see `empty_recording`).
fn empty_recording_vec() -> (v: Vec<MappedInputs>)
    ensures
        v@ == empty_recording(),
{
    let mut v: Vec<MappedInputs> = Vec::new();
    let mut i: usize = 0;
    while i < FINAL_RECORD_MAX
        invariant
            i <= FINAL_RECORD_MAX,
            v@ == Seq::new(i as nat, |j: int| no_inputs()),
        decreases FINAL_RECORD_MAX - i,
    {
        v.push(MappedInputs::empty());
        i = i + 1;
        assert(v@ =~= Seq::new(i as nat, |j: int| no_inputs()));
    }
    v
}

/// The recorder.
pub struct InputRecorder {
    pub input_record: InputRecordState,
    /// Frame of the current recording or playback.
    pub input_record_frame: usize,
    pub possession: PossessionState,
    /// Frames left before a recording may begin.
    pub lockout_frame: usize,
    /// Frames to buffer a playback for.
    pub buffer_frame: usize,
    /// First status of the recording, for hitstun cancels.
    pub starting_status: i32,
    pub current_record_slot: usize,
    pub current_playback_slot: usize,
    /// Length of the current recording or playback.
    pub current_frame_length: usize,
    /// Length of the recording of each slot.
    pub frame_length_mapping: Vec<usize>,
    /// The recorded inputs of each slot, frame by frame.
    pub final_mapping: Vec<Vec<MappedInputs>>,
}

impl InputRecorder {
    /// The recorded inputs of each slot.
    pub open spec fn recordings(&self) -> Seq<Seq<MappedInputs>> {
        self.final_mapping@.map_values(|v: Vec<MappedInputs>| v@)
    }

    /// The slots are the five recording slots of `FINAL_RECORD_MAX` frames, and
    /// the recording lengths and the current frame stay within them.
    pub open spec fn wf(&self) -> bool {
        &&& self.frame_length_mapping@.len() == TOTAL_SLOT_COUNT
        &&& self.current_record_slot < TOTAL_SLOT_COUNT
        &&& self.current_playback_slot < TOTAL_SLOT_COUNT
        &&& self.final_mapping@.len() == TOTAL_SLOT_COUNT
        &&& forall|i: int| 0 <= i < TOTAL_SLOT_COUNT ==> (#[trigger] self.final_mapping@[i])@.len() == FINAL_RECORD_MAX
        &&& forall|i: int| 0 <= i < TOTAL_SLOT_COUNT ==> #[trigger] self.frame_length_mapping@[i] <= FINAL_RECORD_MAX
        &&& self.current_frame_length <= FINAL_RECORD_MAX
        &&& self.input_record_frame < FINAL_RECORD_MAX
    }

    /// A recorder that does nothing, with 60-frame recordings without input in
    /// every slot.
    pub fn new() -> (r: InputRecorder)
        ensures
            r.wf(),
            r.input_record == InputRecordState::Idle,
            r.input_record_frame == 0,
            r.possession == PossessionState::Player,
            r.lockout_frame == 0,
            r.buffer_frame == 0,
            r.starting_status == 0,
            r.current_record_slot == 0,
            r.current_playback_slot == 0,
            r.current_frame_length == 60,
            r.frame_length_mapping@ == seq![60usize, 60, 60, 60, 60],
            r.recordings() == Seq::new(TOTAL_SLOT_COUNT as nat, |i: int| empty_recording()),
    {
        let mut mapping: Vec<Vec<MappedInputs>> = Vec::new();
        let mut i: usize = 0;
        while i < TOTAL_SLOT_COUNT
            invariant
                i <= TOTAL_SLOT_COUNT,
                mapping@.len() == i,
                forall|j: int| 0 <= j < i ==> (#[trigger] mapping@[j])@ == empty_recording(),
            decreases TOTAL_SLOT_COUNT - i,
        {
            mapping.push(empty_recording_vec());
            i = i + 1;
        }
        let r = InputRecorder {
            input_record: InputRecordState::Idle,
            input_record_frame: 0,
            possession: PossessionState::Player,
            lockout_frame: 0,
            buffer_frame: 0,
            starting_status: 0,
            current_record_slot: 0,
            current_playback_slot: 0,
            current_frame_length: 60,
            frame_length_mapping: vec![60, 60, 60, 60, 60],
            final_mapping: mapping,
        };
        assert(r.recordings() =~= Seq::new(TOTAL_SLOT_COUNT as nat, |i: int| empty_recording()));
        r
    }
}

/// Whether frame `frame` of the current record slot has no significant input
/// (see `input_neutral`).
pub fn is_input_neutral(rec: &InputRecorder, frame: usize) -> (b: bool)
    requires
        rec.wf(),
        frame < FINAL_RECORD_MAX,
    ensures
        b == input_neutral(rec.recordings()[rec.current_record_slot as int][frame as int]),
{
    inputs_neutral(&rec.final_mapping[rec.current_record_slot][frame])
}

/// Recording or playing back.
pub fn is_playback(rec: &InputRecorder) -> (b: bool)
    ensures
        b == (rec.input_record == InputRecordState::Record || rec.input_record == InputRecordState::Playback),
{
    rec.input_record == InputRecordState::Record || rec.input_record == InputRecordState::Playback
}

/// Recording.
pub fn is_recording(rec: &InputRecorder) -> (b: bool)
    ensures
        b == (rec.input_record == InputRecordState::Record),
{
    rec.input_record == InputRecordState::Record
}

/// Waiting for the player's first input, or locked out before it.
pub fn is_standby(rec: &InputRecorder) -> (b: bool)
    ensures
        b == (rec.possession == PossessionState::Standby || rec.possession == PossessionState::Lockout),
{
    rec.possession == PossessionState::Standby || rec.possession == PossessionState::Lockout
}

/// What the mash logic needs to know of the recorder.
pub open spec fn status_of(rec: InputRecorder) -> PlaybackStatus {
    PlaybackStatus {
        is_playback: rec.input_record == InputRecordState::Record || rec.input_record == InputRecordState::Playback,
        is_recording: rec.input_record == InputRecordState::Record,
        is_standby: rec.possession == PossessionState::Standby || rec.possession == PossessionState::Lockout,
    }
}

/// What the mash logic needs to know of the recorder (see `status_of`).
pub fn playback_status(rec: &InputRecorder) -> (s: PlaybackStatus)
    ensures
        s == status_of(*rec),
{
    PlaybackStatus { is_playback: is_playback(rec), is_recording: is_recording(rec), is_standby: is_standby(rec) }
}

/// `new` is `old` prepared for a recording into the current record slot with
/// the menu's recording length: the slot's inputs are emptied and its length
/// set, the recorder pauses and the player is locked out for 30 frames.
pub open spec fn locked_out(old: InputRecorder, new: InputRecorder, menu: TrainingModpackMenu) -> bool {
    &&& forall|k: int| is_only_flag(menu.recording_duration@, k) ==> new.current_frame_length == 60 + 30 * k
    &&& new.frame_length_mapping@ == old.frame_length_mapping@.update(old.current_record_slot as int, new.current_frame_length)
    &&& new.recordings() == old.recordings().update(old.current_record_slot as int, empty_recording())
    &&& new.input_record == InputRecordState::Pause
    &&& new.input_record_frame == 0
    &&& new.possession == PossessionState::Lockout
    &&& new.lockout_frame == 30
    &&& new.buffer_frame == 0
    &&& new.starting_status == old.starting_status
    &&& new.current_record_slot == old.current_record_slot
    &&& new.current_playback_slot == old.current_playback_slot
}

/// Prepares a recording into the current record slot with the menu's
/// recording length (see `locked_out`).
pub fn lockout_record(rec: &mut InputRecorder, menu: &TrainingModpackMenu)
    requires
        old(rec).wf(),
        is_single(menu.recording_duration@),
    ensures
        final(rec).wf(),
        locked_out(*old(rec), *final(rec), *menu),
{
    let recording_duration = menu.recording_duration.into_frames();
    proof {
        let k = choose|k: int| is_only_flag(menu.recording_duration@, k);
        assert(is_only_flag(menu.recording_duration@, k));
        assert(menu.recording_duration@.len() == 19);
    }
    let slot = rec.current_record_slot;
    rec.final_mapping.set(slot, empty_recording_vec());
    rec.frame_length_mapping.set(slot, recording_duration);
    rec.current_frame_length = recording_duration;
    rec.input_record = InputRecordState::Pause;
    rec.input_record_frame = 0;
    rec.possession = PossessionState::Lockout;
    rec.lockout_frame = 30;
    rec.buffer_frame = 0;
    assert(rec.recordings() =~= old(rec).recordings().update(slot as int, empty_recording()));
}

/// `new` is `old` after asking to play back `slot`: refused (nothing changes)
/// while a recording is pending or without a slot; otherwise the slot's
/// recording plays from its first frame with the player in control.
pub open spec fn played_back(old: InputRecorder, new: InputRecorder, slot: Option<usize>) -> bool {
    if old.input_record == InputRecordState::Pause || slot is None {
        new == old
    } else {
        &&& new.current_frame_length == old.frame_length_mapping@[slot->0 as int]
        &&& new.current_playback_slot == slot->0
        &&& new.input_record == InputRecordState::Playback
        &&& new.possession == PossessionState::Player
        &&& new.input_record_frame == 0
        &&& new.buffer_frame == 0
        &&& new.lockout_frame == old.lockout_frame
        &&& new.starting_status == old.starting_status
        &&& new.current_record_slot == old.current_record_slot
        &&& new.frame_length_mapping@ == old.frame_length_mapping@
        &&& new.recordings() == old.recordings()
    }
}

/// Starts playing back `slot`; refused (false, nothing changes) while a
/// recording is pending or without a slot.
pub fn playback(rec: &mut InputRecorder, slot: Option<usize>) -> (did: bool)
    requires
        old(rec).wf(),
        slot matches Some(s) ==> s < TOTAL_SLOT_COUNT,
    ensures
        final(rec).wf(),
        did == (old(rec).input_record != InputRecordState::Pause && slot is Some),
        played_back(*old(rec), *final(rec), slot),
{
    if rec.input_record == InputRecordState::Pause {
        return false;
    }
    match slot {
        None => false,
        Some(s) => {
            let frame_length = rec.frame_length_mapping[s];
            rec.current_frame_length = frame_length;
            rec.current_playback_slot = s;
            rec.input_record = InputRecordState::Playback;
            rec.possession = PossessionState::Player;
            rec.input_record_frame = 0;
            rec.buffer_frame = 0;
            true
        },
    }
}

/// Starts a playback from the ledge: the playback is buffered for 5 frames, or
/// 4 while the CPU is still catching the ledge.
pub fn playback_ledge(rec: &mut InputRecorder, slot: Option<usize>, is_cliff_catch: bool)
    requires
        old(rec).wf(),
        slot matches Some(s) ==> s < TOTAL_SLOT_COUNT,
    ensures
        final(rec).wf(),
        !(old(rec).input_record != InputRecordState::Pause && slot is Some) ==> *final(rec) == *old(rec),
        (old(rec).input_record != InputRecordState::Pause && slot is Some) ==> {
            &&& final(rec).input_record == InputRecordState::Playback
            &&& final(rec).current_playback_slot == slot->0
            &&& final(rec).buffer_frame == if is_cliff_catch { 4usize } else { 5usize }
        },
{
    let did_playback = playback(rec, slot);
    if did_playback {
        let mut buffer_frame: usize = 5;
        if is_cliff_catch {
            buffer_frame = buffer_frame - 1;
        }
        rec.buffer_frame = buffer_frame;
    }
}

/// Stops any playback or recording and gives the CPU back to the game.
pub fn stop_playback(rec: &mut InputRecorder)
    ensures
        final(rec).input_record == InputRecordState::Idle,
        final(rec).input_record_frame == 0,
        final(rec).possession == PossessionState::Player,
        final(rec).lockout_frame == old(rec).lockout_frame,
        final(rec).buffer_frame == old(rec).buffer_frame,
        final(rec).starting_status == old(rec).starting_status,
        final(rec).current_record_slot == old(rec).current_record_slot,
        final(rec).current_playback_slot == old(rec).current_playback_slot,
        final(rec).current_frame_length == old(rec).current_frame_length,
        final(rec).frame_length_mapping@ == old(rec).frame_length_mapping@,
        final(rec).final_mapping == old(rec).final_mapping,
{
    rec.input_record = InputRecordState::Idle;
    rec.input_record_frame = 0;
    rec.possession = PossessionState::Player;
}

/// The slot that an option names, if it names exactly one.
pub open spec fn choice_if_single_spec(w: Seq<u8>) -> Option<int> {
    if exists|k: int| is_only_flag(w, k) { Some(choose|k: int| is_only_flag(w, k)) } else { None }
}

/// The recording length after dropping the trailing frames without
/// significant input (see `input_neutral`) from the first `frame` frames.
pub open spec fn cropped_length(inputs: Seq<MappedInputs>, frame: int) -> int
    decreases frame,
{
    if frame > 0 && input_neutral(inputs[frame - 1]) { cropped_length(inputs, frame - 1) } else { frame }
}

/// The recording or playback has reached its last frame.
pub open spec fn at_end(rec: InputRecorder) -> bool {
    (rec.input_record == InputRecordState::Record || rec.input_record == InputRecordState::Playback)
        && rec.input_record_frame >= rec.current_frame_length - 1
}

/// The outcome of `finish_recording`: `r0` before and `r1` after, with the
/// returned `reset_mash`.
pub open spec fn recording_finished(
    r0: InputRecorder,
    r1: InputRecorder,
    menu: TrainingModpackMenu,
    mash_playback_queued: bool,
    reset_mash: bool,
) -> bool {
    &&& !at_end(r0) ==> r1 == r0 && !reset_mash
    &&& at_end(r0) ==> {
        let cropping = r0.input_record == InputRecordState::Record
            && is_only_flag(menu.recording_crop@, 0) && r0.input_record_frame > 0;
        let length = cropped_length(r0.recordings()[r0.current_record_slot as int], r0.input_record_frame as int);
        let looping = is_only_flag(menu.playback_loop@, 0) && r0.input_record == InputRecordState::Playback;
        &&& reset_mash == mash_playback_queued
        &&& r1.input_record_frame == 0
        &&& r1.possession == PossessionState::Player
        &&& r1.current_record_slot == r0.current_record_slot
        &&& r1.recordings() == r0.recordings()
        &&& cropping ==> r1.frame_length_mapping@ == r0.frame_length_mapping@.update(
            r0.current_record_slot as int, length as usize)
        &&& !cropping ==> r1.frame_length_mapping@ == r0.frame_length_mapping@
        &&& looping ==> {
            &&& r1.input_record == InputRecordState::Playback
            &&& r1.current_frame_length == r0.frame_length_mapping@[r0.current_playback_slot as int]
            &&& r1.current_playback_slot == r0.current_playback_slot
            &&& r1.buffer_frame == 0
        }
        &&& !looping ==> {
            &&& r1.input_record == InputRecordState::Idle
            &&& r1.current_frame_length == if cropping { length as usize } else { r0.current_frame_length }
            &&& r1.buffer_frame == r0.buffer_frame
        }
    }
}

/// Ends a recording or playback that reached its last frame. A recording is
/// cropped to its last frame with input when the menu says so; a playback
/// starts over when looping is on. Returns whether the queued mash playback
/// must be dropped.
pub fn finish_recording(rec: &mut InputRecorder, menu: &TrainingModpackMenu, mash_playback_queued: bool) -> (reset_mash: bool)
    requires
        old(rec).wf(),
        (old(rec).input_record == InputRecordState::Record || old(rec).input_record == InputRecordState::Playback)
            ==> old(rec).current_frame_length > 0,
    ensures
        final(rec).wf(),
        recording_finished(*old(rec), *final(rec), *menu, mash_playback_queued, reset_mash),
{
    let input_record = rec.input_record;
    if !((input_record == InputRecordState::Record || input_record == InputRecordState::Playback)
        && rec.input_record_frame >= rec.current_frame_length - 1) {
        return false;
    }
    rec.possession = PossessionState::Player;
    let reset_mash = mash_playback_queued;
    let crop_on = match choice_if_single(&menu.recording_crop.to_vec()) {
        Some(k) => k == 0,
        None => false,
    };
    let ghost frame0 = rec.input_record_frame as int;
    if input_record == InputRecordState::Record && crop_on && rec.input_record_frame > 0 {
        let ghost inputs = rec.recordings()[rec.current_record_slot as int];
        let mut frame = rec.input_record_frame;
        while frame > 0 && is_input_neutral(rec, frame - 1)
            invariant
                rec.wf(),
                inputs == rec.recordings()[rec.current_record_slot as int],
                frame <= frame0,
                frame0 < FINAL_RECORD_MAX,
                cropped_length(inputs, frame as int) == cropped_length(inputs, frame0),
            decreases frame,
        {
            frame = frame - 1;
        }
        rec.current_frame_length = frame;
        let slot = rec.current_record_slot;
        rec.frame_length_mapping.set(slot, frame);
    }
    rec.input_record_frame = 0;
    let loop_on = match choice_if_single(&menu.playback_loop.to_vec()) {
        Some(k) => k == 0,
        None => false,
    };
    if loop_on && input_record == InputRecordState::Playback {
        let playback_slot = rec.current_playback_slot;
        playback(rec, Some(playback_slot));
    } else {
        rec.input_record = InputRecordState::Idle;
    }
    reset_mash
}

/// The colour of a possession notification.
pub open spec fn possession_color(p: PossessionState) -> ResColor {
    match p {
        PossessionState::Lockout => ResColor { r: 8, g: 8, b: 200, a: 255 },
        PossessionState::Standby => ResColor { r: 200, g: 8, b: 200, a: 255 },
        PossessionState::Cpu => ResColor { r: 200, g: 8, b: 8, a: 255 },
        PossessionState::Player => ResColor { r: 0, g: 0, b: 0, a: 255 },
    }
}

/// The outcome of `possession_notification`: queue `q0` before, `q1` after.
pub open spec fn possession_shown(rec: InputRecorder, q0: Seq<Notification>, q1: Seq<Notification>) -> bool {
    let shows = rec.possession != PossessionState::Player || (rec.input_record == InputRecordState::Playback
        && rec.input_record_frame <= 1);
    let cleared = q0.filter(|n: Notification| kept_by_clear(n, "Input Recording"@));
    &&& !shows ==> q1 == q0
    &&& shows ==> {
        &&& q1.len() == cleared.len() + 1
        &&& q1.subrange(0, cleared.len() as int) == cleared
        &&& q1.last().header@ == "Input Recording"@
        &&& q1.last().color == possession_color(rec.possession)
        &&& q1.last().length == if rec.possession == PossessionState::Player {
            rec.current_frame_length as u32
        } else {
            60u32
        }
        &&& q1.last().message@ == match rec.possession {
            PossessionState::Lockout => "Lockout"@,
            PossessionState::Standby => "Standby"@,
            PossessionState::Cpu => "Recording"@,
            PossessionState::Player => "Playback"@,
        }
    }
}

/// Shows who controls the CPU: "Lockout", "Standby" or "Recording" for one
/// second, or "Playback" for the length of the playback on its first frames.
/// The previous "Input Recording" notification is replaced; otherwise the
/// queue is left alone.
pub fn possession_notification(rec: &InputRecorder, queue: &mut Vec<Notification>)
    ensures
        possession_shown(*rec, old(queue)@, final(queue)@),
{
    match rec.possession {
        PossessionState::Lockout => {
            clear_notifications(queue, "Input Recording");
            color_notification(queue, "Input Recording".to_owned(), "Lockout".to_owned(), 60,
                ResColor { r: 8, g: 8, b: 200, a: 255 });
        },
        PossessionState::Standby => {
            clear_notifications(queue, "Input Recording");
            color_notification(queue, "Input Recording".to_owned(), "Standby".to_owned(), 60,
                ResColor { r: 200, g: 8, b: 200, a: 255 });
        },
        PossessionState::Cpu => {
            clear_notifications(queue, "Input Recording");
            color_notification(queue, "Input Recording".to_owned(), "Recording".to_owned(), 60,
                ResColor { r: 200, g: 8, b: 8, a: 255 });
        },
        PossessionState::Player => {
            if rec.input_record == InputRecordState::Playback && rec.input_record_frame <= 1 {
                clear_notifications(queue, "Input Recording");
                color_notification(queue, "Input Recording".to_owned(), "Playback".to_owned(),
                    rec.current_frame_length as u32, ResColor { r: 0, g: 0, b: 0, a: 255 });
            }
        },
    }
}

/// What the recorder did with the player's inputs of a frame.
#[derive(Clone, Copy, Debug, PartialEq, Eq, Structural)]
pub struct RecordInput {
    /// The frame of the record slot that the inputs were stored at.
    pub store_at: Option<usize>,
    /// The CPU's status now is the first status of the recording.
    pub capture_starting_status: bool,
    /// The player's character gets no input this frame.
    pub block_player: bool,
}

/// Handles the player's inputs of a frame: while recording, an input out of
/// standby (the first frame of the record slot, stored on the frames before,
/// has a significant input) starts the recording (the CPU is now recorded),
/// the inputs are stored at the current frame of the record slot and the
/// player's character gets none; during lockout the player's character gets
/// none either.
pub fn record_input(rec: &mut InputRecorder, inputs: MappedInputs) -> (r: RecordInput)
    requires
        old(rec).wf(),
        old(rec).input_record == InputRecordState::Record && old(rec).possession == PossessionState::Standby
            ==> old(rec).input_record_frame + 1 < FINAL_RECORD_MAX,
    ensures
        final(rec).wf(),
        ({
            let recording = old(rec).input_record == InputRecordState::Record;
            let slot = old(rec).current_record_slot as int;
            let first_frame_neutral = input_neutral(old(rec).recordings()[slot][0]);
            let starts = recording && old(rec).possession == PossessionState::Standby && !first_frame_neutral;
            let frame = if starts { old(rec).input_record_frame + 1 } else { old(rec).input_record_frame as int };
            let possession = if starts { PossessionState::Cpu } else { old(rec).possession };
            &&& final(rec).input_record_frame == frame
            &&& final(rec).possession == possession
            &&& r.store_at == if recording { Some(frame as usize) } else { None::<usize> }
            &&& recording ==> final(rec).recordings() == old(rec).recordings().update(slot,
                old(rec).recordings()[slot].update(frame, inputs))
            &&& !recording ==> final(rec).recordings() == old(rec).recordings()
            &&& r.capture_starting_status == (recording && frame == 1)
            &&& r.block_player == (recording || possession == PossessionState::Lockout)
            &&& final(rec).input_record == old(rec).input_record
            &&& final(rec).lockout_frame == old(rec).lockout_frame
            &&& final(rec).buffer_frame == old(rec).buffer_frame
            &&& final(rec).starting_status == old(rec).starting_status
            &&& final(rec).current_record_slot == old(rec).current_record_slot
            &&& final(rec).current_playback_slot == old(rec).current_playback_slot
            &&& final(rec).current_frame_length == old(rec).current_frame_length
            &&& final(rec).frame_length_mapping@ == old(rec).frame_length_mapping@
        }),
{
    let mut r = RecordInput { store_at: None, capture_starting_status: false, block_player: false };
    if rec.input_record == InputRecordState::Record {
        if rec.possession == PossessionState::Standby && !is_input_neutral(rec, 0) {
            rec.input_record_frame = rec.input_record_frame + 1;
            rec.possession = PossessionState::Cpu;
        }
        r.capture_starting_status = rec.input_record_frame == 1;
        let slot = rec.current_record_slot;
        let frame = rec.input_record_frame;
        let ghost before = rec.recordings();
        rec.final_mapping[slot].set(frame, inputs);
        assert(rec.recordings() =~= before.update(slot as int, before[slot as int].update(frame as int, inputs)));
        r.store_at = Some(frame);
        r.block_player = true;
    }
    if rec.possession == PossessionState::Lockout {
        r.block_player = true;
    }
    r
}

/// The outcome of `start_from_combos`: `r0` before and `r1` after.
pub open spec fn combos_applied(
    r0: InputRecorder,
    r1: InputRecorder,
    menu: TrainingModpackMenu,
    playback_combo: bool,
    record_combo: bool,
) -> bool {
    let slot = match choice_if_single_spec(menu.recording_slot@) {
        Some(k) => k as usize,
        None => 0usize,
    };
    let with_slot = InputRecorder { current_record_slot: slot, ..r0 };
    &&& playback_combo ==> exists|pick: Seq<u8>| {
        &&& is_random_pick(pick, menu.playback_button_slots@)
        &&& played_back(with_slot, r1, match choice_if_single_spec(pick) {
            Some(k) => Some(k as usize),
            None => None::<usize>,
        })
    }
    &&& !playback_combo && record_combo && flags_contains(menu.record_trigger@, only_flag(2, 0))
        ==> locked_out(with_slot, r1, menu)
    &&& !playback_combo && !(record_combo && flags_contains(menu.record_trigger@, only_flag(2, 0)))
        ==> r1 == with_slot
}

/// After the button combinations, a recording or playback has a length: a
/// playback only starts on a selected slot of the menu's playback slots, and
/// those have recordings of some length.
proof fn lemma_combos_keep_length(
    r0: InputRecorder,
    r1: InputRecorder,
    menu: TrainingModpackMenu,
    playback_combo: bool,
    record_combo: bool,
)
    requires
        combos_applied(r0, r1, menu, playback_combo, record_combo),
        r0.current_record_slot == (match choice_if_single_spec(menu.recording_slot@) {
            Some(k) => k as usize,
            None => 0usize,
        }),
        (r0.input_record == InputRecordState::Record || r0.input_record == InputRecordState::Playback)
            ==> r0.current_frame_length > 0,
        playback_combo && r0.input_record != InputRecordState::Pause
            ==> forall|k: int| 0 <= k < TOTAL_SLOT_COUNT && menu.playback_button_slots@[k] > 0
            ==> r0.frame_length_mapping@[k] > 0,
        menu.playback_button_slots@.len() == TOTAL_SLOT_COUNT,
    ensures
        (r1.input_record == InputRecordState::Record || r1.input_record == InputRecordState::Playback)
            ==> r1.current_frame_length > 0,
{
    assert(InputRecorder { current_record_slot: r0.current_record_slot, ..r0 } == r0);
    if playback_combo {
        let w = menu.playback_button_slots@;
        let pick = choose|pick: Seq<u8>| {
            &&& is_random_pick(pick, w)
            &&& played_back(r0, r1, match choice_if_single_spec(pick) {
                Some(k) => Some(k as usize),
                None => None::<usize>,
            })
        };
        if r0.input_record != InputRecordState::Pause {
            if let Some(k) = choice_if_single_spec(pick) {
                assert(is_only_flag(pick, k));
                crate::flags::lemma_only_flag_not_empty(pick, k);
                let j = choose|j: int| 0 <= j < w.len() && w[j] > 0 && pick == only_flag(w.len(), j);
                assert(is_only_flag(pick, j));
                crate::flags::lemma_only_flag_unique(pick, j, k);
            }
        }
    }
}

/// The player's buttons of a recording frame: the record slot follows the
/// menu; the playback combination plays back a random slot of the menu's
/// playback slots; otherwise the record combination, when the menu makes it a
/// record trigger, prepares a recording.
pub fn start_from_combos(rec: &mut InputRecorder, menu: &TrainingModpackMenu, playback_combo: bool, record_combo: bool)
    requires
        old(rec).wf(),
        !playback_combo && record_combo && flags_contains(menu.record_trigger@, only_flag(2, 0))
            ==> is_single(menu.recording_duration@),
    ensures
        final(rec).wf(),
        combos_applied(*old(rec), *final(rec), *menu, playback_combo, record_combo),
{
    let slot = match menu.recording_slot.into_idx() {
        Some(k) => k,
        None => 0,
    };
    proof {
        if let Some(k) = choice_if_single_spec(menu.recording_slot@) {
            assert(is_only_flag(menu.recording_slot@, k));
        }
    }
    rec.current_record_slot = slot;
    if playback_combo {
        let pick = menu.playback_button_slots.get_random();
        proof {
            lemma_random_pick_empty_or_single(pick@, menu.playback_button_slots@);
        }
        let chosen = pick.into_idx();
        proof {
            if let Some(k) = choice_if_single_spec(pick@) {
                assert(is_only_flag(pick@, k));
            }
        }
        playback(rec, chosen);
    } else if contains_weights(&menu.record_trigger.to_vec(), &RecordTrigger::COMMAND().to_vec()) && record_combo {
        lockout_record(rec, menu);
    }
}

/// What the game shows about the CPU when a queued playback may begin.
#[derive(Clone, Copy, Debug, PartialEq, Eq, Structural)]
pub struct PlaybackTiming {
    pub in_hitstun: bool,
    pub in_shieldstun: bool,
    /// The CPU is in hitstop.
    pub is_stop: bool,
    /// The CPU may take the action the recording starts with.
    pub can_transition: bool,
}

/// A queued playback begins now: in hitstun as soon as hitstop begins, as
/// soon as it ends, or as soon as the CPU can act (as the menu says); in
/// shieldstun and elsewhere as soon as the CPU can act.
pub open spec fn playback_begins(menu: TrainingModpackMenu, t: PlaybackTiming) -> bool {
    if t.in_hitstun {
        ||| is_only_flag(menu.hitstun_playback@, 2)
        ||| is_only_flag(menu.hitstun_playback@, 1) && !t.is_stop
        ||| is_only_flag(menu.hitstun_playback@, 0) && t.can_transition
    } else {
        t.can_transition
    }
}

/// Starts a playback that the mash logic queued, when its timing has come and
/// nothing is being recorded or played back.
pub fn should_mash_playback(rec: &mut InputRecorder, mash: &MashState, menu: &TrainingModpackMenu, timing: PlaybackTiming)
    requires
        old(rec).wf(),
    ensures
        final(rec).wf(),
        ({
            let starts = old(rec).input_record != InputRecordState::Record
                && is_playback_action(current_buffer(mash.queue@))
                && old(rec).input_record != InputRecordState::Playback
                && playback_begins(*menu, timing);
            &&& !starts ==> *final(rec) == *old(rec)
            &&& starts ==> exists|k: int| 25 <= k <= 29 && is_only_flag(current_buffer(mash.queue@), k)
                && played_back(*old(rec), *final(rec), Some((k - 25) as usize))
        }),
{
    if is_recording(rec) {
        return;
    }
    if !is_playback_queued(mash) {
        return;
    }
    if is_playback(rec) {
        return;
    }
    let mode = match choice_if_single(&menu.hitstun_playback.to_vec()) {
        Some(k) => k,
        None => 3,
    };
    let mut should_playback = false;
    if timing.in_hitstun {
        if mode == 2 {
            should_playback = true;
        }
        if mode == 1 && !timing.is_stop {
            should_playback = true;
        }
        if mode == 0 && timing.can_transition {
            should_playback = true;
        }
    } else if timing.in_shieldstun {
        if timing.can_transition {
            should_playback = true;
        }
    } else if timing.can_transition {
        should_playback = true;
    }
    if should_playback {
        let slot = queued_playback_slot(mash);
        playback(rec, Some(slot));
    }
}

/// The recorded frame that the CPU plays this frame.
#[derive(Clone, Copy, Debug, PartialEq, Eq, Structural)]
pub struct ReplayFrame {
    /// The slot of the recording.
    pub slot: usize,
    /// The frame of the recording.
    pub frame: usize,
    /// The buffered option is already in: the CPU gets no input this frame,
    /// so that later inputs act as fresh presses.
    pub blank: bool,
    /// The inputs the CPU plays: the recorded frame, or none when `blank`.
    pub inputs: MappedInputs,
}

/// The recorder after the lockout step of a frame: the lockout counts down,
/// and when it is over the recording waits for the player's first input.
pub open spec fn after_lockout(a: InputRecorder) -> InputRecorder {
    if a.input_record == InputRecordState::Pause {
        if a.lockout_frame > 0 {
            InputRecorder { lockout_frame: (a.lockout_frame - 1) as usize, ..a }
        } else {
            InputRecorder { input_record: InputRecordState::Record, possession: PossessionState::Standby, ..a }
        }
    } else {
        a
    }
}

/// The recorder after `k` frames of the lockout step.
pub open spec fn lockout_steps(a: InputRecorder, k: nat) -> InputRecorder
    decreases k,
{
    if k == 0 { a } else { after_lockout(lockout_steps(a, (k - 1) as nat)) }
}

/// A lockout of `n` frames holds the recorder paused for `n` frames, the
/// lockout counting down by one each frame.
pub proof fn lemma_lockout_counts_down(a: InputRecorder, k: nat)
    requires
        a.input_record == InputRecordState::Pause,
        k <= a.lockout_frame,
    ensures
        lockout_steps(a, k).input_record == InputRecordState::Pause,
        lockout_steps(a, k).lockout_frame == a.lockout_frame - k,
        lockout_steps(a, k).possession == a.possession,
    decreases k,
{
    if k > 0 {
        lemma_lockout_counts_down(a, (k - 1) as nat);
    }
}

/// After a lockout of `n` frames, the next frame starts the recording, which
/// waits for the player's first input.
pub proof fn lemma_lockout_ends(a: InputRecorder)
    requires
        a.input_record == InputRecordState::Pause,
    ensures
        lockout_steps(a, (a.lockout_frame + 1) as nat).input_record == InputRecordState::Record,
        lockout_steps(a, (a.lockout_frame + 1) as nat).possession == PossessionState::Standby,
{
    lemma_lockout_counts_down(a, a.lockout_frame as nat);
}

/// One frame of the CPU's controls from the recorder `a` (after a queued
/// playback may have started): a recording or playback plays its current
/// frame, then stays on a buffered option while one is buffered, else moves
/// to the next frame unless it is at its last frame or waits for the
/// player's first input.
pub open spec fn controls_step(a: InputRecorder, b: InputRecorder, r: Option<ReplayFrame>) -> bool {
    let p = after_lockout(a);
    if p.input_record == InputRecordState::Record || p.input_record == InputRecordState::Playback {
        let slot = if p.input_record == InputRecordState::Record { p.current_record_slot } else { p.current_playback_slot };
        let blank = 0 < p.buffer_frame <= 3;
        &&& r == Some(ReplayFrame {
            slot,
            frame: p.input_record_frame,
            blank,
            inputs: if blank { no_inputs() } else { p.recordings()[slot as int][p.input_record_frame as int] },
        })
        &&& b == if p.buffer_frame > 0 {
            InputRecorder { buffer_frame: (p.buffer_frame - 1) as usize, ..p }
        } else if p.input_record_frame < p.current_frame_length - 1 && p.possession != PossessionState::Standby {
            InputRecorder { input_record_frame: (p.input_record_frame + 1) as usize, ..p }
        } else {
            p
        }
    } else {
        r is None && b == p
    }
}

/// The CPU's controls of a frame: an idle recorder first starts a queued
/// mash playback when its timing has come (see `should_mash_playback`); then
/// the recorder takes its step (see `controls_step`) and the frame to play
/// is returned.
pub fn set_cpu_controls(rec: &mut InputRecorder, mash: &MashState, menu: &TrainingModpackMenu, timing: PlaybackTiming) -> (r: Option<ReplayFrame>)
    requires
        old(rec).wf(),
        old(rec).input_record == InputRecordState::Record || old(rec).input_record == InputRecordState::Playback
            || (old(rec).input_record == InputRecordState::Pause && old(rec).lockout_frame == 0)
            ==> old(rec).current_frame_length > 0,
        old(rec).input_record == InputRecordState::Idle && playback_begins(*menu, timing)
            ==> forall|k: int| 25 <= k <= 29 && is_only_flag(current_buffer(mash.queue@), k)
            ==> old(rec).frame_length_mapping@[k - 25] > 0,
    ensures
        final(rec).wf(),
        old(rec).input_record != InputRecordState::Idle ==> controls_step(*old(rec), *final(rec), r),
        old(rec).input_record == InputRecordState::Idle ==> {
            ||| controls_step(*old(rec), *final(rec), r)
            ||| exists|k: int| 25 <= k <= 29 && is_only_flag(current_buffer(mash.queue@), k) && playback_begins(*menu, timing)
                && exists|mid: InputRecorder| #[trigger] played_back(*old(rec), mid, Some((k - 25) as usize))
                && controls_step(mid, *final(rec), r)
        },
{
    let ghost start = *rec;
    if rec.input_record == InputRecordState::Idle {
        should_mash_playback(rec, mash, menu, timing);
    }
    let ghost mid = *rec;
    proof {
        if start.input_record == InputRecordState::Idle && mid != start {
            let k = choose|k: int| 25 <= k <= 29 && is_only_flag(current_buffer(mash.queue@), k)
                && played_back(start, mid, Some((k - 25) as usize));
            assert(mid.current_frame_length == start.frame_length_mapping@[k - 25]);
        }
    }
    if rec.input_record == InputRecordState::Pause {
        if rec.lockout_frame > 0 {
            rec.lockout_frame = rec.lockout_frame - 1;
        } else {
            rec.input_record = InputRecordState::Record;
            rec.possession = PossessionState::Standby;
        }
    }
    let ghost p = *rec;
    assert(p == after_lockout(mid));
    let state = rec.input_record;
    if !(state == InputRecordState::Record || state == InputRecordState::Playback) {
        return None;
    }
    assert(rec.current_frame_length > 0);
    let slot = if state == InputRecordState::Record { rec.current_record_slot } else { rec.current_playback_slot };
    let frame = rec.input_record_frame;
    let blank = 0 < rec.buffer_frame && rec.buffer_frame <= 3;
    let inputs = if blank { MappedInputs::empty() } else { rec.final_mapping[slot][frame] };
    if rec.buffer_frame > 0 {
        rec.buffer_frame = rec.buffer_frame - 1;
    } else if rec.input_record_frame < rec.current_frame_length - 1 && rec.possession != PossessionState::Standby {
        rec.input_record_frame = rec.input_record_frame + 1;
    }
    Some(ReplayFrame { slot, frame, blank, inputs })
}

/// The colour that the CPU's model is blended with while the recorder holds it.
#[derive(Clone, Copy, Debug, PartialEq, Eq, Structural)]
pub enum PossessionTint {
    /// Blue: locked out before a recording.
    Lockout,
    /// Magenta: waiting for the player's first input.
    Standby,
    /// Red: recording.
    Recording,
}

/// The tint of a possession state, if it has one.
pub open spec fn possession_tint(p: PossessionState) -> Option<PossessionTint> {
    match p {
        PossessionState::Lockout => Some(PossessionTint::Lockout),
        PossessionState::Standby => Some(PossessionTint::Standby),
        PossessionState::Cpu => Some(PossessionTint::Recording),
        PossessionState::Player => None,
    }
}

/// Which fighter the recording logic runs for.
#[derive(Clone, Copy, Debug, PartialEq, Eq, Structural)]
pub struct RecordingFighter {
    /// The first player.
    pub is_player: bool,
    /// The CPU.
    pub is_cpu: bool,
    /// Nana, who follows Popo and takes no recording inputs of her own.
    pub is_nana: bool,
}

/// The outcome of `handle_recording_for_fighter`, through the recorder `r2`
/// after the button combinations, the queue `q1` before the possession is
/// shown, and whether the queued mash playback was dropped.
pub open spec fn recorded_for_fighter(
    rec0: InputRecorder,
    rec3: InputRecorder,
    m0: MashState,
    m1: MashState,
    s0: ShieldState,
    s1: ShieldState,
    c0: Seq<FrameCounter>,
    c1: Seq<FrameCounter>,
    q0: Seq<Notification>,
    q3: Seq<Notification>,
    menu: TrainingModpackMenu,
    fighter: RecordingFighter,
    playback_combo: bool,
    record_combo: bool,
    tint: Option<PossessionTint>,
    r2: InputRecorder,
    q1: Seq<Notification>,
    reset_mash: bool,
) -> bool {
    let slot = match choice_if_single_spec(menu.recording_slot@) {
        Some(k) => k as usize,
        None => 0usize,
    };
    let rec1 = InputRecorder { current_record_slot: slot, ..rec0 };
    let player_side = fighter.is_player && !fighter.is_nana;
    let unchanged_mash = m1 == m0 && s1 == s0 && c1 == c0;
    &&& player_side ==> {
        &&& combos_applied(rec0, r2, menu, playback_combo, record_combo)
        &&& q1 == if r2.input_record == InputRecordState::Idle {
            q0.filter(|n: Notification| kept_by_clear(n, "Input Recording"@))
        } else {
            q0
        }
        &&& recording_finished(r2, rec3, menu, is_playback_action(current_buffer(m0.queue@)), reset_mash)
        &&& reset_mash ==> mash_reset(m0, m1, s0, s1, c0, c1)
        &&& !reset_mash ==> unchanged_mash
    }
    &&& !player_side ==> rec3 == rec1 && q1 == q0 && unchanged_mash
    &&& fighter.is_cpu ==> possession_shown(rec3, q1, q3) && tint == possession_tint(rec3.possession)
    &&& !fighter.is_cpu ==> q3 == q1 && tint is None
}

/// The recording logic of a frame for one fighter. The record slot follows
/// the menu. For the player (not Nana): the button combinations start a
/// playback or a recording (see `start_from_combos`), an idle recorder drops
/// its notification, and a recording or playback at its end is finished (see
/// `finish_recording`), dropping the queued mash playback. For the CPU: who
/// controls it is shown (see `possession_notification`) and the tint of its
/// model is returned.
pub fn handle_recording_for_fighter(
    rec: &mut InputRecorder,
    mash: &mut MashState,
    shield: &mut ShieldState,
    counters: &mut Vec<FrameCounter>,
    queue: &mut Vec<Notification>,
    menu: &TrainingModpackMenu,
    fighter: RecordingFighter,
    playback_combo: bool,
    record_combo: bool,
) -> (tint: Option<PossessionTint>)
    requires
        old(rec).wf(),
        fighter.is_player && !fighter.is_nana && !playback_combo && record_combo
            && flags_contains(menu.record_trigger@, only_flag(2, 0)) ==> is_single(menu.recording_duration@),
        old(mash).aerial_delay_counter < old(counters).len(),
        fighter.is_player && !fighter.is_nana && playback_combo && old(rec).input_record != InputRecordState::Pause
            ==> forall|k: int| 0 <= k < TOTAL_SLOT_COUNT && menu.playback_button_slots@[k] > 0
            ==> old(rec).frame_length_mapping@[k] > 0,
        (old(rec).input_record == InputRecordState::Record || old(rec).input_record == InputRecordState::Playback)
            ==> old(rec).current_frame_length > 0,
    ensures
        final(rec).wf(),
        final(mash).aerial_delay_counter == old(mash).aerial_delay_counter,
        final(counters)@.len() == old(counters)@.len(),
        exists|r2: InputRecorder, q1: Seq<Notification>, reset_mash: bool| #[trigger] recorded_for_fighter(
            *old(rec), *final(rec), *old(mash), *final(mash), *old(shield), *final(shield), old(counters)@,
            final(counters)@, old(queue)@, final(queue)@, *menu, fighter, playback_combo, record_combo,
            tint, r2, q1, reset_mash),
{
    let slot = match menu.recording_slot.into_idx() {
        Some(k) => k,
        None => 0,
    };
    proof {
        if let Some(k) = choice_if_single_spec(menu.recording_slot@) {
            assert(is_only_flag(menu.recording_slot@, k));
        }
    }
    rec.current_record_slot = slot;
    let ghost mut r2 = *rec;
    let ghost mut reset_mash = false;
    if fighter.is_player && !fighter.is_nana {
        let ghost before = *rec;
        start_from_combos(rec, menu, playback_combo, record_combo);
        proof {
            r2 = *rec;
            lemma_combos_keep_length(before, r2, *menu, playback_combo, record_combo);
        }
        if rec.input_record == InputRecordState::Idle {
            clear_notifications(queue, "Input Recording");
        }
        let queued = is_playback_queued(mash);
        let reset_now = finish_recording(rec, menu, queued);
        proof {
            reset_mash = reset_now;
        }
        if reset_now {
            reset(mash, shield, counters);
        }
    }
    let ghost q1 = queue@;
    let tint = if fighter.is_cpu {
        possession_notification(rec, queue);
        match rec.possession {
            PossessionState::Lockout => Some(PossessionTint::Lockout),
            PossessionState::Standby => Some(PossessionTint::Standby),
            PossessionState::Cpu => Some(PossessionTint::Recording),
            PossessionState::Player => None,
        }
    } else {
        None
    };
    assert(fighter.is_player && !fighter.is_nana ==> combos_applied(*old(rec), r2, *menu, playback_combo, record_combo));
    assert(recorded_for_fighter(*old(rec), *rec, *old(mash), *mash, *old(shield), *shield, old(counters)@,
        counters@, old(queue)@, queue@, *menu, fighter, playback_combo, record_combo,
        tint, r2, q1, reset_mash));
    tint
}

} // verus!
