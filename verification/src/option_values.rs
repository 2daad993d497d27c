//! What the menu options mean: frame counts, indices, slots and defaults.
use vstd::prelude::*;
use crate::flags::{
    choice_if_single, empty_or_single, flags_left_intersection, is_only_flag, is_single, no_flags, only_flag, single_choice, the_choice,
};
use crate::options::{
    Action, BoolFlag, BuffOption, CharacterItem, ClatterFrequency, DamagePercent, Delay,
    Direction, LedgeOption, Locale, LongDelay, MashTrigger, MedDelay, OnOff, PlaybackSlot,
    RecordSlot, RecordingDuration, SaveStateSlot, SdiFrequency, UpdatePolicy,
};

verus! {

/// Position of a direction around the circle, "Out" being 1 and "Down Out" 8;
/// "Neutral" is 0, "Left" equals "In" and "Right" equals "Out".
pub open spec fn direction_index(k: int) -> u32 {
    if k == 0 { 1 } else if k == 1 { 2 } else if k == 2 { 3 } else if k == 3 { 4 }
    else if k == 4 { 5 } else if k == 5 { 6 } else if k == 6 { 7 } else if k == 7 { 8 }
    else if k == 8 { 0 } else if k == 9 { 5 } else { 1 }
}

/// The angle that a position around the circle points at, in degrees
/// counter-clockwise from "Out": an eighth of a turn per position from 1;
/// none for 0.
pub open spec fn index_degrees(i: u32) -> Option<int> {
    if i == 0 { None } else { Some((i - 1) * 45) }
}

/// The positions of the directions around the circle: each compass direction
/// is one eighth of a turn after the one before it, the direction opposite
/// another is half a turn (four positions) from it, and the angle of each
/// direction is the one its name says: "Out" 0, "Up" 90, "In" 180 and "Down"
/// 270 degrees; "Left" is "In", "Right" is "Out", and "Neutral" has no angle.
pub proof fn lemma_direction_circle(k: int)
    requires
        0 <= k < Direction::choices(),
    ensures
        k < 7 ==> direction_index(k + 1) == direction_index(k) + 1,
        k < 4 ==> direction_index(k + 4) == direction_index(k) + 4,
        Direction::spec_names()[k] == "Out"@ ==> index_degrees(direction_index(k)) == Some(0int),
        Direction::spec_names()[k] == "Up"@ ==> index_degrees(direction_index(k)) == Some(90int),
        Direction::spec_names()[k] == "In"@ ==> index_degrees(direction_index(k)) == Some(180int),
        Direction::spec_names()[k] == "Down"@ ==> index_degrees(direction_index(k)) == Some(270int),
        Direction::spec_names()[k] == "Left"@ ==> index_degrees(direction_index(k)) == Some(180int),
        Direction::spec_names()[k] == "Right"@ ==> index_degrees(direction_index(k)) == Some(0int),
        Direction::spec_names()[k] == "Neutral"@ ==> index_degrees(direction_index(k)) is None,
{
    reveal_strlit("Out");
    reveal_strlit("Up Out");
    reveal_strlit("Up");
    reveal_strlit("Up In");
    reveal_strlit("In");
    reveal_strlit("Down In");
    reveal_strlit("Down");
    reveal_strlit("Down Out");
    reveal_strlit("Neutral");
    reveal_strlit("Left");
    reveal_strlit("Right");
    let names = Direction::spec_names();
    if k < 7 {
        assert(direction_index(k + 1) == direction_index(k) + 1);
    }
    if k < 4 {
        assert(direction_index(k + 4) == direction_index(k) + 4);
    }
    if k == 0 {
        assert(names[k] == "Out"@);
        assert(names[k].len() != "Up"@.len());
        assert(names[k].len() != "In"@.len());
        assert(names[k].len() != "Down"@.len());
        assert(names[k].len() != "Left"@.len());
        assert(names[k].len() != "Right"@.len());
        assert(names[k].len() != "Neutral"@.len());
    } else if k == 1 {
        assert(names[k] == "Up Out"@);
        assert(names[k].len() != "Out"@.len());
        assert(names[k].len() != "Up"@.len());
        assert(names[k].len() != "In"@.len());
        assert(names[k].len() != "Down"@.len());
        assert(names[k].len() != "Left"@.len());
        assert(names[k].len() != "Right"@.len());
        assert(names[k].len() != "Neutral"@.len());
    } else if k == 2 {
        assert(names[k] == "Up"@);
        assert(names[k].len() != "Out"@.len());
        assert(names[k][0] != "In"@[0]);
        assert(names[k].len() != "Down"@.len());
        assert(names[k].len() != "Left"@.len());
        assert(names[k].len() != "Right"@.len());
        assert(names[k].len() != "Neutral"@.len());
    } else if k == 3 {
        assert(names[k] == "Up In"@);
        assert(names[k].len() != "Out"@.len());
        assert(names[k].len() != "Up"@.len());
        assert(names[k].len() != "In"@.len());
        assert(names[k].len() != "Down"@.len());
        assert(names[k].len() != "Left"@.len());
        assert(names[k][0] != "Right"@[0]);
        assert(names[k].len() != "Neutral"@.len());
    } else if k == 4 {
        assert(names[k] == "In"@);
        assert(names[k].len() != "Out"@.len());
        assert(names[k][0] != "Up"@[0]);
        assert(names[k].len() != "Down"@.len());
        assert(names[k].len() != "Left"@.len());
        assert(names[k].len() != "Right"@.len());
        assert(names[k].len() != "Neutral"@.len());
    } else if k == 5 {
        assert(names[k] == "Down In"@);
        assert(names[k].len() != "Out"@.len());
        assert(names[k].len() != "Up"@.len());
        assert(names[k].len() != "In"@.len());
        assert(names[k].len() != "Down"@.len());
        assert(names[k].len() != "Left"@.len());
        assert(names[k].len() != "Right"@.len());
        assert(names[k][0] != "Neutral"@[0]);
    } else if k == 6 {
        assert(names[k] == "Down"@);
        assert(names[k].len() != "Out"@.len());
        assert(names[k].len() != "Up"@.len());
        assert(names[k].len() != "In"@.len());
        assert(names[k][0] != "Left"@[0]);
        assert(names[k].len() != "Right"@.len());
        assert(names[k].len() != "Neutral"@.len());
    } else if k == 7 {
        assert(names[k] == "Down Out"@);
        assert(names[k].len() != "Out"@.len());
        assert(names[k].len() != "Up"@.len());
        assert(names[k].len() != "In"@.len());
        assert(names[k].len() != "Down"@.len());
        assert(names[k].len() != "Left"@.len());
        assert(names[k].len() != "Right"@.len());
        assert(names[k].len() != "Neutral"@.len());
    } else if k == 8 {
        assert(names[k] == "Neutral"@);
        assert(names[k].len() != "Out"@.len());
        assert(names[k].len() != "Up"@.len());
        assert(names[k].len() != "In"@.len());
        assert(names[k].len() != "Down"@.len());
        assert(names[k].len() != "Left"@.len());
        assert(names[k].len() != "Right"@.len());
    } else if k == 9 {
        assert(names[k] == "Left"@);
        assert(names[k].len() != "Out"@.len());
        assert(names[k].len() != "Up"@.len());
        assert(names[k].len() != "In"@.len());
        assert(names[k][0] != "Down"@[0]);
        assert(names[k].len() != "Right"@.len());
        assert(names[k].len() != "Neutral"@.len());
    } else {
        assert(names[k] == "Right"@);
        assert(names[k].len() != "Out"@.len());
        assert(names[k].len() != "Up"@.len());
        assert(names[k].len() != "In"@.len());
        assert(names[k].len() != "Down"@.len());
        assert(names[k].len() != "Left"@.len());
        assert(names[k].len() != "Neutral"@.len());
    }
}

impl Direction {
    /// Position of the direction around the circle (see `direction_index`);
    /// 0 when no direction is selected.
    pub fn into_index(self) -> (i: u32)
        requires
            empty_or_single(self@),
        ensures
            no_flags(self@) ==> i == 0,
            forall|k: int| is_only_flag(self@, k) ==> i == direction_index(k),
    {
        match single_choice(&self.to_vec()) {
            None => 0,
            Some(k) => match k {
                0 => 1,
                1 => 2,
                2 => 3,
                3 => 4,
                4 => 5,
                5 => 6,
                6 => 7,
                7 => 8,
                8 => 0,
                9 => 5,
                _ => 1,
            },
        }
    }
}

impl LedgeOption {
    /// Whether the option is exactly one of the playback slots.
    pub fn is_playback(self) -> (b: bool)
        ensures
            b == exists|k: int| 5 <= k <= 9 && is_only_flag(self@, k),
    {
        match choice_if_single(&self.to_vec()) {
            Some(k) => 5 <= k && k <= 9,
            None => false,
        }
    }

    /// The playback slot (0 to 4) that the option is, if it is one.
    pub fn playback_slot(self) -> (r: Option<usize>)
        ensures
            match r {
                Some(s) => s < 5 && is_only_flag(self@, s + 5),
                None => forall|k: int| 5 <= k <= 9 ==> !is_only_flag(self@, k),
            },
    {
        match choice_if_single(&self.to_vec()) {
            Some(k) => if 5 <= k && k <= 9 { Some(k - 5) } else { None },
            None => None,
        }
    }

    /// Neutral getup, roll, jump and getup attack; not waiting or playback.
    pub fn default() -> (r: LedgeOption)
        ensures
            r@ == seq![1u8, 1, 1, 1, 0, 0, 0, 0, 0, 0],
    {
        let r = LedgeOption {
            NEUTRAL: 1,
            ROLL: 1,
            JUMP: 1,
            ATTACK: 1,
            WAIT: 0,
            PLAYBACK_1: 0,
            PLAYBACK_2: 0,
            PLAYBACK_3: 0,
            PLAYBACK_4: 0,
            PLAYBACK_5: 0,
        };
        assert(r@ =~= seq![1u8, 1, 1, 1, 0, 0, 0, 0, 0, 0]);
        r
    }
}

impl OnOff {
    /// `ON` for 1, `OFF` for 0, nothing otherwise.
    pub fn from_val(val: u32) -> (r: Option<OnOff>)
        ensures
            val == 1 ==> (r matches Some(o) && is_only_flag(o@, 0)),
            val == 0 ==> (r matches Some(o) && is_only_flag(o@, 1)),
            val > 1 ==> r is None,
    {
        match val {
            1 => Some(OnOff::ON()),
            0 => Some(OnOff::OFF()),
            _ => None,
        }
    }

    /// True for `ON`, false for `OFF`.
    pub fn as_bool(self) -> (b: bool)
        requires
            is_single(self@),
        ensures
            b == is_only_flag(self@, 0),
    {
        the_choice(&self.to_vec()) == 0
    }
}

impl Action {
    /// Whether the action is exactly one of the playback slots.
    pub fn is_playback(self) -> (b: bool)
        ensures
            b == exists|k: int| 25 <= k <= 29 && is_only_flag(self@, k),
    {
        match choice_if_single(&self.to_vec()) {
            Some(k) => 25 <= k && k <= 29,
            None => false,
        }
    }

    /// The playback slot (0 to 4) that the action is.
    pub fn playback_slot(self) -> (s: usize)
        requires
            exists|k: int| 25 <= k <= 29 && is_only_flag(self@, k),
        ensures
            s < 5,
            is_only_flag(self@, s + 25),
    {
        let k = the_choice(&self.to_vec());
        k - 25
    }
}

impl Delay {
    /// The delay in frames; 0 when nothing is selected.
    pub fn into_delay(&self) -> (d: u32)
        requires
            empty_or_single(self@),
        ensures
            no_flags(self@) ==> d == 0,
            forall|k: int| is_only_flag(self@, k) ==> d == k,
    {
        match single_choice(&self.to_vec()) {
            None => 0,
            Some(k) => k as u32,
        }
    }
}

impl MedDelay {
    /// The delay in frames; 0 when nothing is selected.
    pub fn into_meddelay(&self) -> (d: u32)
        requires
            empty_or_single(self@),
        ensures
            no_flags(self@) ==> d == 0,
            forall|k: int| is_only_flag(self@, k) ==> d == 5 * k,
    {
        match single_choice(&self.to_vec()) {
            None => 0,
            Some(k) => 5 * (k as u32),
        }
    }
}

impl LongDelay {
    /// The delay in frames; 0 when nothing is selected.
    pub fn into_longdelay(&self) -> (d: u32)
        requires
            empty_or_single(self@),
        ensures
            no_flags(self@) ==> d == 0,
            forall|k: int| is_only_flag(self@, k) ==> d == 10 * k,
    {
        match single_choice(&self.to_vec()) {
            None => 0,
            Some(k) => 10 * (k as u32),
        }
    }
}

/// The choices of a buff option that belong to Hero.
pub open spec fn hero_buff_choices() -> Seq<u8> {
    Seq::new(18, |i: int| if 0 <= i < 4 { 1u8 } else { 0u8 })
}

/// The choices of a buff option that belong to Shulk.
pub open spec fn shulk_buff_choices() -> Seq<u8> {
    Seq::new(18, |i: int| if 9 <= i < 14 { 1u8 } else { 0u8 })
}

/// The choices of a buff option that belong to Wario.
pub open spec fn wario_buff_choices() -> Seq<u8> {
    Seq::new(18, |i: int| if 15 <= i < 18 { 1u8 } else { 0u8 })
}

impl BuffOption {
    /// Only Hero's selected buffs.
    pub fn hero_buffs(self) -> (r: BuffOption)
        ensures
            r@ == flags_left_intersection(self@, hero_buff_choices()),
    {
        let hero = BuffOption::ACCELERATLE().union(BuffOption::OOMPH()).union(BuffOption::BOUNCE()).union(
            BuffOption::PSYCHE(),
        );
        assert(hero@ =~= hero_buff_choices());
        self.left_intersection(hero)
    }

    /// Only Shulk's selected arts.
    pub fn shulk_buffs(self) -> (r: BuffOption)
        ensures
            r@ == flags_left_intersection(self@, shulk_buff_choices()),
    {
        let shulk = BuffOption::MONAD_JUMP().union(BuffOption::MONAD_SPEED()).union(
            BuffOption::MONAD_SHIELD(),
        ).union(BuffOption::MONAD_BUSTER()).union(BuffOption::MONAD_SMASH());
        assert(shulk@ =~= shulk_buff_choices());
        self.left_intersection(shulk)
    }

    /// Only Wario's selected wafts.
    pub fn wario_buffs(self) -> (r: BuffOption)
        ensures
            r@ == flags_left_intersection(self@, wario_buff_choices()),
    {
        let wario = BuffOption::WAFT_MINI().union(BuffOption::WAFT_HALF()).union(BuffOption::WAFT_FULL());
        assert(wario@ =~= wario_buff_choices());
        self.left_intersection(wario)
    }
}

impl BoolFlag {
    /// True exactly when the flag is `TRUE` alone.
    pub fn into_bool(self) -> (b: bool)
        ensures
            b == is_only_flag(self@, 0),
    {
        match choice_if_single(&self.to_vec()) {
            Some(k) => k == 0,
            None => false,
        }
    }
}

/// Frames between SDI inputs for each frequency; "None" never inputs.
pub open spec fn sdi_interval(k: int) -> u32 {
    if k == 0 { u32::MAX } else if k == 1 { 8 } else if k == 2 { 6 } else { 4 }
}

/// Frames between clatter inputs for each frequency; "None" never inputs.
pub open spec fn clatter_interval(k: int) -> u32 {
    if k == 0 { u32::MAX } else if k == 1 { 8 } else if k == 2 { 5 } else { 2 }
}

impl SdiFrequency {
    /// Frames between SDI inputs (see `sdi_interval`).
    pub fn into_u32(self) -> (n: u32)
        requires
            is_single(self@),
        ensures
            forall|k: int| is_only_flag(self@, k) ==> n == sdi_interval(k),
    {
        match the_choice(&self.to_vec()) {
            0 => u32::MAX,
            1 => 8,
            2 => 6,
            _ => 4,
        }
    }
}

impl ClatterFrequency {
    /// Frames between clatter inputs (see `clatter_interval`).
    pub fn into_u32(self) -> (n: u32)
        requires
            is_single(self@),
        ensures
            forall|k: int| is_only_flag(self@, k) ==> n == clatter_interval(k),
    {
        match the_choice(&self.to_vec()) {
            0 => u32::MAX,
            1 => 8,
            2 => 5,
            _ => 2,
        }
    }
}

impl CharacterItem {
    /// Index of the item choice: 0 for none, 1 to 8 for the player's
    /// variations, 9 to 16 for the CPU's.
    pub fn as_idx(&self) -> (i: usize)
        requires
            is_single(self@),
        ensures
            is_only_flag(self@, i as int),
    {
        the_choice(&self.to_vec())
    }
}

impl MashTrigger {
    /// Hitstun, shieldstun, tumble and clatter.
    pub fn default() -> (r: MashTrigger)
        ensures
            r@ == seq![1u8, 1, 0, 1, 0, 0, 0, 1, 0, 0, 0, 0, 0, 0, 0, 0, 0],
    {
        let mut r = MashTrigger::empty();
        r.HIT = 1;
        r.TUMBLE = 1;
        r.SHIELDSTUN = 1;
        r.CLATTER = 1;
        assert(r@ =~= seq![1u8, 1, 0, 1, 0, 0, 0, 1, 0, 0, 0, 0, 0, 0, 0, 0, 0]);
        r
    }
}

impl DamagePercent {
    /// From 0 up to 150 percent.
    pub fn default() -> (r: DamagePercent)
        ensures
            r.LOWER == 0,
            r.UPPER == 150,
    {
        DamagePercent { LOWER: 0, UPPER: 150 }
    }
}

impl SaveStateSlot {
    /// The slot index (0 to 4) if the option is exactly one slot.
    pub fn into_idx(&self) -> (r: Option<usize>)
        ensures
            match r {
                Some(k) => is_only_flag(self@, k as int),
                None => forall|k: int| !is_only_flag(self@, k),
            },
    {
        choice_if_single(&self.to_vec())
    }
}

impl RecordSlot {
    /// The slot index (0 to 4) if the option is exactly one slot.
    pub fn into_idx(&self) -> (r: Option<usize>)
        ensures
            match r {
                Some(k) => is_only_flag(self@, k as int),
                None => forall|k: int| !is_only_flag(self@, k),
            },
    {
        choice_if_single(&self.to_vec())
    }
}

impl PlaybackSlot {
    /// The slot index (0 to 4) if the option is exactly one slot.
    pub fn into_idx(&self) -> (r: Option<usize>)
        ensures
            match r {
                Some(k) => is_only_flag(self@, k as int),
                None => forall|k: int| !is_only_flag(self@, k),
            },
    {
        choice_if_single(&self.to_vec())
    }
}

impl RecordingDuration {
    /// The recording length in frames: 60 plus 30 per step.
    pub fn into_frames(&self) -> (f: usize)
        requires
            is_single(self@),
        ensures
            forall|k: int| is_only_flag(self@, k) ==> f == 60 + 30 * k,
    {
        let k = the_choice(&self.to_vec());
        60 + 30 * k
    }
}

impl UpdatePolicy {
    /// Follow stable releases.
    pub fn default() -> (r: UpdatePolicy)
        ensures
            r@ == only_flag(3, 0),
    {
        UpdatePolicy::STABLE()
    }
}

impl Locale {
    /// English (US).
    pub fn default() -> (r: Locale)
        ensures
            r@ == only_flag(2, 0),
    {
        Locale::ENGLISH_US()
    }

}

/// The locale with the given id: 1 is French, anything else English (US).
pub open spec fn locale_of(id: u8) -> Locale {
    if id == 1 { Locale { ENGLISH_US: 0, FRENCH: 1 } } else { Locale { ENGLISH_US: 1, FRENCH: 0 } }
}

impl From<u8> for Locale {
    fn from(id: u8) -> (r: Locale) {
        match id {
            0 => Locale { ENGLISH_US: 1, FRENCH: 0 },
            1 => Locale { ENGLISH_US: 0, FRENCH: 1 },
            _ => Locale { ENGLISH_US: 1, FRENCH: 0 },
        }
    }
}

impl vstd::std_specs::convert::FromSpecImpl<u8> for Locale {
    open spec fn obeys_from_spec() -> bool {
        true
    }

    open spec fn from_spec(id: u8) -> Locale {
        locale_of(id)
    }
}

} // verus!
