//! The option types of the training menu. Each choice of an option holds a
//! weight byte; see `flags` for what the weights mean.
use vstd::prelude::*;
use crate::menu::{submenu_from_names, submenu_matches, SubMenu, SubMenuType};
use crate::flags::{
    contains_weights, display_weights, flags_contains, flags_display, flags_left_intersection,
    flags_union, is_random_pick, left_intersection_weights, no_flags, only_flag, random_weights, union_weights,
};

verus! {

/// Stick directions, relative to the direction the CPU faces (DI, SDI, air dodge, shield tilt).
#[derive(Clone, Copy, Debug, PartialEq, Eq, Structural)]
pub struct Direction {
    pub OUT: u8,
    pub UP_OUT: u8,
    pub UP: u8,
    pub UP_IN: u8,
    pub IN: u8,
    pub DOWN_IN: u8,
    pub DOWN: u8,
    pub DOWN_OUT: u8,
    pub NEUTRAL: u8,
    pub LEFT: u8,
    pub RIGHT: u8,
}

impl View for Direction {
    type V = Seq<u8>;

    open spec fn view(&self) -> Seq<u8> {
        seq![self.OUT, self.UP_OUT, self.UP, self.UP_IN, self.IN, self.DOWN_IN, self.DOWN, self.DOWN_OUT, self.NEUTRAL, self.LEFT, self.RIGHT]
    }
}

impl Direction {
    /// Number of choices.
    pub open spec fn choices() -> nat {
        11
    }

    /// Display names of the choices, in order.
    pub open spec fn spec_names() -> Seq<Seq<char>> {
        seq!["Out"@, "Up Out"@, "Up"@, "Up In"@, "In"@, "Down In"@, "Down"@, "Down Out"@, "Neutral"@, "Left"@, "Right"@]
    }

    /// Display names of the choices, in order.
    pub fn names() -> (v: Vec<&'static str>)
        ensures
            v@.len() == Self::choices(),
            v@.map_values(|s: &str| s@) == Self::spec_names(),
    {
        let v = vec!["Out", "Up Out", "Up", "Up In", "In", "Down In", "Down", "Down Out", "Neutral", "Left", "Right"];
        assert(v@.map_values(|s: &str| s@) =~= Self::spec_names());
        v
    }

    /// No choice selected.
    pub fn new() -> (r: Self)
        ensures
            r@ == Seq::new(11, |i: int| 0u8),
    {
        let r = Self { OUT: 0, UP_OUT: 0, UP: 0, UP_IN: 0, IN: 0, DOWN_IN: 0, DOWN: 0, DOWN_OUT: 0, NEUTRAL: 0, LEFT: 0, RIGHT: 0 };
        assert(r@ =~= Seq::new(11, |i: int| 0u8));
        r
    }

    /// No choice selected.
    pub fn empty() -> (r: Self)
        ensures
            r@ == Seq::new(11, |i: int| 0u8),
            no_flags(r@),
    {
        Self::new()
    }

    /// Every choice selected with weight one.
    pub fn all() -> (r: Self)
        ensures
            r@ == Seq::new(11, |i: int| 1u8),
    {
        let r = Self { OUT: 1, UP_OUT: 1, UP: 1, UP_IN: 1, IN: 1, DOWN_IN: 1, DOWN: 1, DOWN_OUT: 1, NEUTRAL: 1, LEFT: 1, RIGHT: 1 };
        assert(r@ =~= Seq::new(11, |i: int| 1u8));
        r
    }

    /// Only "Out" selected.
    pub fn OUT() -> (r: Self)
        ensures
            r@ == only_flag(11, 0),
    {
        let r = Self { OUT: 1, UP_OUT: 0, UP: 0, UP_IN: 0, IN: 0, DOWN_IN: 0, DOWN: 0, DOWN_OUT: 0, NEUTRAL: 0, LEFT: 0, RIGHT: 0 };
        assert(r@ =~= only_flag(11, 0));
        r
    }

    /// Only "Up Out" selected.
    pub fn UP_OUT() -> (r: Self)
        ensures
            r@ == only_flag(11, 1),
    {
        let r = Self { OUT: 0, UP_OUT: 1, UP: 0, UP_IN: 0, IN: 0, DOWN_IN: 0, DOWN: 0, DOWN_OUT: 0, NEUTRAL: 0, LEFT: 0, RIGHT: 0 };
        assert(r@ =~= only_flag(11, 1));
        r
    }

    /// Only "Up" selected.
    pub fn UP() -> (r: Self)
        ensures
            r@ == only_flag(11, 2),
    {
        let r = Self { OUT: 0, UP_OUT: 0, UP: 1, UP_IN: 0, IN: 0, DOWN_IN: 0, DOWN: 0, DOWN_OUT: 0, NEUTRAL: 0, LEFT: 0, RIGHT: 0 };
        assert(r@ =~= only_flag(11, 2));
        r
    }

    /// Only "Up In" selected.
    pub fn UP_IN() -> (r: Self)
        ensures
            r@ == only_flag(11, 3),
    {
        let r = Self { OUT: 0, UP_OUT: 0, UP: 0, UP_IN: 1, IN: 0, DOWN_IN: 0, DOWN: 0, DOWN_OUT: 0, NEUTRAL: 0, LEFT: 0, RIGHT: 0 };
        assert(r@ =~= only_flag(11, 3));
        r
    }

    /// Only "In" selected.
    pub fn IN() -> (r: Self)
        ensures
            r@ == only_flag(11, 4),
    {
        let r = Self { OUT: 0, UP_OUT: 0, UP: 0, UP_IN: 0, IN: 1, DOWN_IN: 0, DOWN: 0, DOWN_OUT: 0, NEUTRAL: 0, LEFT: 0, RIGHT: 0 };
        assert(r@ =~= only_flag(11, 4));
        r
    }

    /// Only "Down In" selected.
    pub fn DOWN_IN() -> (r: Self)
        ensures
            r@ == only_flag(11, 5),
    {
        let r = Self { OUT: 0, UP_OUT: 0, UP: 0, UP_IN: 0, IN: 0, DOWN_IN: 1, DOWN: 0, DOWN_OUT: 0, NEUTRAL: 0, LEFT: 0, RIGHT: 0 };
        assert(r@ =~= only_flag(11, 5));
        r
    }

    /// Only "Down" selected.
    pub fn DOWN() -> (r: Self)
        ensures
            r@ == only_flag(11, 6),
    {
        let r = Self { OUT: 0, UP_OUT: 0, UP: 0, UP_IN: 0, IN: 0, DOWN_IN: 0, DOWN: 1, DOWN_OUT: 0, NEUTRAL: 0, LEFT: 0, RIGHT: 0 };
        assert(r@ =~= only_flag(11, 6));
        r
    }

    /// Only "Down Out" selected.
    pub fn DOWN_OUT() -> (r: Self)
        ensures
            r@ == only_flag(11, 7),
    {
        let r = Self { OUT: 0, UP_OUT: 0, UP: 0, UP_IN: 0, IN: 0, DOWN_IN: 0, DOWN: 0, DOWN_OUT: 1, NEUTRAL: 0, LEFT: 0, RIGHT: 0 };
        assert(r@ =~= only_flag(11, 7));
        r
    }

    /// Only "Neutral" selected.
    pub fn NEUTRAL() -> (r: Self)
        ensures
            r@ == only_flag(11, 8),
    {
        let r = Self { OUT: 0, UP_OUT: 0, UP: 0, UP_IN: 0, IN: 0, DOWN_IN: 0, DOWN: 0, DOWN_OUT: 0, NEUTRAL: 1, LEFT: 0, RIGHT: 0 };
        assert(r@ =~= only_flag(11, 8));
        r
    }

    /// Only "Left" selected.
    pub fn LEFT() -> (r: Self)
        ensures
            r@ == only_flag(11, 9),
    {
        let r = Self { OUT: 0, UP_OUT: 0, UP: 0, UP_IN: 0, IN: 0, DOWN_IN: 0, DOWN: 0, DOWN_OUT: 0, NEUTRAL: 0, LEFT: 1, RIGHT: 0 };
        assert(r@ =~= only_flag(11, 9));
        r
    }

    /// Only "Right" selected.
    pub fn RIGHT() -> (r: Self)
        ensures
            r@ == only_flag(11, 10),
    {
        let r = Self { OUT: 0, UP_OUT: 0, UP: 0, UP_IN: 0, IN: 0, DOWN_IN: 0, DOWN: 0, DOWN_OUT: 0, NEUTRAL: 0, LEFT: 0, RIGHT: 1 };
        assert(r@ =~= only_flag(11, 10));
        r
    }

    /// The weights, in choice order.
    pub fn to_vec(&self) -> (v: Vec<u8>)
        ensures
            v@ == self@,
    {
        let v = vec![self.OUT, self.UP_OUT, self.UP, self.UP_IN, self.IN, self.DOWN_IN, self.DOWN, self.DOWN_OUT, self.NEUTRAL, self.LEFT, self.RIGHT];
        assert(v@ =~= self@);
        v
    }

    /// The option with the given weights, in choice order.
    pub fn from_weights(w: &Vec<u8>) -> (r: Self)
        requires
            w@.len() == 11,
        ensures
            r@ == w@,
    {
        let r = Self { OUT: w[0], UP_OUT: w[1], UP: w[2], UP_IN: w[3], IN: w[4], DOWN_IN: w[5], DOWN: w[6], DOWN_OUT: w[7], NEUTRAL: w[8], LEFT: w[9], RIGHT: w[10] };
        assert(r@ =~= w@);
        r
    }

    /// Whether every choice selected in `other` is selected here.
    pub fn contains(&self, other: &Self) -> (b: bool)
        ensures
            b == flags_contains(self@, other@),
    {
        contains_weights(&self.to_vec(), &other.to_vec())
    }

    /// Choice-wise saturating sum of the weights.
    pub fn union(&self, other: Self) -> (r: Self)
        ensures
            r@ == flags_union(self@, other@),
    {
        Self::from_weights(&union_weights(&self.to_vec(), &other.to_vec()))
    }

    /// The weights of this option for the choices selected in `other`.
    pub fn left_intersection(&self, other: Self) -> (r: Self)
        ensures
            r@ == flags_left_intersection(self@, other@),
    {
        Self::from_weights(&left_intersection_weights(&self.to_vec(), &other.to_vec()))
    }

    /// A random single choice among the selected ones, in proportion to the weights;
    /// no choice when none is selected.
    pub fn get_random(&self) -> (r: Self)
        ensures
            is_random_pick(r@, self@),
    {
        Self::from_weights(&random_weights(&self.to_vec()))
    }

    /// The names of the selected choices joined with `" + "`.
    pub fn to_string(&self) -> (s: String)
        ensures
            s@ == flags_display(self@, Self::spec_names()),
    {
        display_weights(&self.to_vec(), &Self::names())
    }

    /// The menu page of this option: one toggle per choice, or a slider.
    pub fn to_submenu(title: &'static str, id: &'static str, help_text: &'static str, submenu_type: SubMenuType) -> (s: SubMenu)
        ensures
            submenu_matches(s, Self::spec_names(), title@, id@, help_text@, submenu_type),
    {
        submenu_from_names(Self::names(), title, id, help_text, submenu_type)
    }
}

/// What the CPU does on the ledge.
#[derive(Clone, Copy, Debug, PartialEq, Eq, Structural)]
pub struct LedgeOption {
    pub NEUTRAL: u8,
    pub ROLL: u8,
    pub JUMP: u8,
    pub ATTACK: u8,
    pub WAIT: u8,
    pub PLAYBACK_1: u8,
    pub PLAYBACK_2: u8,
    pub PLAYBACK_3: u8,
    pub PLAYBACK_4: u8,
    pub PLAYBACK_5: u8,
}

impl View for LedgeOption {
    type V = Seq<u8>;

    open spec fn view(&self) -> Seq<u8> {
        seq![self.NEUTRAL, self.ROLL, self.JUMP, self.ATTACK, self.WAIT, self.PLAYBACK_1, self.PLAYBACK_2, self.PLAYBACK_3, self.PLAYBACK_4, self.PLAYBACK_5]
    }
}

impl LedgeOption {
    /// Number of choices.
    pub open spec fn choices() -> nat {
        10
    }

    /// Display names of the choices, in order.
    pub open spec fn spec_names() -> Seq<Seq<char>> {
        seq!["Neutral Getup"@, "Roll"@, "Jump"@, "Getup Attack"@, "Wait"@, "Playback Slot 1"@, "Playback Slot 2"@, "Playback Slot 3"@, "Playback Slot 4"@, "Playback Slot 5"@]
    }

    /// Display names of the choices, in order.
    pub fn names() -> (v: Vec<&'static str>)
        ensures
            v@.len() == Self::choices(),
            v@.map_values(|s: &str| s@) == Self::spec_names(),
    {
        let v = vec!["Neutral Getup", "Roll", "Jump", "Getup Attack", "Wait", "Playback Slot 1", "Playback Slot 2", "Playback Slot 3", "Playback Slot 4", "Playback Slot 5"];
        assert(v@.map_values(|s: &str| s@) =~= Self::spec_names());
        v
    }

    /// No choice selected.
    pub fn new() -> (r: Self)
        ensures
            r@ == Seq::new(10, |i: int| 0u8),
    {
        let r = Self { NEUTRAL: 0, ROLL: 0, JUMP: 0, ATTACK: 0, WAIT: 0, PLAYBACK_1: 0, PLAYBACK_2: 0, PLAYBACK_3: 0, PLAYBACK_4: 0, PLAYBACK_5: 0 };
        assert(r@ =~= Seq::new(10, |i: int| 0u8));
        r
    }

    /// No choice selected.
    pub fn empty() -> (r: Self)
        ensures
            r@ == Seq::new(10, |i: int| 0u8),
            no_flags(r@),
    {
        Self::new()
    }

    /// Every choice selected with weight one.
    pub fn all() -> (r: Self)
        ensures
            r@ == Seq::new(10, |i: int| 1u8),
    {
        let r = Self { NEUTRAL: 1, ROLL: 1, JUMP: 1, ATTACK: 1, WAIT: 1, PLAYBACK_1: 1, PLAYBACK_2: 1, PLAYBACK_3: 1, PLAYBACK_4: 1, PLAYBACK_5: 1 };
        assert(r@ =~= Seq::new(10, |i: int| 1u8));
        r
    }

    /// Only "Neutral Getup" selected.
    pub fn NEUTRAL() -> (r: Self)
        ensures
            r@ == only_flag(10, 0),
    {
        let r = Self { NEUTRAL: 1, ROLL: 0, JUMP: 0, ATTACK: 0, WAIT: 0, PLAYBACK_1: 0, PLAYBACK_2: 0, PLAYBACK_3: 0, PLAYBACK_4: 0, PLAYBACK_5: 0 };
        assert(r@ =~= only_flag(10, 0));
        r
    }

    /// Only "Roll" selected.
    pub fn ROLL() -> (r: Self)
        ensures
            r@ == only_flag(10, 1),
    {
        let r = Self { NEUTRAL: 0, ROLL: 1, JUMP: 0, ATTACK: 0, WAIT: 0, PLAYBACK_1: 0, PLAYBACK_2: 0, PLAYBACK_3: 0, PLAYBACK_4: 0, PLAYBACK_5: 0 };
        assert(r@ =~= only_flag(10, 1));
        r
    }

    /// Only "Jump" selected.
    pub fn JUMP() -> (r: Self)
        ensures
            r@ == only_flag(10, 2),
    {
        let r = Self { NEUTRAL: 0, ROLL: 0, JUMP: 1, ATTACK: 0, WAIT: 0, PLAYBACK_1: 0, PLAYBACK_2: 0, PLAYBACK_3: 0, PLAYBACK_4: 0, PLAYBACK_5: 0 };
        assert(r@ =~= only_flag(10, 2));
        r
    }

    /// Only "Getup Attack" selected.
    pub fn ATTACK() -> (r: Self)
        ensures
            r@ == only_flag(10, 3),
    {
        let r = Self { NEUTRAL: 0, ROLL: 0, JUMP: 0, ATTACK: 1, WAIT: 0, PLAYBACK_1: 0, PLAYBACK_2: 0, PLAYBACK_3: 0, PLAYBACK_4: 0, PLAYBACK_5: 0 };
        assert(r@ =~= only_flag(10, 3));
        r
    }

    /// Only "Wait" selected.
    pub fn WAIT() -> (r: Self)
        ensures
            r@ == only_flag(10, 4),
    {
        let r = Self { NEUTRAL: 0, ROLL: 0, JUMP: 0, ATTACK: 0, WAIT: 1, PLAYBACK_1: 0, PLAYBACK_2: 0, PLAYBACK_3: 0, PLAYBACK_4: 0, PLAYBACK_5: 0 };
        assert(r@ =~= only_flag(10, 4));
        r
    }

    /// Only "Playback Slot 1" selected.
    pub fn PLAYBACK_1() -> (r: Self)
        ensures
            r@ == only_flag(10, 5),
    {
        let r = Self { NEUTRAL: 0, ROLL: 0, JUMP: 0, ATTACK: 0, WAIT: 0, PLAYBACK_1: 1, PLAYBACK_2: 0, PLAYBACK_3: 0, PLAYBACK_4: 0, PLAYBACK_5: 0 };
        assert(r@ =~= only_flag(10, 5));
        r
    }

    /// Only "Playback Slot 2" selected.
    pub fn PLAYBACK_2() -> (r: Self)
        ensures
            r@ == only_flag(10, 6),
    {
        let r = Self { NEUTRAL: 0, ROLL: 0, JUMP: 0, ATTACK: 0, WAIT: 0, PLAYBACK_1: 0, PLAYBACK_2: 1, PLAYBACK_3: 0, PLAYBACK_4: 0, PLAYBACK_5: 0 };
        assert(r@ =~= only_flag(10, 6));
        r
    }

    /// Only "Playback Slot 3" selected.
    pub fn PLAYBACK_3() -> (r: Self)
        ensures
            r@ == only_flag(10, 7),
    {
        let r = Self { NEUTRAL: 0, ROLL: 0, JUMP: 0, ATTACK: 0, WAIT: 0, PLAYBACK_1: 0, PLAYBACK_2: 0, PLAYBACK_3: 1, PLAYBACK_4: 0, PLAYBACK_5: 0 };
        assert(r@ =~= only_flag(10, 7));
        r
    }

    /// Only "Playback Slot 4" selected.
    pub fn PLAYBACK_4() -> (r: Self)
        ensures
            r@ == only_flag(10, 8),
    {
        let r = Self { NEUTRAL: 0, ROLL: 0, JUMP: 0, ATTACK: 0, WAIT: 0, PLAYBACK_1: 0, PLAYBACK_2: 0, PLAYBACK_3: 0, PLAYBACK_4: 1, PLAYBACK_5: 0 };
        assert(r@ =~= only_flag(10, 8));
        r
    }

    /// Only "Playback Slot 5" selected.
    pub fn PLAYBACK_5() -> (r: Self)
        ensures
            r@ == only_flag(10, 9),
    {
        let r = Self { NEUTRAL: 0, ROLL: 0, JUMP: 0, ATTACK: 0, WAIT: 0, PLAYBACK_1: 0, PLAYBACK_2: 0, PLAYBACK_3: 0, PLAYBACK_4: 0, PLAYBACK_5: 1 };
        assert(r@ =~= only_flag(10, 9));
        r
    }

    /// The weights, in choice order.
    pub fn to_vec(&self) -> (v: Vec<u8>)
        ensures
            v@ == self@,
    {
        let v = vec![self.NEUTRAL, self.ROLL, self.JUMP, self.ATTACK, self.WAIT, self.PLAYBACK_1, self.PLAYBACK_2, self.PLAYBACK_3, self.PLAYBACK_4, self.PLAYBACK_5];
        assert(v@ =~= self@);
        v
    }

    /// The option with the given weights, in choice order.
    pub fn from_weights(w: &Vec<u8>) -> (r: Self)
        requires
            w@.len() == 10,
        ensures
            r@ == w@,
    {
        let r = Self { NEUTRAL: w[0], ROLL: w[1], JUMP: w[2], ATTACK: w[3], WAIT: w[4], PLAYBACK_1: w[5], PLAYBACK_2: w[6], PLAYBACK_3: w[7], PLAYBACK_4: w[8], PLAYBACK_5: w[9] };
        assert(r@ =~= w@);
        r
    }

    /// Whether every choice selected in `other` is selected here.
    pub fn contains(&self, other: &Self) -> (b: bool)
        ensures
            b == flags_contains(self@, other@),
    {
        contains_weights(&self.to_vec(), &other.to_vec())
    }

    /// Choice-wise saturating sum of the weights.
    pub fn union(&self, other: Self) -> (r: Self)
        ensures
            r@ == flags_union(self@, other@),
    {
        Self::from_weights(&union_weights(&self.to_vec(), &other.to_vec()))
    }

    /// The weights of this option for the choices selected in `other`.
    pub fn left_intersection(&self, other: Self) -> (r: Self)
        ensures
            r@ == flags_left_intersection(self@, other@),
    {
        Self::from_weights(&left_intersection_weights(&self.to_vec(), &other.to_vec()))
    }

    /// A random single choice among the selected ones, in proportion to the weights;
    /// no choice when none is selected.
    pub fn get_random(&self) -> (r: Self)
        ensures
            is_random_pick(r@, self@),
    {
        Self::from_weights(&random_weights(&self.to_vec()))
    }

    /// The names of the selected choices joined with `" + "`.
    pub fn to_string(&self) -> (s: String)
        ensures
            s@ == flags_display(self@, Self::spec_names()),
    {
        display_weights(&self.to_vec(), &Self::names())
    }

    /// The menu page of this option: one toggle per choice, or a slider.
    pub fn to_submenu(title: &'static str, id: &'static str, help_text: &'static str, submenu_type: SubMenuType) -> (s: SubMenu)
        ensures
            submenu_matches(s, Self::spec_names(), title@, id@, help_text@, submenu_type),
    {
        submenu_from_names(Self::names(), title, id, help_text, submenu_type)
    }
}

/// Tech options on landing in tumble.
#[derive(Clone, Copy, Debug, PartialEq, Eq, Structural)]
pub struct TechFlags {
    pub NO_TECH: u8,
    pub ROLL_F: u8,
    pub ROLL_B: u8,
    pub IN_PLACE: u8,
}

impl View for TechFlags {
    type V = Seq<u8>;

    open spec fn view(&self) -> Seq<u8> {
        seq![self.NO_TECH, self.ROLL_F, self.ROLL_B, self.IN_PLACE]
    }
}

impl TechFlags {
    /// Number of choices.
    pub open spec fn choices() -> nat {
        4
    }

    /// Display names of the choices, in order.
    pub open spec fn spec_names() -> Seq<Seq<char>> {
        seq!["No Tech"@, "Roll Forwards"@, "Roll Backwards"@, "Tech In Place"@]
    }

    /// Display names of the choices, in order.
    pub fn names() -> (v: Vec<&'static str>)
        ensures
            v@.len() == Self::choices(),
            v@.map_values(|s: &str| s@) == Self::spec_names(),
    {
        let v = vec!["No Tech", "Roll Forwards", "Roll Backwards", "Tech In Place"];
        assert(v@.map_values(|s: &str| s@) =~= Self::spec_names());
        v
    }

    /// No choice selected.
    pub fn new() -> (r: Self)
        ensures
            r@ == Seq::new(4, |i: int| 0u8),
    {
        let r = Self { NO_TECH: 0, ROLL_F: 0, ROLL_B: 0, IN_PLACE: 0 };
        assert(r@ =~= Seq::new(4, |i: int| 0u8));
        r
    }

    /// No choice selected.
    pub fn empty() -> (r: Self)
        ensures
            r@ == Seq::new(4, |i: int| 0u8),
            no_flags(r@),
    {
        Self::new()
    }

    /// Every choice selected with weight one.
    pub fn all() -> (r: Self)
        ensures
            r@ == Seq::new(4, |i: int| 1u8),
    {
        let r = Self { NO_TECH: 1, ROLL_F: 1, ROLL_B: 1, IN_PLACE: 1 };
        assert(r@ =~= Seq::new(4, |i: int| 1u8));
        r
    }

    /// Only "No Tech" selected.
    pub fn NO_TECH() -> (r: Self)
        ensures
            r@ == only_flag(4, 0),
    {
        let r = Self { NO_TECH: 1, ROLL_F: 0, ROLL_B: 0, IN_PLACE: 0 };
        assert(r@ =~= only_flag(4, 0));
        r
    }

    /// Only "Roll Forwards" selected.
    pub fn ROLL_F() -> (r: Self)
        ensures
            r@ == only_flag(4, 1),
    {
        let r = Self { NO_TECH: 0, ROLL_F: 1, ROLL_B: 0, IN_PLACE: 0 };
        assert(r@ =~= only_flag(4, 1));
        r
    }

    /// Only "Roll Backwards" selected.
    pub fn ROLL_B() -> (r: Self)
        ensures
            r@ == only_flag(4, 2),
    {
        let r = Self { NO_TECH: 0, ROLL_F: 0, ROLL_B: 1, IN_PLACE: 0 };
        assert(r@ =~= only_flag(4, 2));
        r
    }

    /// Only "Tech In Place" selected.
    pub fn IN_PLACE() -> (r: Self)
        ensures
            r@ == only_flag(4, 3),
    {
        let r = Self { NO_TECH: 0, ROLL_F: 0, ROLL_B: 0, IN_PLACE: 1 };
        assert(r@ =~= only_flag(4, 3));
        r
    }

    /// The weights, in choice order.
    pub fn to_vec(&self) -> (v: Vec<u8>)
        ensures
            v@ == self@,
    {
        let v = vec![self.NO_TECH, self.ROLL_F, self.ROLL_B, self.IN_PLACE];
        assert(v@ =~= self@);
        v
    }

    /// The option with the given weights, in choice order.
    pub fn from_weights(w: &Vec<u8>) -> (r: Self)
        requires
            w@.len() == 4,
        ensures
            r@ == w@,
    {
        let r = Self { NO_TECH: w[0], ROLL_F: w[1], ROLL_B: w[2], IN_PLACE: w[3] };
        assert(r@ =~= w@);
        r
    }

    /// Whether every choice selected in `other` is selected here.
    pub fn contains(&self, other: &Self) -> (b: bool)
        ensures
            b == flags_contains(self@, other@),
    {
        contains_weights(&self.to_vec(), &other.to_vec())
    }

    /// Choice-wise saturating sum of the weights.
    pub fn union(&self, other: Self) -> (r: Self)
        ensures
            r@ == flags_union(self@, other@),
    {
        Self::from_weights(&union_weights(&self.to_vec(), &other.to_vec()))
    }

    /// The weights of this option for the choices selected in `other`.
    pub fn left_intersection(&self, other: Self) -> (r: Self)
        ensures
            r@ == flags_left_intersection(self@, other@),
    {
        Self::from_weights(&left_intersection_weights(&self.to_vec(), &other.to_vec()))
    }

    /// A random single choice among the selected ones, in proportion to the weights;
    /// no choice when none is selected.
    pub fn get_random(&self) -> (r: Self)
        ensures
            is_random_pick(r@, self@),
    {
        Self::from_weights(&random_weights(&self.to_vec()))
    }

    /// The names of the selected choices joined with `" + "`.
    pub fn to_string(&self) -> (s: String)
        ensures
            s@ == flags_display(self@, Self::spec_names()),
    {
        display_weights(&self.to_vec(), &Self::names())
    }

    /// The menu page of this option: one toggle per choice, or a slider.
    pub fn to_submenu(title: &'static str, id: &'static str, help_text: &'static str, submenu_type: SubMenuType) -> (s: SubMenu)
        ensures
            submenu_matches(s, Self::spec_names(), title@, id@, help_text@, submenu_type),
    {
        submenu_from_names(Self::names(), title, id, help_text, submenu_type)
    }
}

/// Getup options after a missed tech.
#[derive(Clone, Copy, Debug, PartialEq, Eq, Structural)]
pub struct MissTechFlags {
    pub GETUP: u8,
    pub ATTACK: u8,
    pub ROLL_F: u8,
    pub ROLL_B: u8,
}

impl View for MissTechFlags {
    type V = Seq<u8>;

    open spec fn view(&self) -> Seq<u8> {
        seq![self.GETUP, self.ATTACK, self.ROLL_F, self.ROLL_B]
    }
}

impl MissTechFlags {
    /// Number of choices.
    pub open spec fn choices() -> nat {
        4
    }

    /// Display names of the choices, in order.
    pub open spec fn spec_names() -> Seq<Seq<char>> {
        seq!["Neutral Getup"@, "Getup Attack"@, "Roll Forwards"@, "Roll Backwards"@]
    }

    /// Display names of the choices, in order.
    pub fn names() -> (v: Vec<&'static str>)
        ensures
            v@.len() == Self::choices(),
            v@.map_values(|s: &str| s@) == Self::spec_names(),
    {
        let v = vec!["Neutral Getup", "Getup Attack", "Roll Forwards", "Roll Backwards"];
        assert(v@.map_values(|s: &str| s@) =~= Self::spec_names());
        v
    }

    /// No choice selected.
    pub fn new() -> (r: Self)
        ensures
            r@ == Seq::new(4, |i: int| 0u8),
    {
        let r = Self { GETUP: 0, ATTACK: 0, ROLL_F: 0, ROLL_B: 0 };
        assert(r@ =~= Seq::new(4, |i: int| 0u8));
        r
    }

    /// No choice selected.
    pub fn empty() -> (r: Self)
        ensures
            r@ == Seq::new(4, |i: int| 0u8),
            no_flags(r@),
    {
        Self::new()
    }

    /// Every choice selected with weight one.
    pub fn all() -> (r: Self)
        ensures
            r@ == Seq::new(4, |i: int| 1u8),
    {
        let r = Self { GETUP: 1, ATTACK: 1, ROLL_F: 1, ROLL_B: 1 };
        assert(r@ =~= Seq::new(4, |i: int| 1u8));
        r
    }

    /// Only "Neutral Getup" selected.
    pub fn GETUP() -> (r: Self)
        ensures
            r@ == only_flag(4, 0),
    {
        let r = Self { GETUP: 1, ATTACK: 0, ROLL_F: 0, ROLL_B: 0 };
        assert(r@ =~= only_flag(4, 0));
        r
    }

    /// Only "Getup Attack" selected.
    pub fn ATTACK() -> (r: Self)
        ensures
            r@ == only_flag(4, 1),
    {
        let r = Self { GETUP: 0, ATTACK: 1, ROLL_F: 0, ROLL_B: 0 };
        assert(r@ =~= only_flag(4, 1));
        r
    }

    /// Only "Roll Forwards" selected.
    pub fn ROLL_F() -> (r: Self)
        ensures
            r@ == only_flag(4, 2),
    {
        let r = Self { GETUP: 0, ATTACK: 0, ROLL_F: 1, ROLL_B: 0 };
        assert(r@ =~= only_flag(4, 2));
        r
    }

    /// Only "Roll Backwards" selected.
    pub fn ROLL_B() -> (r: Self)
        ensures
            r@ == only_flag(4, 3),
    {
        let r = Self { GETUP: 0, ATTACK: 0, ROLL_F: 0, ROLL_B: 1 };
        assert(r@ =~= only_flag(4, 3));
        r
    }

    /// The weights, in choice order.
    pub fn to_vec(&self) -> (v: Vec<u8>)
        ensures
            v@ == self@,
    {
        let v = vec![self.GETUP, self.ATTACK, self.ROLL_F, self.ROLL_B];
        assert(v@ =~= self@);
        v
    }

    /// The option with the given weights, in choice order.
    pub fn from_weights(w: &Vec<u8>) -> (r: Self)
        requires
            w@.len() == 4,
        ensures
            r@ == w@,
    {
        let r = Self { GETUP: w[0], ATTACK: w[1], ROLL_F: w[2], ROLL_B: w[3] };
        assert(r@ =~= w@);
        r
    }

    /// Whether every choice selected in `other` is selected here.
    pub fn contains(&self, other: &Self) -> (b: bool)
        ensures
            b == flags_contains(self@, other@),
    {
        contains_weights(&self.to_vec(), &other.to_vec())
    }

    /// Choice-wise saturating sum of the weights.
    pub fn union(&self, other: Self) -> (r: Self)
        ensures
            r@ == flags_union(self@, other@),
    {
        Self::from_weights(&union_weights(&self.to_vec(), &other.to_vec()))
    }

    /// The weights of this option for the choices selected in `other`.
    pub fn left_intersection(&self, other: Self) -> (r: Self)
        ensures
            r@ == flags_left_intersection(self@, other@),
    {
        Self::from_weights(&left_intersection_weights(&self.to_vec(), &other.to_vec()))
    }

    /// A random single choice among the selected ones, in proportion to the weights;
    /// no choice when none is selected.
    pub fn get_random(&self) -> (r: Self)
        ensures
            is_random_pick(r@, self@),
    {
        Self::from_weights(&random_weights(&self.to_vec()))
    }

    /// The names of the selected choices joined with `" + "`.
    pub fn to_string(&self) -> (s: String)
        ensures
            s@ == flags_display(self@, Self::spec_names()),
    {
        display_weights(&self.to_vec(), &Self::names())
    }

    /// The menu page of this option: one toggle per choice, or a slider.
    pub fn to_submenu(title: &'static str, id: &'static str, help_text: &'static str, submenu_type: SubMenuType) -> (s: SubMenu)
        ensures
            submenu_matches(s, Self::spec_names(), title@, id@, help_text@, submenu_type),
    {
        submenu_from_names(Self::names(), title, id, help_text, submenu_type)
    }
}

/// Shield behaviour of the CPU.
#[derive(Clone, Copy, Debug, PartialEq, Eq, Structural)]
pub struct Shield {
    pub NONE: u8,
    pub INFINITE: u8,
    pub HOLD: u8,
    pub CONSTANT: u8,
}

impl View for Shield {
    type V = Seq<u8>;

    open spec fn view(&self) -> Seq<u8> {
        seq![self.NONE, self.INFINITE, self.HOLD, self.CONSTANT]
    }
}

impl Shield {
    /// Number of choices.
    pub open spec fn choices() -> nat {
        4
    }

    /// Display names of the choices, in order.
    pub open spec fn spec_names() -> Seq<Seq<char>> {
        seq!["None"@, "Infinite"@, "Hold"@, "Constant"@]
    }

    /// Display names of the choices, in order.
    pub fn names() -> (v: Vec<&'static str>)
        ensures
            v@.len() == Self::choices(),
            v@.map_values(|s: &str| s@) == Self::spec_names(),
    {
        let v = vec!["None", "Infinite", "Hold", "Constant"];
        assert(v@.map_values(|s: &str| s@) =~= Self::spec_names());
        v
    }

    /// No choice selected.
    pub fn new() -> (r: Self)
        ensures
            r@ == Seq::new(4, |i: int| 0u8),
    {
        let r = Self { NONE: 0, INFINITE: 0, HOLD: 0, CONSTANT: 0 };
        assert(r@ =~= Seq::new(4, |i: int| 0u8));
        r
    }

    /// No choice selected.
    pub fn empty() -> (r: Self)
        ensures
            r@ == Seq::new(4, |i: int| 0u8),
            no_flags(r@),
    {
        Self::new()
    }

    /// Every choice selected with weight one.
    pub fn all() -> (r: Self)
        ensures
            r@ == Seq::new(4, |i: int| 1u8),
    {
        let r = Self { NONE: 1, INFINITE: 1, HOLD: 1, CONSTANT: 1 };
        assert(r@ =~= Seq::new(4, |i: int| 1u8));
        r
    }

    /// Only "None" selected.
    pub fn NONE() -> (r: Self)
        ensures
            r@ == only_flag(4, 0),
    {
        let r = Self { NONE: 1, INFINITE: 0, HOLD: 0, CONSTANT: 0 };
        assert(r@ =~= only_flag(4, 0));
        r
    }

    /// Only "Infinite" selected.
    pub fn INFINITE() -> (r: Self)
        ensures
            r@ == only_flag(4, 1),
    {
        let r = Self { NONE: 0, INFINITE: 1, HOLD: 0, CONSTANT: 0 };
        assert(r@ =~= only_flag(4, 1));
        r
    }

    /// Only "Hold" selected.
    pub fn HOLD() -> (r: Self)
        ensures
            r@ == only_flag(4, 2),
    {
        let r = Self { NONE: 0, INFINITE: 0, HOLD: 1, CONSTANT: 0 };
        assert(r@ =~= only_flag(4, 2));
        r
    }

    /// Only "Constant" selected.
    pub fn CONSTANT() -> (r: Self)
        ensures
            r@ == only_flag(4, 3),
    {
        let r = Self { NONE: 0, INFINITE: 0, HOLD: 0, CONSTANT: 1 };
        assert(r@ =~= only_flag(4, 3));
        r
    }

    /// The weights, in choice order.
    pub fn to_vec(&self) -> (v: Vec<u8>)
        ensures
            v@ == self@,
    {
        let v = vec![self.NONE, self.INFINITE, self.HOLD, self.CONSTANT];
        assert(v@ =~= self@);
        v
    }

    /// The option with the given weights, in choice order.
    pub fn from_weights(w: &Vec<u8>) -> (r: Self)
        requires
            w@.len() == 4,
        ensures
            r@ == w@,
    {
        let r = Self { NONE: w[0], INFINITE: w[1], HOLD: w[2], CONSTANT: w[3] };
        assert(r@ =~= w@);
        r
    }

    /// Whether every choice selected in `other` is selected here.
    pub fn contains(&self, other: &Self) -> (b: bool)
        ensures
            b == flags_contains(self@, other@),
    {
        contains_weights(&self.to_vec(), &other.to_vec())
    }

    /// Choice-wise saturating sum of the weights.
    pub fn union(&self, other: Self) -> (r: Self)
        ensures
            r@ == flags_union(self@, other@),
    {
        Self::from_weights(&union_weights(&self.to_vec(), &other.to_vec()))
    }

    /// The weights of this option for the choices selected in `other`.
    pub fn left_intersection(&self, other: Self) -> (r: Self)
        ensures
            r@ == flags_left_intersection(self@, other@),
    {
        Self::from_weights(&left_intersection_weights(&self.to_vec(), &other.to_vec()))
    }

    /// A random single choice among the selected ones, in proportion to the weights;
    /// no choice when none is selected.
    pub fn get_random(&self) -> (r: Self)
        ensures
            is_random_pick(r@, self@),
    {
        Self::from_weights(&random_weights(&self.to_vec()))
    }

    /// The names of the selected choices joined with `" + "`.
    pub fn to_string(&self) -> (s: String)
        ensures
            s@ == flags_display(self@, Self::spec_names()),
    {
        display_weights(&self.to_vec(), &Self::names())
    }

    /// The menu page of this option: one toggle per choice, or a slider.
    pub fn to_submenu(title: &'static str, id: &'static str, help_text: &'static str, submenu_type: SubMenuType) -> (s: SubMenu)
        ensures
            submenu_matches(s, Self::spec_names(), title@, id@, help_text@, submenu_type),
    {
        submenu_from_names(Self::names(), title, id, help_text, submenu_type)
    }
}

/// Whether save state loads mirror the positions.
#[derive(Clone, Copy, Debug, PartialEq, Eq, Structural)]
pub struct SaveStateMirroring {
    pub NONE: u8,
    pub ALTERNATE: u8,
    pub RANDOM: u8,
}

impl View for SaveStateMirroring {
    type V = Seq<u8>;

    open spec fn view(&self) -> Seq<u8> {
        seq![self.NONE, self.ALTERNATE, self.RANDOM]
    }
}

impl SaveStateMirroring {
    /// Number of choices.
    pub open spec fn choices() -> nat {
        3
    }

    /// Display names of the choices, in order.
    pub open spec fn spec_names() -> Seq<Seq<char>> {
        seq!["None"@, "Alternate"@, "Random"@]
    }

    /// Display names of the choices, in order.
    pub fn names() -> (v: Vec<&'static str>)
        ensures
            v@.len() == Self::choices(),
            v@.map_values(|s: &str| s@) == Self::spec_names(),
    {
        let v = vec!["None", "Alternate", "Random"];
        assert(v@.map_values(|s: &str| s@) =~= Self::spec_names());
        v
    }

    /// No choice selected.
    pub fn new() -> (r: Self)
        ensures
            r@ == Seq::new(3, |i: int| 0u8),
    {
        let r = Self { NONE: 0, ALTERNATE: 0, RANDOM: 0 };
        assert(r@ =~= Seq::new(3, |i: int| 0u8));
        r
    }

    /// No choice selected.
    pub fn empty() -> (r: Self)
        ensures
            r@ == Seq::new(3, |i: int| 0u8),
            no_flags(r@),
    {
        Self::new()
    }

    /// Every choice selected with weight one.
    pub fn all() -> (r: Self)
        ensures
            r@ == Seq::new(3, |i: int| 1u8),
    {
        let r = Self { NONE: 1, ALTERNATE: 1, RANDOM: 1 };
        assert(r@ =~= Seq::new(3, |i: int| 1u8));
        r
    }

    /// Only "None" selected.
    pub fn NONE() -> (r: Self)
        ensures
            r@ == only_flag(3, 0),
    {
        let r = Self { NONE: 1, ALTERNATE: 0, RANDOM: 0 };
        assert(r@ =~= only_flag(3, 0));
        r
    }

    /// Only "Alternate" selected.
    pub fn ALTERNATE() -> (r: Self)
        ensures
            r@ == only_flag(3, 1),
    {
        let r = Self { NONE: 0, ALTERNATE: 1, RANDOM: 0 };
        assert(r@ =~= only_flag(3, 1));
        r
    }

    /// Only "Random" selected.
    pub fn RANDOM() -> (r: Self)
        ensures
            r@ == only_flag(3, 2),
    {
        let r = Self { NONE: 0, ALTERNATE: 0, RANDOM: 1 };
        assert(r@ =~= only_flag(3, 2));
        r
    }

    /// The weights, in choice order.
    pub fn to_vec(&self) -> (v: Vec<u8>)
        ensures
            v@ == self@,
    {
        let v = vec![self.NONE, self.ALTERNATE, self.RANDOM];
        assert(v@ =~= self@);
        v
    }

    /// The option with the given weights, in choice order.
    pub fn from_weights(w: &Vec<u8>) -> (r: Self)
        requires
            w@.len() == 3,
        ensures
            r@ == w@,
    {
        let r = Self { NONE: w[0], ALTERNATE: w[1], RANDOM: w[2] };
        assert(r@ =~= w@);
        r
    }

    /// Whether every choice selected in `other` is selected here.
    pub fn contains(&self, other: &Self) -> (b: bool)
        ensures
            b == flags_contains(self@, other@),
    {
        contains_weights(&self.to_vec(), &other.to_vec())
    }

    /// Choice-wise saturating sum of the weights.
    pub fn union(&self, other: Self) -> (r: Self)
        ensures
            r@ == flags_union(self@, other@),
    {
        Self::from_weights(&union_weights(&self.to_vec(), &other.to_vec()))
    }

    /// The weights of this option for the choices selected in `other`.
    pub fn left_intersection(&self, other: Self) -> (r: Self)
        ensures
            r@ == flags_left_intersection(self@, other@),
    {
        Self::from_weights(&left_intersection_weights(&self.to_vec(), &other.to_vec()))
    }

    /// A random single choice among the selected ones, in proportion to the weights;
    /// no choice when none is selected.
    pub fn get_random(&self) -> (r: Self)
        ensures
            is_random_pick(r@, self@),
    {
        Self::from_weights(&random_weights(&self.to_vec()))
    }

    /// The names of the selected choices joined with `" + "`.
    pub fn to_string(&self) -> (s: String)
        ensures
            s@ == flags_display(self@, Self::spec_names()),
    {
        display_weights(&self.to_vec(), &Self::names())
    }

    /// The menu page of this option: one toggle per choice, or a slider.
    pub fn to_submenu(title: &'static str, id: &'static str, help_text: &'static str, submenu_type: SubMenuType) -> (s: SubMenu)
        ensures
            submenu_matches(s, Self::spec_names(), title@, id@, help_text@, submenu_type),
    {
        submenu_from_names(Self::names(), title, id, help_text, submenu_type)
    }
}

/// A toggle.
#[derive(Clone, Copy, Debug, PartialEq, Eq, Structural)]
pub struct OnOff {
    pub ON: u8,
    pub OFF: u8,
}

impl View for OnOff {
    type V = Seq<u8>;

    open spec fn view(&self) -> Seq<u8> {
        seq![self.ON, self.OFF]
    }
}

impl OnOff {
    /// Number of choices.
    pub open spec fn choices() -> nat {
        2
    }

    /// Display names of the choices, in order.
    pub open spec fn spec_names() -> Seq<Seq<char>> {
        seq!["On"@, "Off"@]
    }

    /// Display names of the choices, in order.
    pub fn names() -> (v: Vec<&'static str>)
        ensures
            v@.len() == Self::choices(),
            v@.map_values(|s: &str| s@) == Self::spec_names(),
    {
        let v = vec!["On", "Off"];
        assert(v@.map_values(|s: &str| s@) =~= Self::spec_names());
        v
    }

    /// No choice selected.
    pub fn new() -> (r: Self)
        ensures
            r@ == Seq::new(2, |i: int| 0u8),
    {
        let r = Self { ON: 0, OFF: 0 };
        assert(r@ =~= Seq::new(2, |i: int| 0u8));
        r
    }

    /// No choice selected.
    pub fn empty() -> (r: Self)
        ensures
            r@ == Seq::new(2, |i: int| 0u8),
            no_flags(r@),
    {
        Self::new()
    }

    /// Every choice selected with weight one.
    pub fn all() -> (r: Self)
        ensures
            r@ == Seq::new(2, |i: int| 1u8),
    {
        let r = Self { ON: 1, OFF: 1 };
        assert(r@ =~= Seq::new(2, |i: int| 1u8));
        r
    }

    /// Only "On" selected.
    pub fn ON() -> (r: Self)
        ensures
            r@ == only_flag(2, 0),
    {
        let r = Self { ON: 1, OFF: 0 };
        assert(r@ =~= only_flag(2, 0));
        r
    }

    /// Only "Off" selected.
    pub fn OFF() -> (r: Self)
        ensures
            r@ == only_flag(2, 1),
    {
        let r = Self { ON: 0, OFF: 1 };
        assert(r@ =~= only_flag(2, 1));
        r
    }

    /// The weights, in choice order.
    pub fn to_vec(&self) -> (v: Vec<u8>)
        ensures
            v@ == self@,
    {
        let v = vec![self.ON, self.OFF];
        assert(v@ =~= self@);
        v
    }

    /// The option with the given weights, in choice order.
    pub fn from_weights(w: &Vec<u8>) -> (r: Self)
        requires
            w@.len() == 2,
        ensures
            r@ == w@,
    {
        let r = Self { ON: w[0], OFF: w[1] };
        assert(r@ =~= w@);
        r
    }

    /// Whether every choice selected in `other` is selected here.
    pub fn contains(&self, other: &Self) -> (b: bool)
        ensures
            b == flags_contains(self@, other@),
    {
        contains_weights(&self.to_vec(), &other.to_vec())
    }

    /// Choice-wise saturating sum of the weights.
    pub fn union(&self, other: Self) -> (r: Self)
        ensures
            r@ == flags_union(self@, other@),
    {
        Self::from_weights(&union_weights(&self.to_vec(), &other.to_vec()))
    }

    /// The weights of this option for the choices selected in `other`.
    pub fn left_intersection(&self, other: Self) -> (r: Self)
        ensures
            r@ == flags_left_intersection(self@, other@),
    {
        Self::from_weights(&left_intersection_weights(&self.to_vec(), &other.to_vec()))
    }

    /// A random single choice among the selected ones, in proportion to the weights;
    /// no choice when none is selected.
    pub fn get_random(&self) -> (r: Self)
        ensures
            is_random_pick(r@, self@),
    {
        Self::from_weights(&random_weights(&self.to_vec()))
    }

    /// The names of the selected choices joined with `" + "`.
    pub fn to_string(&self) -> (s: String)
        ensures
            s@ == flags_display(self@, Self::spec_names()),
    {
        display_weights(&self.to_vec(), &Self::names())
    }

    /// The menu page of this option: one toggle per choice, or a slider.
    pub fn to_submenu(title: &'static str, id: &'static str, help_text: &'static str, submenu_type: SubMenuType) -> (s: SubMenu)
        ensures
            submenu_matches(s, Self::spec_names(), title@, id@, help_text@, submenu_type),
    {
        submenu_from_names(Self::names(), title, id, help_text, submenu_type)
    }
}

/// Actions the CPU can mash.
#[derive(Clone, Copy, Debug, PartialEq, Eq, Structural)]
pub struct Action {
    pub AIR_DODGE: u8,
    pub JUMP: u8,
    pub SHIELD: u8,
    pub SPOT_DODGE: u8,
    pub ROLL_F: u8,
    pub ROLL_B: u8,
    pub NAIR: u8,
    pub FAIR: u8,
    pub BAIR: u8,
    pub UAIR: u8,
    pub DAIR: u8,
    pub NEUTRAL_B: u8,
    pub SIDE_B: u8,
    pub UP_B: u8,
    pub DOWN_B: u8,
    pub F_SMASH: u8,
    pub U_SMASH: u8,
    pub D_SMASH: u8,
    pub JAB: u8,
    pub F_TILT: u8,
    pub U_TILT: u8,
    pub D_TILT: u8,
    pub GRAB: u8,
    pub DASH: u8,
    pub DASH_ATTACK: u8,
    pub PLAYBACK_1: u8,
    pub PLAYBACK_2: u8,
    pub PLAYBACK_3: u8,
    pub PLAYBACK_4: u8,
    pub PLAYBACK_5: u8,
}

impl View for Action {
    type V = Seq<u8>;

    open spec fn view(&self) -> Seq<u8> {
        seq![self.AIR_DODGE, self.JUMP, self.SHIELD, self.SPOT_DODGE, self.ROLL_F, self.ROLL_B, self.NAIR, self.FAIR, self.BAIR, self.UAIR, self.DAIR, self.NEUTRAL_B, self.SIDE_B, self.UP_B, self.DOWN_B, self.F_SMASH, self.U_SMASH, self.D_SMASH, self.JAB, self.F_TILT, self.U_TILT, self.D_TILT, self.GRAB, self.DASH, self.DASH_ATTACK, self.PLAYBACK_1, self.PLAYBACK_2, self.PLAYBACK_3, self.PLAYBACK_4, self.PLAYBACK_5]
    }
}

impl Action {
    /// Number of choices.
    pub open spec fn choices() -> nat {
        30
    }

    /// Display names of the choices, in order.
    pub open spec fn spec_names() -> Seq<Seq<char>> {
        seq!["Air Dodge"@, "Jump"@, "Shield"@, "Spot Dodge"@, "Roll Forwards"@, "Roll Backwards"@, "Neutral Air"@, "Forward Air"@, "Back Air"@, "Up Air"@, "Down Air"@, "Neutral Special"@, "Side Special"@, "Up Special"@, "Down Special"@, "Forward Smash"@, "Up Smash"@, "Down Smash"@, "Jab"@, "Forward Tilt"@, "Up Tilt"@, "Down Tilt"@, "Grab"@, "Dash"@, "Dash Attack"@, "Playback Slot 1"@, "Playback Slot 2"@, "Playback Slot 3"@, "Playback Slot 4"@, "Playback Slot 5"@]
    }

    /// Display names of the choices, in order.
    pub fn names() -> (v: Vec<&'static str>)
        ensures
            v@.len() == Self::choices(),
            v@.map_values(|s: &str| s@) == Self::spec_names(),
    {
        let v = vec!["Air Dodge", "Jump", "Shield", "Spot Dodge", "Roll Forwards", "Roll Backwards", "Neutral Air", "Forward Air", "Back Air", "Up Air", "Down Air", "Neutral Special", "Side Special", "Up Special", "Down Special", "Forward Smash", "Up Smash", "Down Smash", "Jab", "Forward Tilt", "Up Tilt", "Down Tilt", "Grab", "Dash", "Dash Attack", "Playback Slot 1", "Playback Slot 2", "Playback Slot 3", "Playback Slot 4", "Playback Slot 5"];
        assert(v@.map_values(|s: &str| s@) =~= Self::spec_names());
        v
    }

    /// No choice selected.
    pub fn new() -> (r: Self)
        ensures
            r@ == Seq::new(30, |i: int| 0u8),
    {
        let r = Self { AIR_DODGE: 0, JUMP: 0, SHIELD: 0, SPOT_DODGE: 0, ROLL_F: 0, ROLL_B: 0, NAIR: 0, FAIR: 0, BAIR: 0, UAIR: 0, DAIR: 0, NEUTRAL_B: 0, SIDE_B: 0, UP_B: 0, DOWN_B: 0, F_SMASH: 0, U_SMASH: 0, D_SMASH: 0, JAB: 0, F_TILT: 0, U_TILT: 0, D_TILT: 0, GRAB: 0, DASH: 0, DASH_ATTACK: 0, PLAYBACK_1: 0, PLAYBACK_2: 0, PLAYBACK_3: 0, PLAYBACK_4: 0, PLAYBACK_5: 0 };
        assert(r@ =~= Seq::new(30, |i: int| 0u8));
        r
    }

    /// No choice selected.
    pub fn empty() -> (r: Self)
        ensures
            r@ == Seq::new(30, |i: int| 0u8),
            no_flags(r@),
    {
        Self::new()
    }

    /// Every choice selected with weight one.
    pub fn all() -> (r: Self)
        ensures
            r@ == Seq::new(30, |i: int| 1u8),
    {
        let r = Self { AIR_DODGE: 1, JUMP: 1, SHIELD: 1, SPOT_DODGE: 1, ROLL_F: 1, ROLL_B: 1, NAIR: 1, FAIR: 1, BAIR: 1, UAIR: 1, DAIR: 1, NEUTRAL_B: 1, SIDE_B: 1, UP_B: 1, DOWN_B: 1, F_SMASH: 1, U_SMASH: 1, D_SMASH: 1, JAB: 1, F_TILT: 1, U_TILT: 1, D_TILT: 1, GRAB: 1, DASH: 1, DASH_ATTACK: 1, PLAYBACK_1: 1, PLAYBACK_2: 1, PLAYBACK_3: 1, PLAYBACK_4: 1, PLAYBACK_5: 1 };
        assert(r@ =~= Seq::new(30, |i: int| 1u8));
        r
    }

    /// Only "Air Dodge" selected.
    pub fn AIR_DODGE() -> (r: Self)
        ensures
            r@ == only_flag(30, 0),
    {
        let r = Self { AIR_DODGE: 1, JUMP: 0, SHIELD: 0, SPOT_DODGE: 0, ROLL_F: 0, ROLL_B: 0, NAIR: 0, FAIR: 0, BAIR: 0, UAIR: 0, DAIR: 0, NEUTRAL_B: 0, SIDE_B: 0, UP_B: 0, DOWN_B: 0, F_SMASH: 0, U_SMASH: 0, D_SMASH: 0, JAB: 0, F_TILT: 0, U_TILT: 0, D_TILT: 0, GRAB: 0, DASH: 0, DASH_ATTACK: 0, PLAYBACK_1: 0, PLAYBACK_2: 0, PLAYBACK_3: 0, PLAYBACK_4: 0, PLAYBACK_5: 0 };
        assert(r@ =~= only_flag(30, 0));
        r
    }

    /// Only "Jump" selected.
    pub fn JUMP() -> (r: Self)
        ensures
            r@ == only_flag(30, 1),
    {
        let r = Self { AIR_DODGE: 0, JUMP: 1, SHIELD: 0, SPOT_DODGE: 0, ROLL_F: 0, ROLL_B: 0, NAIR: 0, FAIR: 0, BAIR: 0, UAIR: 0, DAIR: 0, NEUTRAL_B: 0, SIDE_B: 0, UP_B: 0, DOWN_B: 0, F_SMASH: 0, U_SMASH: 0, D_SMASH: 0, JAB: 0, F_TILT: 0, U_TILT: 0, D_TILT: 0, GRAB: 0, DASH: 0, DASH_ATTACK: 0, PLAYBACK_1: 0, PLAYBACK_2: 0, PLAYBACK_3: 0, PLAYBACK_4: 0, PLAYBACK_5: 0 };
        assert(r@ =~= only_flag(30, 1));
        r
    }

    /// Only "Shield" selected.
    pub fn SHIELD() -> (r: Self)
        ensures
            r@ == only_flag(30, 2),
    {
        let r = Self { AIR_DODGE: 0, JUMP: 0, SHIELD: 1, SPOT_DODGE: 0, ROLL_F: 0, ROLL_B: 0, NAIR: 0, FAIR: 0, BAIR: 0, UAIR: 0, DAIR: 0, NEUTRAL_B: 0, SIDE_B: 0, UP_B: 0, DOWN_B: 0, F_SMASH: 0, U_SMASH: 0, D_SMASH: 0, JAB: 0, F_TILT: 0, U_TILT: 0, D_TILT: 0, GRAB: 0, DASH: 0, DASH_ATTACK: 0, PLAYBACK_1: 0, PLAYBACK_2: 0, PLAYBACK_3: 0, PLAYBACK_4: 0, PLAYBACK_5: 0 };
        assert(r@ =~= only_flag(30, 2));
        r
    }

    /// Only "Spot Dodge" selected.
    pub fn SPOT_DODGE() -> (r: Self)
        ensures
            r@ == only_flag(30, 3),
    {
        let r = Self { AIR_DODGE: 0, JUMP: 0, SHIELD: 0, SPOT_DODGE: 1, ROLL_F: 0, ROLL_B: 0, NAIR: 0, FAIR: 0, BAIR: 0, UAIR: 0, DAIR: 0, NEUTRAL_B: 0, SIDE_B: 0, UP_B: 0, DOWN_B: 0, F_SMASH: 0, U_SMASH: 0, D_SMASH: 0, JAB: 0, F_TILT: 0, U_TILT: 0, D_TILT: 0, GRAB: 0, DASH: 0, DASH_ATTACK: 0, PLAYBACK_1: 0, PLAYBACK_2: 0, PLAYBACK_3: 0, PLAYBACK_4: 0, PLAYBACK_5: 0 };
        assert(r@ =~= only_flag(30, 3));
        r
    }

    /// Only "Roll Forwards" selected.
    pub fn ROLL_F() -> (r: Self)
        ensures
            r@ == only_flag(30, 4),
    {
        let r = Self { AIR_DODGE: 0, JUMP: 0, SHIELD: 0, SPOT_DODGE: 0, ROLL_F: 1, ROLL_B: 0, NAIR: 0, FAIR: 0, BAIR: 0, UAIR: 0, DAIR: 0, NEUTRAL_B: 0, SIDE_B: 0, UP_B: 0, DOWN_B: 0, F_SMASH: 0, U_SMASH: 0, D_SMASH: 0, JAB: 0, F_TILT: 0, U_TILT: 0, D_TILT: 0, GRAB: 0, DASH: 0, DASH_ATTACK: 0, PLAYBACK_1: 0, PLAYBACK_2: 0, PLAYBACK_3: 0, PLAYBACK_4: 0, PLAYBACK_5: 0 };
        assert(r@ =~= only_flag(30, 4));
        r
    }

    /// Only "Roll Backwards" selected.
    pub fn ROLL_B() -> (r: Self)
        ensures
            r@ == only_flag(30, 5),
    {
        let r = Self { AIR_DODGE: 0, JUMP: 0, SHIELD: 0, SPOT_DODGE: 0, ROLL_F: 0, ROLL_B: 1, NAIR: 0, FAIR: 0, BAIR: 0, UAIR: 0, DAIR: 0, NEUTRAL_B: 0, SIDE_B: 0, UP_B: 0, DOWN_B: 0, F_SMASH: 0, U_SMASH: 0, D_SMASH: 0, JAB: 0, F_TILT: 0, U_TILT: 0, D_TILT: 0, GRAB: 0, DASH: 0, DASH_ATTACK: 0, PLAYBACK_1: 0, PLAYBACK_2: 0, PLAYBACK_3: 0, PLAYBACK_4: 0, PLAYBACK_5: 0 };
        assert(r@ =~= only_flag(30, 5));
        r
    }

    /// Only "Neutral Air" selected.
    pub fn NAIR() -> (r: Self)
        ensures
            r@ == only_flag(30, 6),
    {
        let r = Self { AIR_DODGE: 0, JUMP: 0, SHIELD: 0, SPOT_DODGE: 0, ROLL_F: 0, ROLL_B: 0, NAIR: 1, FAIR: 0, BAIR: 0, UAIR: 0, DAIR: 0, NEUTRAL_B: 0, SIDE_B: 0, UP_B: 0, DOWN_B: 0, F_SMASH: 0, U_SMASH: 0, D_SMASH: 0, JAB: 0, F_TILT: 0, U_TILT: 0, D_TILT: 0, GRAB: 0, DASH: 0, DASH_ATTACK: 0, PLAYBACK_1: 0, PLAYBACK_2: 0, PLAYBACK_3: 0, PLAYBACK_4: 0, PLAYBACK_5: 0 };
        assert(r@ =~= only_flag(30, 6));
        r
    }

    /// Only "Forward Air" selected.
    pub fn FAIR() -> (r: Self)
        ensures
            r@ == only_flag(30, 7),
    {
        let r = Self { AIR_DODGE: 0, JUMP: 0, SHIELD: 0, SPOT_DODGE: 0, ROLL_F: 0, ROLL_B: 0, NAIR: 0, FAIR: 1, BAIR: 0, UAIR: 0, DAIR: 0, NEUTRAL_B: 0, SIDE_B: 0, UP_B: 0, DOWN_B: 0, F_SMASH: 0, U_SMASH: 0, D_SMASH: 0, JAB: 0, F_TILT: 0, U_TILT: 0, D_TILT: 0, GRAB: 0, DASH: 0, DASH_ATTACK: 0, PLAYBACK_1: 0, PLAYBACK_2: 0, PLAYBACK_3: 0, PLAYBACK_4: 0, PLAYBACK_5: 0 };
        assert(r@ =~= only_flag(30, 7));
        r
    }

    /// Only "Back Air" selected.
    pub fn BAIR() -> (r: Self)
        ensures
            r@ == only_flag(30, 8),
    {
        let r = Self { AIR_DODGE: 0, JUMP: 0, SHIELD: 0, SPOT_DODGE: 0, ROLL_F: 0, ROLL_B: 0, NAIR: 0, FAIR: 0, BAIR: 1, UAIR: 0, DAIR: 0, NEUTRAL_B: 0, SIDE_B: 0, UP_B: 0, DOWN_B: 0, F_SMASH: 0, U_SMASH: 0, D_SMASH: 0, JAB: 0, F_TILT: 0, U_TILT: 0, D_TILT: 0, GRAB: 0, DASH: 0, DASH_ATTACK: 0, PLAYBACK_1: 0, PLAYBACK_2: 0, PLAYBACK_3: 0, PLAYBACK_4: 0, PLAYBACK_5: 0 };
        assert(r@ =~= only_flag(30, 8));
        r
    }

    /// Only "Up Air" selected.
    pub fn UAIR() -> (r: Self)
        ensures
            r@ == only_flag(30, 9),
    {
        let r = Self { AIR_DODGE: 0, JUMP: 0, SHIELD: 0, SPOT_DODGE: 0, ROLL_F: 0, ROLL_B: 0, NAIR: 0, FAIR: 0, BAIR: 0, UAIR: 1, DAIR: 0, NEUTRAL_B: 0, SIDE_B: 0, UP_B: 0, DOWN_B: 0, F_SMASH: 0, U_SMASH: 0, D_SMASH: 0, JAB: 0, F_TILT: 0, U_TILT: 0, D_TILT: 0, GRAB: 0, DASH: 0, DASH_ATTACK: 0, PLAYBACK_1: 0, PLAYBACK_2: 0, PLAYBACK_3: 0, PLAYBACK_4: 0, PLAYBACK_5: 0 };
        assert(r@ =~= only_flag(30, 9));
        r
    }

    /// Only "Down Air" selected.
    pub fn DAIR() -> (r: Self)
        ensures
            r@ == only_flag(30, 10),
    {
        let r = Self { AIR_DODGE: 0, JUMP: 0, SHIELD: 0, SPOT_DODGE: 0, ROLL_F: 0, ROLL_B: 0, NAIR: 0, FAIR: 0, BAIR: 0, UAIR: 0, DAIR: 1, NEUTRAL_B: 0, SIDE_B: 0, UP_B: 0, DOWN_B: 0, F_SMASH: 0, U_SMASH: 0, D_SMASH: 0, JAB: 0, F_TILT: 0, U_TILT: 0, D_TILT: 0, GRAB: 0, DASH: 0, DASH_ATTACK: 0, PLAYBACK_1: 0, PLAYBACK_2: 0, PLAYBACK_3: 0, PLAYBACK_4: 0, PLAYBACK_5: 0 };
        assert(r@ =~= only_flag(30, 10));
        r
    }

    /// Only "Neutral Special" selected.
    pub fn NEUTRAL_B() -> (r: Self)
        ensures
            r@ == only_flag(30, 11),
    {
        let r = Self { AIR_DODGE: 0, JUMP: 0, SHIELD: 0, SPOT_DODGE: 0, ROLL_F: 0, ROLL_B: 0, NAIR: 0, FAIR: 0, BAIR: 0, UAIR: 0, DAIR: 0, NEUTRAL_B: 1, SIDE_B: 0, UP_B: 0, DOWN_B: 0, F_SMASH: 0, U_SMASH: 0, D_SMASH: 0, JAB: 0, F_TILT: 0, U_TILT: 0, D_TILT: 0, GRAB: 0, DASH: 0, DASH_ATTACK: 0, PLAYBACK_1: 0, PLAYBACK_2: 0, PLAYBACK_3: 0, PLAYBACK_4: 0, PLAYBACK_5: 0 };
        assert(r@ =~= only_flag(30, 11));
        r
    }

    /// Only "Side Special" selected.
    pub fn SIDE_B() -> (r: Self)
        ensures
            r@ == only_flag(30, 12),
    {
        let r = Self { AIR_DODGE: 0, JUMP: 0, SHIELD: 0, SPOT_DODGE: 0, ROLL_F: 0, ROLL_B: 0, NAIR: 0, FAIR: 0, BAIR: 0, UAIR: 0, DAIR: 0, NEUTRAL_B: 0, SIDE_B: 1, UP_B: 0, DOWN_B: 0, F_SMASH: 0, U_SMASH: 0, D_SMASH: 0, JAB: 0, F_TILT: 0, U_TILT: 0, D_TILT: 0, GRAB: 0, DASH: 0, DASH_ATTACK: 0, PLAYBACK_1: 0, PLAYBACK_2: 0, PLAYBACK_3: 0, PLAYBACK_4: 0, PLAYBACK_5: 0 };
        assert(r@ =~= only_flag(30, 12));
        r
    }

    /// Only "Up Special" selected.
    pub fn UP_B() -> (r: Self)
        ensures
            r@ == only_flag(30, 13),
    {
        let r = Self { AIR_DODGE: 0, JUMP: 0, SHIELD: 0, SPOT_DODGE: 0, ROLL_F: 0, ROLL_B: 0, NAIR: 0, FAIR: 0, BAIR: 0, UAIR: 0, DAIR: 0, NEUTRAL_B: 0, SIDE_B: 0, UP_B: 1, DOWN_B: 0, F_SMASH: 0, U_SMASH: 0, D_SMASH: 0, JAB: 0, F_TILT: 0, U_TILT: 0, D_TILT: 0, GRAB: 0, DASH: 0, DASH_ATTACK: 0, PLAYBACK_1: 0, PLAYBACK_2: 0, PLAYBACK_3: 0, PLAYBACK_4: 0, PLAYBACK_5: 0 };
        assert(r@ =~= only_flag(30, 13));
        r
    }

    /// Only "Down Special" selected.
    pub fn DOWN_B() -> (r: Self)
        ensures
            r@ == only_flag(30, 14),
    {
        let r = Self { AIR_DODGE: 0, JUMP: 0, SHIELD: 0, SPOT_DODGE: 0, ROLL_F: 0, ROLL_B: 0, NAIR: 0, FAIR: 0, BAIR: 0, UAIR: 0, DAIR: 0, NEUTRAL_B: 0, SIDE_B: 0, UP_B: 0, DOWN_B: 1, F_SMASH: 0, U_SMASH: 0, D_SMASH: 0, JAB: 0, F_TILT: 0, U_TILT: 0, D_TILT: 0, GRAB: 0, DASH: 0, DASH_ATTACK: 0, PLAYBACK_1: 0, PLAYBACK_2: 0, PLAYBACK_3: 0, PLAYBACK_4: 0, PLAYBACK_5: 0 };
        assert(r@ =~= only_flag(30, 14));
        r
    }

    /// Only "Forward Smash" selected.
    pub fn F_SMASH() -> (r: Self)
        ensures
            r@ == only_flag(30, 15),
    {
        let r = Self { AIR_DODGE: 0, JUMP: 0, SHIELD: 0, SPOT_DODGE: 0, ROLL_F: 0, ROLL_B: 0, NAIR: 0, FAIR: 0, BAIR: 0, UAIR: 0, DAIR: 0, NEUTRAL_B: 0, SIDE_B: 0, UP_B: 0, DOWN_B: 0, F_SMASH: 1, U_SMASH: 0, D_SMASH: 0, JAB: 0, F_TILT: 0, U_TILT: 0, D_TILT: 0, GRAB: 0, DASH: 0, DASH_ATTACK: 0, PLAYBACK_1: 0, PLAYBACK_2: 0, PLAYBACK_3: 0, PLAYBACK_4: 0, PLAYBACK_5: 0 };
        assert(r@ =~= only_flag(30, 15));
        r
    }

    /// Only "Up Smash" selected.
    pub fn U_SMASH() -> (r: Self)
        ensures
            r@ == only_flag(30, 16),
    {
        let r = Self { AIR_DODGE: 0, JUMP: 0, SHIELD: 0, SPOT_DODGE: 0, ROLL_F: 0, ROLL_B: 0, NAIR: 0, FAIR: 0, BAIR: 0, UAIR: 0, DAIR: 0, NEUTRAL_B: 0, SIDE_B: 0, UP_B: 0, DOWN_B: 0, F_SMASH: 0, U_SMASH: 1, D_SMASH: 0, JAB: 0, F_TILT: 0, U_TILT: 0, D_TILT: 0, GRAB: 0, DASH: 0, DASH_ATTACK: 0, PLAYBACK_1: 0, PLAYBACK_2: 0, PLAYBACK_3: 0, PLAYBACK_4: 0, PLAYBACK_5: 0 };
        assert(r@ =~= only_flag(30, 16));
        r
    }

    /// Only "Down Smash" selected.
    pub fn D_SMASH() -> (r: Self)
        ensures
            r@ == only_flag(30, 17),
    {
        let r = Self { AIR_DODGE: 0, JUMP: 0, SHIELD: 0, SPOT_DODGE: 0, ROLL_F: 0, ROLL_B: 0, NAIR: 0, FAIR: 0, BAIR: 0, UAIR: 0, DAIR: 0, NEUTRAL_B: 0, SIDE_B: 0, UP_B: 0, DOWN_B: 0, F_SMASH: 0, U_SMASH: 0, D_SMASH: 1, JAB: 0, F_TILT: 0, U_TILT: 0, D_TILT: 0, GRAB: 0, DASH: 0, DASH_ATTACK: 0, PLAYBACK_1: 0, PLAYBACK_2: 0, PLAYBACK_3: 0, PLAYBACK_4: 0, PLAYBACK_5: 0 };
        assert(r@ =~= only_flag(30, 17));
        r
    }

    /// Only "Jab" selected.
    pub fn JAB() -> (r: Self)
        ensures
            r@ == only_flag(30, 18),
    {
        let r = Self { AIR_DODGE: 0, JUMP: 0, SHIELD: 0, SPOT_DODGE: 0, ROLL_F: 0, ROLL_B: 0, NAIR: 0, FAIR: 0, BAIR: 0, UAIR: 0, DAIR: 0, NEUTRAL_B: 0, SIDE_B: 0, UP_B: 0, DOWN_B: 0, F_SMASH: 0, U_SMASH: 0, D_SMASH: 0, JAB: 1, F_TILT: 0, U_TILT: 0, D_TILT: 0, GRAB: 0, DASH: 0, DASH_ATTACK: 0, PLAYBACK_1: 0, PLAYBACK_2: 0, PLAYBACK_3: 0, PLAYBACK_4: 0, PLAYBACK_5: 0 };
        assert(r@ =~= only_flag(30, 18));
        r
    }

    /// Only "Forward Tilt" selected.
    pub fn F_TILT() -> (r: Self)
        ensures
            r@ == only_flag(30, 19),
    {
        let r = Self { AIR_DODGE: 0, JUMP: 0, SHIELD: 0, SPOT_DODGE: 0, ROLL_F: 0, ROLL_B: 0, NAIR: 0, FAIR: 0, BAIR: 0, UAIR: 0, DAIR: 0, NEUTRAL_B: 0, SIDE_B: 0, UP_B: 0, DOWN_B: 0, F_SMASH: 0, U_SMASH: 0, D_SMASH: 0, JAB: 0, F_TILT: 1, U_TILT: 0, D_TILT: 0, GRAB: 0, DASH: 0, DASH_ATTACK: 0, PLAYBACK_1: 0, PLAYBACK_2: 0, PLAYBACK_3: 0, PLAYBACK_4: 0, PLAYBACK_5: 0 };
        assert(r@ =~= only_flag(30, 19));
        r
    }

    /// Only "Up Tilt" selected.
    pub fn U_TILT() -> (r: Self)
        ensures
            r@ == only_flag(30, 20),
    {
        let r = Self { AIR_DODGE: 0, JUMP: 0, SHIELD: 0, SPOT_DODGE: 0, ROLL_F: 0, ROLL_B: 0, NAIR: 0, FAIR: 0, BAIR: 0, UAIR: 0, DAIR: 0, NEUTRAL_B: 0, SIDE_B: 0, UP_B: 0, DOWN_B: 0, F_SMASH: 0, U_SMASH: 0, D_SMASH: 0, JAB: 0, F_TILT: 0, U_TILT: 1, D_TILT: 0, GRAB: 0, DASH: 0, DASH_ATTACK: 0, PLAYBACK_1: 0, PLAYBACK_2: 0, PLAYBACK_3: 0, PLAYBACK_4: 0, PLAYBACK_5: 0 };
        assert(r@ =~= only_flag(30, 20));
        r
    }

    /// Only "Down Tilt" selected.
    pub fn D_TILT() -> (r: Self)
        ensures
            r@ == only_flag(30, 21),
    {
        let r = Self { AIR_DODGE: 0, JUMP: 0, SHIELD: 0, SPOT_DODGE: 0, ROLL_F: 0, ROLL_B: 0, NAIR: 0, FAIR: 0, BAIR: 0, UAIR: 0, DAIR: 0, NEUTRAL_B: 0, SIDE_B: 0, UP_B: 0, DOWN_B: 0, F_SMASH: 0, U_SMASH: 0, D_SMASH: 0, JAB: 0, F_TILT: 0, U_TILT: 0, D_TILT: 1, GRAB: 0, DASH: 0, DASH_ATTACK: 0, PLAYBACK_1: 0, PLAYBACK_2: 0, PLAYBACK_3: 0, PLAYBACK_4: 0, PLAYBACK_5: 0 };
        assert(r@ =~= only_flag(30, 21));
        r
    }

    /// Only "Grab" selected.
    pub fn GRAB() -> (r: Self)
        ensures
            r@ == only_flag(30, 22),
    {
        let r = Self { AIR_DODGE: 0, JUMP: 0, SHIELD: 0, SPOT_DODGE: 0, ROLL_F: 0, ROLL_B: 0, NAIR: 0, FAIR: 0, BAIR: 0, UAIR: 0, DAIR: 0, NEUTRAL_B: 0, SIDE_B: 0, UP_B: 0, DOWN_B: 0, F_SMASH: 0, U_SMASH: 0, D_SMASH: 0, JAB: 0, F_TILT: 0, U_TILT: 0, D_TILT: 0, GRAB: 1, DASH: 0, DASH_ATTACK: 0, PLAYBACK_1: 0, PLAYBACK_2: 0, PLAYBACK_3: 0, PLAYBACK_4: 0, PLAYBACK_5: 0 };
        assert(r@ =~= only_flag(30, 22));
        r
    }

    /// Only "Dash" selected.
    pub fn DASH() -> (r: Self)
        ensures
            r@ == only_flag(30, 23),
    {
        let r = Self { AIR_DODGE: 0, JUMP: 0, SHIELD: 0, SPOT_DODGE: 0, ROLL_F: 0, ROLL_B: 0, NAIR: 0, FAIR: 0, BAIR: 0, UAIR: 0, DAIR: 0, NEUTRAL_B: 0, SIDE_B: 0, UP_B: 0, DOWN_B: 0, F_SMASH: 0, U_SMASH: 0, D_SMASH: 0, JAB: 0, F_TILT: 0, U_TILT: 0, D_TILT: 0, GRAB: 0, DASH: 1, DASH_ATTACK: 0, PLAYBACK_1: 0, PLAYBACK_2: 0, PLAYBACK_3: 0, PLAYBACK_4: 0, PLAYBACK_5: 0 };
        assert(r@ =~= only_flag(30, 23));
        r
    }

    /// Only "Dash Attack" selected.
    pub fn DASH_ATTACK() -> (r: Self)
        ensures
            r@ == only_flag(30, 24),
    {
        let r = Self { AIR_DODGE: 0, JUMP: 0, SHIELD: 0, SPOT_DODGE: 0, ROLL_F: 0, ROLL_B: 0, NAIR: 0, FAIR: 0, BAIR: 0, UAIR: 0, DAIR: 0, NEUTRAL_B: 0, SIDE_B: 0, UP_B: 0, DOWN_B: 0, F_SMASH: 0, U_SMASH: 0, D_SMASH: 0, JAB: 0, F_TILT: 0, U_TILT: 0, D_TILT: 0, GRAB: 0, DASH: 0, DASH_ATTACK: 1, PLAYBACK_1: 0, PLAYBACK_2: 0, PLAYBACK_3: 0, PLAYBACK_4: 0, PLAYBACK_5: 0 };
        assert(r@ =~= only_flag(30, 24));
        r
    }

    /// Only "Playback Slot 1" selected.
    pub fn PLAYBACK_1() -> (r: Self)
        ensures
            r@ == only_flag(30, 25),
    {
        let r = Self { AIR_DODGE: 0, JUMP: 0, SHIELD: 0, SPOT_DODGE: 0, ROLL_F: 0, ROLL_B: 0, NAIR: 0, FAIR: 0, BAIR: 0, UAIR: 0, DAIR: 0, NEUTRAL_B: 0, SIDE_B: 0, UP_B: 0, DOWN_B: 0, F_SMASH: 0, U_SMASH: 0, D_SMASH: 0, JAB: 0, F_TILT: 0, U_TILT: 0, D_TILT: 0, GRAB: 0, DASH: 0, DASH_ATTACK: 0, PLAYBACK_1: 1, PLAYBACK_2: 0, PLAYBACK_3: 0, PLAYBACK_4: 0, PLAYBACK_5: 0 };
        assert(r@ =~= only_flag(30, 25));
        r
    }

    /// Only "Playback Slot 2" selected.
    pub fn PLAYBACK_2() -> (r: Self)
        ensures
            r@ == only_flag(30, 26),
    {
        let r = Self { AIR_DODGE: 0, JUMP: 0, SHIELD: 0, SPOT_DODGE: 0, ROLL_F: 0, ROLL_B: 0, NAIR: 0, FAIR: 0, BAIR: 0, UAIR: 0, DAIR: 0, NEUTRAL_B: 0, SIDE_B: 0, UP_B: 0, DOWN_B: 0, F_SMASH: 0, U_SMASH: 0, D_SMASH: 0, JAB: 0, F_TILT: 0, U_TILT: 0, D_TILT: 0, GRAB: 0, DASH: 0, DASH_ATTACK: 0, PLAYBACK_1: 0, PLAYBACK_2: 1, PLAYBACK_3: 0, PLAYBACK_4: 0, PLAYBACK_5: 0 };
        assert(r@ =~= only_flag(30, 26));
        r
    }

    /// Only "Playback Slot 3" selected.
    pub fn PLAYBACK_3() -> (r: Self)
        ensures
            r@ == only_flag(30, 27),
    {
        let r = Self { AIR_DODGE: 0, JUMP: 0, SHIELD: 0, SPOT_DODGE: 0, ROLL_F: 0, ROLL_B: 0, NAIR: 0, FAIR: 0, BAIR: 0, UAIR: 0, DAIR: 0, NEUTRAL_B: 0, SIDE_B: 0, UP_B: 0, DOWN_B: 0, F_SMASH: 0, U_SMASH: 0, D_SMASH: 0, JAB: 0, F_TILT: 0, U_TILT: 0, D_TILT: 0, GRAB: 0, DASH: 0, DASH_ATTACK: 0, PLAYBACK_1: 0, PLAYBACK_2: 0, PLAYBACK_3: 1, PLAYBACK_4: 0, PLAYBACK_5: 0 };
        assert(r@ =~= only_flag(30, 27));
        r
    }

    /// Only "Playback Slot 4" selected.
    pub fn PLAYBACK_4() -> (r: Self)
        ensures
            r@ == only_flag(30, 28),
    {
        let r = Self { AIR_DODGE: 0, JUMP: 0, SHIELD: 0, SPOT_DODGE: 0, ROLL_F: 0, ROLL_B: 0, NAIR: 0, FAIR: 0, BAIR: 0, UAIR: 0, DAIR: 0, NEUTRAL_B: 0, SIDE_B: 0, UP_B: 0, DOWN_B: 0, F_SMASH: 0, U_SMASH: 0, D_SMASH: 0, JAB: 0, F_TILT: 0, U_TILT: 0, D_TILT: 0, GRAB: 0, DASH: 0, DASH_ATTACK: 0, PLAYBACK_1: 0, PLAYBACK_2: 0, PLAYBACK_3: 0, PLAYBACK_4: 1, PLAYBACK_5: 0 };
        assert(r@ =~= only_flag(30, 28));
        r
    }

    /// Only "Playback Slot 5" selected.
    pub fn PLAYBACK_5() -> (r: Self)
        ensures
            r@ == only_flag(30, 29),
    {
        let r = Self { AIR_DODGE: 0, JUMP: 0, SHIELD: 0, SPOT_DODGE: 0, ROLL_F: 0, ROLL_B: 0, NAIR: 0, FAIR: 0, BAIR: 0, UAIR: 0, DAIR: 0, NEUTRAL_B: 0, SIDE_B: 0, UP_B: 0, DOWN_B: 0, F_SMASH: 0, U_SMASH: 0, D_SMASH: 0, JAB: 0, F_TILT: 0, U_TILT: 0, D_TILT: 0, GRAB: 0, DASH: 0, DASH_ATTACK: 0, PLAYBACK_1: 0, PLAYBACK_2: 0, PLAYBACK_3: 0, PLAYBACK_4: 0, PLAYBACK_5: 1 };
        assert(r@ =~= only_flag(30, 29));
        r
    }

    /// The weights, in choice order.
    pub fn to_vec(&self) -> (v: Vec<u8>)
        ensures
            v@ == self@,
    {
        let v = vec![self.AIR_DODGE, self.JUMP, self.SHIELD, self.SPOT_DODGE, self.ROLL_F, self.ROLL_B, self.NAIR, self.FAIR, self.BAIR, self.UAIR, self.DAIR, self.NEUTRAL_B, self.SIDE_B, self.UP_B, self.DOWN_B, self.F_SMASH, self.U_SMASH, self.D_SMASH, self.JAB, self.F_TILT, self.U_TILT, self.D_TILT, self.GRAB, self.DASH, self.DASH_ATTACK, self.PLAYBACK_1, self.PLAYBACK_2, self.PLAYBACK_3, self.PLAYBACK_4, self.PLAYBACK_5];
        assert(v@ =~= self@);
        v
    }

    /// The option with the given weights, in choice order.
    pub fn from_weights(w: &Vec<u8>) -> (r: Self)
        requires
            w@.len() == 30,
        ensures
            r@ == w@,
    {
        let r = Self { AIR_DODGE: w[0], JUMP: w[1], SHIELD: w[2], SPOT_DODGE: w[3], ROLL_F: w[4], ROLL_B: w[5], NAIR: w[6], FAIR: w[7], BAIR: w[8], UAIR: w[9], DAIR: w[10], NEUTRAL_B: w[11], SIDE_B: w[12], UP_B: w[13], DOWN_B: w[14], F_SMASH: w[15], U_SMASH: w[16], D_SMASH: w[17], JAB: w[18], F_TILT: w[19], U_TILT: w[20], D_TILT: w[21], GRAB: w[22], DASH: w[23], DASH_ATTACK: w[24], PLAYBACK_1: w[25], PLAYBACK_2: w[26], PLAYBACK_3: w[27], PLAYBACK_4: w[28], PLAYBACK_5: w[29] };
        assert(r@ =~= w@);
        r
    }

    /// Whether every choice selected in `other` is selected here.
    pub fn contains(&self, other: &Self) -> (b: bool)
        ensures
            b == flags_contains(self@, other@),
    {
        contains_weights(&self.to_vec(), &other.to_vec())
    }

    /// Choice-wise saturating sum of the weights.
    pub fn union(&self, other: Self) -> (r: Self)
        ensures
            r@ == flags_union(self@, other@),
    {
        Self::from_weights(&union_weights(&self.to_vec(), &other.to_vec()))
    }

    /// The weights of this option for the choices selected in `other`.
    pub fn left_intersection(&self, other: Self) -> (r: Self)
        ensures
            r@ == flags_left_intersection(self@, other@),
    {
        Self::from_weights(&left_intersection_weights(&self.to_vec(), &other.to_vec()))
    }

    /// A random single choice among the selected ones, in proportion to the weights;
    /// no choice when none is selected.
    pub fn get_random(&self) -> (r: Self)
        ensures
            is_random_pick(r@, self@),
    {
        Self::from_weights(&random_weights(&self.to_vec()))
    }

    /// The names of the selected choices joined with `" + "`.
    pub fn to_string(&self) -> (s: String)
        ensures
            s@ == flags_display(self@, Self::spec_names()),
    {
        display_weights(&self.to_vec(), &Self::names())
    }

    /// The menu page of this option: one toggle per choice, or a slider.
    pub fn to_submenu(title: &'static str, id: &'static str, help_text: &'static str, submenu_type: SubMenuType) -> (s: SubMenu)
        ensures
            submenu_matches(s, Self::spec_names(), title@, id@, help_text@, submenu_type),
    {
        submenu_from_names(Self::names(), title, id, help_text, submenu_type)
    }
}

/// Angle of angled attacks.
#[derive(Clone, Copy, Debug, PartialEq, Eq, Structural)]
pub struct AttackAngle {
    pub NEUTRAL: u8,
    pub UP: u8,
    pub DOWN: u8,
}

impl View for AttackAngle {
    type V = Seq<u8>;

    open spec fn view(&self) -> Seq<u8> {
        seq![self.NEUTRAL, self.UP, self.DOWN]
    }
}

impl AttackAngle {
    /// Number of choices.
    pub open spec fn choices() -> nat {
        3
    }

    /// Display names of the choices, in order.
    pub open spec fn spec_names() -> Seq<Seq<char>> {
        seq!["Neutral"@, "Up"@, "Down"@]
    }

    /// Display names of the choices, in order.
    pub fn names() -> (v: Vec<&'static str>)
        ensures
            v@.len() == Self::choices(),
            v@.map_values(|s: &str| s@) == Self::spec_names(),
    {
        let v = vec!["Neutral", "Up", "Down"];
        assert(v@.map_values(|s: &str| s@) =~= Self::spec_names());
        v
    }

    /// No choice selected.
    pub fn new() -> (r: Self)
        ensures
            r@ == Seq::new(3, |i: int| 0u8),
    {
        let r = Self { NEUTRAL: 0, UP: 0, DOWN: 0 };
        assert(r@ =~= Seq::new(3, |i: int| 0u8));
        r
    }

    /// No choice selected.
    pub fn empty() -> (r: Self)
        ensures
            r@ == Seq::new(3, |i: int| 0u8),
            no_flags(r@),
    {
        Self::new()
    }

    /// Every choice selected with weight one.
    pub fn all() -> (r: Self)
        ensures
            r@ == Seq::new(3, |i: int| 1u8),
    {
        let r = Self { NEUTRAL: 1, UP: 1, DOWN: 1 };
        assert(r@ =~= Seq::new(3, |i: int| 1u8));
        r
    }

    /// Only "Neutral" selected.
    pub fn NEUTRAL() -> (r: Self)
        ensures
            r@ == only_flag(3, 0),
    {
        let r = Self { NEUTRAL: 1, UP: 0, DOWN: 0 };
        assert(r@ =~= only_flag(3, 0));
        r
    }

    /// Only "Up" selected.
    pub fn UP() -> (r: Self)
        ensures
            r@ == only_flag(3, 1),
    {
        let r = Self { NEUTRAL: 0, UP: 1, DOWN: 0 };
        assert(r@ =~= only_flag(3, 1));
        r
    }

    /// Only "Down" selected.
    pub fn DOWN() -> (r: Self)
        ensures
            r@ == only_flag(3, 2),
    {
        let r = Self { NEUTRAL: 0, UP: 0, DOWN: 1 };
        assert(r@ =~= only_flag(3, 2));
        r
    }

    /// The weights, in choice order.
    pub fn to_vec(&self) -> (v: Vec<u8>)
        ensures
            v@ == self@,
    {
        let v = vec![self.NEUTRAL, self.UP, self.DOWN];
        assert(v@ =~= self@);
        v
    }

    /// The option with the given weights, in choice order.
    pub fn from_weights(w: &Vec<u8>) -> (r: Self)
        requires
            w@.len() == 3,
        ensures
            r@ == w@,
    {
        let r = Self { NEUTRAL: w[0], UP: w[1], DOWN: w[2] };
        assert(r@ =~= w@);
        r
    }

    /// Whether every choice selected in `other` is selected here.
    pub fn contains(&self, other: &Self) -> (b: bool)
        ensures
            b == flags_contains(self@, other@),
    {
        contains_weights(&self.to_vec(), &other.to_vec())
    }

    /// Choice-wise saturating sum of the weights.
    pub fn union(&self, other: Self) -> (r: Self)
        ensures
            r@ == flags_union(self@, other@),
    {
        Self::from_weights(&union_weights(&self.to_vec(), &other.to_vec()))
    }

    /// The weights of this option for the choices selected in `other`.
    pub fn left_intersection(&self, other: Self) -> (r: Self)
        ensures
            r@ == flags_left_intersection(self@, other@),
    {
        Self::from_weights(&left_intersection_weights(&self.to_vec(), &other.to_vec()))
    }

    /// A random single choice among the selected ones, in proportion to the weights;
    /// no choice when none is selected.
    pub fn get_random(&self) -> (r: Self)
        ensures
            is_random_pick(r@, self@),
    {
        Self::from_weights(&random_weights(&self.to_vec()))
    }

    /// The names of the selected choices joined with `" + "`.
    pub fn to_string(&self) -> (s: String)
        ensures
            s@ == flags_display(self@, Self::spec_names()),
    {
        display_weights(&self.to_vec(), &Self::names())
    }

    /// The menu page of this option: one toggle per choice, or a slider.
    pub fn to_submenu(title: &'static str, id: &'static str, help_text: &'static str, submenu_type: SubMenuType) -> (s: SubMenu)
        ensures
            submenu_matches(s, Self::spec_names(), title@, id@, help_text@, submenu_type),
    {
        submenu_from_names(Self::names(), title, id, help_text, submenu_type)
    }
}

/// A delay of 0 to 30 frames.
#[derive(Clone, Copy, Debug, PartialEq, Eq, Structural)]
pub struct Delay {
    pub D0: u8,
    pub D1: u8,
    pub D2: u8,
    pub D3: u8,
    pub D4: u8,
    pub D5: u8,
    pub D6: u8,
    pub D7: u8,
    pub D8: u8,
    pub D9: u8,
    pub D10: u8,
    pub D11: u8,
    pub D12: u8,
    pub D13: u8,
    pub D14: u8,
    pub D15: u8,
    pub D16: u8,
    pub D17: u8,
    pub D18: u8,
    pub D19: u8,
    pub D20: u8,
    pub D21: u8,
    pub D22: u8,
    pub D23: u8,
    pub D24: u8,
    pub D25: u8,
    pub D26: u8,
    pub D27: u8,
    pub D28: u8,
    pub D29: u8,
    pub D30: u8,
}

impl View for Delay {
    type V = Seq<u8>;

    open spec fn view(&self) -> Seq<u8> {
        seq![self.D0, self.D1, self.D2, self.D3, self.D4, self.D5, self.D6, self.D7, self.D8, self.D9, self.D10, self.D11, self.D12, self.D13, self.D14, self.D15, self.D16, self.D17, self.D18, self.D19, self.D20, self.D21, self.D22, self.D23, self.D24, self.D25, self.D26, self.D27, self.D28, self.D29, self.D30]
    }
}

impl Delay {
    /// Number of choices.
    pub open spec fn choices() -> nat {
        31
    }

    /// Display names of the choices, in order.
    pub open spec fn spec_names() -> Seq<Seq<char>> {
        seq!["0"@, "1"@, "2"@, "3"@, "4"@, "5"@, "6"@, "7"@, "8"@, "9"@, "10"@, "11"@, "12"@, "13"@, "14"@, "15"@, "16"@, "17"@, "18"@, "19"@, "20"@, "21"@, "22"@, "23"@, "24"@, "25"@, "26"@, "27"@, "28"@, "29"@, "30"@]
    }

    /// Display names of the choices, in order.
    pub fn names() -> (v: Vec<&'static str>)
        ensures
            v@.len() == Self::choices(),
            v@.map_values(|s: &str| s@) == Self::spec_names(),
    {
        let v = vec!["0", "1", "2", "3", "4", "5", "6", "7", "8", "9", "10", "11", "12", "13", "14", "15", "16", "17", "18", "19", "20", "21", "22", "23", "24", "25", "26", "27", "28", "29", "30"];
        assert(v@.map_values(|s: &str| s@) =~= Self::spec_names());
        v
    }

    /// No choice selected.
    pub fn new() -> (r: Self)
        ensures
            r@ == Seq::new(31, |i: int| 0u8),
    {
        let r = Self { D0: 0, D1: 0, D2: 0, D3: 0, D4: 0, D5: 0, D6: 0, D7: 0, D8: 0, D9: 0, D10: 0, D11: 0, D12: 0, D13: 0, D14: 0, D15: 0, D16: 0, D17: 0, D18: 0, D19: 0, D20: 0, D21: 0, D22: 0, D23: 0, D24: 0, D25: 0, D26: 0, D27: 0, D28: 0, D29: 0, D30: 0 };
        assert(r@ =~= Seq::new(31, |i: int| 0u8));
        r
    }

    /// No choice selected.
    pub fn empty() -> (r: Self)
        ensures
            r@ == Seq::new(31, |i: int| 0u8),
            no_flags(r@),
    {
        Self::new()
    }

    /// Every choice selected with weight one.
    pub fn all() -> (r: Self)
        ensures
            r@ == Seq::new(31, |i: int| 1u8),
    {
        let r = Self { D0: 1, D1: 1, D2: 1, D3: 1, D4: 1, D5: 1, D6: 1, D7: 1, D8: 1, D9: 1, D10: 1, D11: 1, D12: 1, D13: 1, D14: 1, D15: 1, D16: 1, D17: 1, D18: 1, D19: 1, D20: 1, D21: 1, D22: 1, D23: 1, D24: 1, D25: 1, D26: 1, D27: 1, D28: 1, D29: 1, D30: 1 };
        assert(r@ =~= Seq::new(31, |i: int| 1u8));
        r
    }

    /// Only "0" selected.
    pub fn D0() -> (r: Self)
        ensures
            r@ == only_flag(31, 0),
    {
        let r = Self { D0: 1, D1: 0, D2: 0, D3: 0, D4: 0, D5: 0, D6: 0, D7: 0, D8: 0, D9: 0, D10: 0, D11: 0, D12: 0, D13: 0, D14: 0, D15: 0, D16: 0, D17: 0, D18: 0, D19: 0, D20: 0, D21: 0, D22: 0, D23: 0, D24: 0, D25: 0, D26: 0, D27: 0, D28: 0, D29: 0, D30: 0 };
        assert(r@ =~= only_flag(31, 0));
        r
    }

    /// Only "1" selected.
    pub fn D1() -> (r: Self)
        ensures
            r@ == only_flag(31, 1),
    {
        let r = Self { D0: 0, D1: 1, D2: 0, D3: 0, D4: 0, D5: 0, D6: 0, D7: 0, D8: 0, D9: 0, D10: 0, D11: 0, D12: 0, D13: 0, D14: 0, D15: 0, D16: 0, D17: 0, D18: 0, D19: 0, D20: 0, D21: 0, D22: 0, D23: 0, D24: 0, D25: 0, D26: 0, D27: 0, D28: 0, D29: 0, D30: 0 };
        assert(r@ =~= only_flag(31, 1));
        r
    }

    /// Only "2" selected.
    pub fn D2() -> (r: Self)
        ensures
            r@ == only_flag(31, 2),
    {
        let r = Self { D0: 0, D1: 0, D2: 1, D3: 0, D4: 0, D5: 0, D6: 0, D7: 0, D8: 0, D9: 0, D10: 0, D11: 0, D12: 0, D13: 0, D14: 0, D15: 0, D16: 0, D17: 0, D18: 0, D19: 0, D20: 0, D21: 0, D22: 0, D23: 0, D24: 0, D25: 0, D26: 0, D27: 0, D28: 0, D29: 0, D30: 0 };
        assert(r@ =~= only_flag(31, 2));
        r
    }

    /// Only "3" selected.
    pub fn D3() -> (r: Self)
        ensures
            r@ == only_flag(31, 3),
    {
        let r = Self { D0: 0, D1: 0, D2: 0, D3: 1, D4: 0, D5: 0, D6: 0, D7: 0, D8: 0, D9: 0, D10: 0, D11: 0, D12: 0, D13: 0, D14: 0, D15: 0, D16: 0, D17: 0, D18: 0, D19: 0, D20: 0, D21: 0, D22: 0, D23: 0, D24: 0, D25: 0, D26: 0, D27: 0, D28: 0, D29: 0, D30: 0 };
        assert(r@ =~= only_flag(31, 3));
        r
    }

    /// Only "4" selected.
    pub fn D4() -> (r: Self)
        ensures
            r@ == only_flag(31, 4),
    {
        let r = Self { D0: 0, D1: 0, D2: 0, D3: 0, D4: 1, D5: 0, D6: 0, D7: 0, D8: 0, D9: 0, D10: 0, D11: 0, D12: 0, D13: 0, D14: 0, D15: 0, D16: 0, D17: 0, D18: 0, D19: 0, D20: 0, D21: 0, D22: 0, D23: 0, D24: 0, D25: 0, D26: 0, D27: 0, D28: 0, D29: 0, D30: 0 };
        assert(r@ =~= only_flag(31, 4));
        r
    }

    /// Only "5" selected.
    pub fn D5() -> (r: Self)
        ensures
            r@ == only_flag(31, 5),
    {
        let r = Self { D0: 0, D1: 0, D2: 0, D3: 0, D4: 0, D5: 1, D6: 0, D7: 0, D8: 0, D9: 0, D10: 0, D11: 0, D12: 0, D13: 0, D14: 0, D15: 0, D16: 0, D17: 0, D18: 0, D19: 0, D20: 0, D21: 0, D22: 0, D23: 0, D24: 0, D25: 0, D26: 0, D27: 0, D28: 0, D29: 0, D30: 0 };
        assert(r@ =~= only_flag(31, 5));
        r
    }

    /// Only "6" selected.
    pub fn D6() -> (r: Self)
        ensures
            r@ == only_flag(31, 6),
    {
        let r = Self { D0: 0, D1: 0, D2: 0, D3: 0, D4: 0, D5: 0, D6: 1, D7: 0, D8: 0, D9: 0, D10: 0, D11: 0, D12: 0, D13: 0, D14: 0, D15: 0, D16: 0, D17: 0, D18: 0, D19: 0, D20: 0, D21: 0, D22: 0, D23: 0, D24: 0, D25: 0, D26: 0, D27: 0, D28: 0, D29: 0, D30: 0 };
        assert(r@ =~= only_flag(31, 6));
        r
    }

    /// Only "7" selected.
    pub fn D7() -> (r: Self)
        ensures
            r@ == only_flag(31, 7),
    {
        let r = Self { D0: 0, D1: 0, D2: 0, D3: 0, D4: 0, D5: 0, D6: 0, D7: 1, D8: 0, D9: 0, D10: 0, D11: 0, D12: 0, D13: 0, D14: 0, D15: 0, D16: 0, D17: 0, D18: 0, D19: 0, D20: 0, D21: 0, D22: 0, D23: 0, D24: 0, D25: 0, D26: 0, D27: 0, D28: 0, D29: 0, D30: 0 };
        assert(r@ =~= only_flag(31, 7));
        r
    }

    /// Only "8" selected.
    pub fn D8() -> (r: Self)
        ensures
            r@ == only_flag(31, 8),
    {
        let r = Self { D0: 0, D1: 0, D2: 0, D3: 0, D4: 0, D5: 0, D6: 0, D7: 0, D8: 1, D9: 0, D10: 0, D11: 0, D12: 0, D13: 0, D14: 0, D15: 0, D16: 0, D17: 0, D18: 0, D19: 0, D20: 0, D21: 0, D22: 0, D23: 0, D24: 0, D25: 0, D26: 0, D27: 0, D28: 0, D29: 0, D30: 0 };
        assert(r@ =~= only_flag(31, 8));
        r
    }

    /// Only "9" selected.
    pub fn D9() -> (r: Self)
        ensures
            r@ == only_flag(31, 9),
    {
        let r = Self { D0: 0, D1: 0, D2: 0, D3: 0, D4: 0, D5: 0, D6: 0, D7: 0, D8: 0, D9: 1, D10: 0, D11: 0, D12: 0, D13: 0, D14: 0, D15: 0, D16: 0, D17: 0, D18: 0, D19: 0, D20: 0, D21: 0, D22: 0, D23: 0, D24: 0, D25: 0, D26: 0, D27: 0, D28: 0, D29: 0, D30: 0 };
        assert(r@ =~= only_flag(31, 9));
        r
    }

    /// Only "10" selected.
    pub fn D10() -> (r: Self)
        ensures
            r@ == only_flag(31, 10),
    {
        let r = Self { D0: 0, D1: 0, D2: 0, D3: 0, D4: 0, D5: 0, D6: 0, D7: 0, D8: 0, D9: 0, D10: 1, D11: 0, D12: 0, D13: 0, D14: 0, D15: 0, D16: 0, D17: 0, D18: 0, D19: 0, D20: 0, D21: 0, D22: 0, D23: 0, D24: 0, D25: 0, D26: 0, D27: 0, D28: 0, D29: 0, D30: 0 };
        assert(r@ =~= only_flag(31, 10));
        r
    }

    /// Only "11" selected.
    pub fn D11() -> (r: Self)
        ensures
            r@ == only_flag(31, 11),
    {
        let r = Self { D0: 0, D1: 0, D2: 0, D3: 0, D4: 0, D5: 0, D6: 0, D7: 0, D8: 0, D9: 0, D10: 0, D11: 1, D12: 0, D13: 0, D14: 0, D15: 0, D16: 0, D17: 0, D18: 0, D19: 0, D20: 0, D21: 0, D22: 0, D23: 0, D24: 0, D25: 0, D26: 0, D27: 0, D28: 0, D29: 0, D30: 0 };
        assert(r@ =~= only_flag(31, 11));
        r
    }

    /// Only "12" selected.
    pub fn D12() -> (r: Self)
        ensures
            r@ == only_flag(31, 12),
    {
        let r = Self { D0: 0, D1: 0, D2: 0, D3: 0, D4: 0, D5: 0, D6: 0, D7: 0, D8: 0, D9: 0, D10: 0, D11: 0, D12: 1, D13: 0, D14: 0, D15: 0, D16: 0, D17: 0, D18: 0, D19: 0, D20: 0, D21: 0, D22: 0, D23: 0, D24: 0, D25: 0, D26: 0, D27: 0, D28: 0, D29: 0, D30: 0 };
        assert(r@ =~= only_flag(31, 12));
        r
    }

    /// Only "13" selected.
    pub fn D13() -> (r: Self)
        ensures
            r@ == only_flag(31, 13),
    {
        let r = Self { D0: 0, D1: 0, D2: 0, D3: 0, D4: 0, D5: 0, D6: 0, D7: 0, D8: 0, D9: 0, D10: 0, D11: 0, D12: 0, D13: 1, D14: 0, D15: 0, D16: 0, D17: 0, D18: 0, D19: 0, D20: 0, D21: 0, D22: 0, D23: 0, D24: 0, D25: 0, D26: 0, D27: 0, D28: 0, D29: 0, D30: 0 };
        assert(r@ =~= only_flag(31, 13));
        r
    }

    /// Only "14" selected.
    pub fn D14() -> (r: Self)
        ensures
            r@ == only_flag(31, 14),
    {
        let r = Self { D0: 0, D1: 0, D2: 0, D3: 0, D4: 0, D5: 0, D6: 0, D7: 0, D8: 0, D9: 0, D10: 0, D11: 0, D12: 0, D13: 0, D14: 1, D15: 0, D16: 0, D17: 0, D18: 0, D19: 0, D20: 0, D21: 0, D22: 0, D23: 0, D24: 0, D25: 0, D26: 0, D27: 0, D28: 0, D29: 0, D30: 0 };
        assert(r@ =~= only_flag(31, 14));
        r
    }

    /// Only "15" selected.
    pub fn D15() -> (r: Self)
        ensures
            r@ == only_flag(31, 15),
    {
        let r = Self { D0: 0, D1: 0, D2: 0, D3: 0, D4: 0, D5: 0, D6: 0, D7: 0, D8: 0, D9: 0, D10: 0, D11: 0, D12: 0, D13: 0, D14: 0, D15: 1, D16: 0, D17: 0, D18: 0, D19: 0, D20: 0, D21: 0, D22: 0, D23: 0, D24: 0, D25: 0, D26: 0, D27: 0, D28: 0, D29: 0, D30: 0 };
        assert(r@ =~= only_flag(31, 15));
        r
    }

    /// Only "16" selected.
    pub fn D16() -> (r: Self)
        ensures
            r@ == only_flag(31, 16),
    {
        let r = Self { D0: 0, D1: 0, D2: 0, D3: 0, D4: 0, D5: 0, D6: 0, D7: 0, D8: 0, D9: 0, D10: 0, D11: 0, D12: 0, D13: 0, D14: 0, D15: 0, D16: 1, D17: 0, D18: 0, D19: 0, D20: 0, D21: 0, D22: 0, D23: 0, D24: 0, D25: 0, D26: 0, D27: 0, D28: 0, D29: 0, D30: 0 };
        assert(r@ =~= only_flag(31, 16));
        r
    }

    /// Only "17" selected.
    pub fn D17() -> (r: Self)
        ensures
            r@ == only_flag(31, 17),
    {
        let r = Self { D0: 0, D1: 0, D2: 0, D3: 0, D4: 0, D5: 0, D6: 0, D7: 0, D8: 0, D9: 0, D10: 0, D11: 0, D12: 0, D13: 0, D14: 0, D15: 0, D16: 0, D17: 1, D18: 0, D19: 0, D20: 0, D21: 0, D22: 0, D23: 0, D24: 0, D25: 0, D26: 0, D27: 0, D28: 0, D29: 0, D30: 0 };
        assert(r@ =~= only_flag(31, 17));
        r
    }

    /// Only "18" selected.
    pub fn D18() -> (r: Self)
        ensures
            r@ == only_flag(31, 18),
    {
        let r = Self { D0: 0, D1: 0, D2: 0, D3: 0, D4: 0, D5: 0, D6: 0, D7: 0, D8: 0, D9: 0, D10: 0, D11: 0, D12: 0, D13: 0, D14: 0, D15: 0, D16: 0, D17: 0, D18: 1, D19: 0, D20: 0, D21: 0, D22: 0, D23: 0, D24: 0, D25: 0, D26: 0, D27: 0, D28: 0, D29: 0, D30: 0 };
        assert(r@ =~= only_flag(31, 18));
        r
    }

    /// Only "19" selected.
    pub fn D19() -> (r: Self)
        ensures
            r@ == only_flag(31, 19),
    {
        let r = Self { D0: 0, D1: 0, D2: 0, D3: 0, D4: 0, D5: 0, D6: 0, D7: 0, D8: 0, D9: 0, D10: 0, D11: 0, D12: 0, D13: 0, D14: 0, D15: 0, D16: 0, D17: 0, D18: 0, D19: 1, D20: 0, D21: 0, D22: 0, D23: 0, D24: 0, D25: 0, D26: 0, D27: 0, D28: 0, D29: 0, D30: 0 };
        assert(r@ =~= only_flag(31, 19));
        r
    }

    /// Only "20" selected.
    pub fn D20() -> (r: Self)
        ensures
            r@ == only_flag(31, 20),
    {
        let r = Self { D0: 0, D1: 0, D2: 0, D3: 0, D4: 0, D5: 0, D6: 0, D7: 0, D8: 0, D9: 0, D10: 0, D11: 0, D12: 0, D13: 0, D14: 0, D15: 0, D16: 0, D17: 0, D18: 0, D19: 0, D20: 1, D21: 0, D22: 0, D23: 0, D24: 0, D25: 0, D26: 0, D27: 0, D28: 0, D29: 0, D30: 0 };
        assert(r@ =~= only_flag(31, 20));
        r
    }

    /// Only "21" selected.
    pub fn D21() -> (r: Self)
        ensures
            r@ == only_flag(31, 21),
    {
        let r = Self { D0: 0, D1: 0, D2: 0, D3: 0, D4: 0, D5: 0, D6: 0, D7: 0, D8: 0, D9: 0, D10: 0, D11: 0, D12: 0, D13: 0, D14: 0, D15: 0, D16: 0, D17: 0, D18: 0, D19: 0, D20: 0, D21: 1, D22: 0, D23: 0, D24: 0, D25: 0, D26: 0, D27: 0, D28: 0, D29: 0, D30: 0 };
        assert(r@ =~= only_flag(31, 21));
        r
    }

    /// Only "22" selected.
    pub fn D22() -> (r: Self)
        ensures
            r@ == only_flag(31, 22),
    {
        let r = Self { D0: 0, D1: 0, D2: 0, D3: 0, D4: 0, D5: 0, D6: 0, D7: 0, D8: 0, D9: 0, D10: 0, D11: 0, D12: 0, D13: 0, D14: 0, D15: 0, D16: 0, D17: 0, D18: 0, D19: 0, D20: 0, D21: 0, D22: 1, D23: 0, D24: 0, D25: 0, D26: 0, D27: 0, D28: 0, D29: 0, D30: 0 };
        assert(r@ =~= only_flag(31, 22));
        r
    }

    /// Only "23" selected.
    pub fn D23() -> (r: Self)
        ensures
            r@ == only_flag(31, 23),
    {
        let r = Self { D0: 0, D1: 0, D2: 0, D3: 0, D4: 0, D5: 0, D6: 0, D7: 0, D8: 0, D9: 0, D10: 0, D11: 0, D12: 0, D13: 0, D14: 0, D15: 0, D16: 0, D17: 0, D18: 0, D19: 0, D20: 0, D21: 0, D22: 0, D23: 1, D24: 0, D25: 0, D26: 0, D27: 0, D28: 0, D29: 0, D30: 0 };
        assert(r@ =~= only_flag(31, 23));
        r
    }

    /// Only "24" selected.
    pub fn D24() -> (r: Self)
        ensures
            r@ == only_flag(31, 24),
    {
        let r = Self { D0: 0, D1: 0, D2: 0, D3: 0, D4: 0, D5: 0, D6: 0, D7: 0, D8: 0, D9: 0, D10: 0, D11: 0, D12: 0, D13: 0, D14: 0, D15: 0, D16: 0, D17: 0, D18: 0, D19: 0, D20: 0, D21: 0, D22: 0, D23: 0, D24: 1, D25: 0, D26: 0, D27: 0, D28: 0, D29: 0, D30: 0 };
        assert(r@ =~= only_flag(31, 24));
        r
    }

    /// Only "25" selected.
    pub fn D25() -> (r: Self)
        ensures
            r@ == only_flag(31, 25),
    {
        let r = Self { D0: 0, D1: 0, D2: 0, D3: 0, D4: 0, D5: 0, D6: 0, D7: 0, D8: 0, D9: 0, D10: 0, D11: 0, D12: 0, D13: 0, D14: 0, D15: 0, D16: 0, D17: 0, D18: 0, D19: 0, D20: 0, D21: 0, D22: 0, D23: 0, D24: 0, D25: 1, D26: 0, D27: 0, D28: 0, D29: 0, D30: 0 };
        assert(r@ =~= only_flag(31, 25));
        r
    }

    /// Only "26" selected.
    pub fn D26() -> (r: Self)
        ensures
            r@ == only_flag(31, 26),
    {
        let r = Self { D0: 0, D1: 0, D2: 0, D3: 0, D4: 0, D5: 0, D6: 0, D7: 0, D8: 0, D9: 0, D10: 0, D11: 0, D12: 0, D13: 0, D14: 0, D15: 0, D16: 0, D17: 0, D18: 0, D19: 0, D20: 0, D21: 0, D22: 0, D23: 0, D24: 0, D25: 0, D26: 1, D27: 0, D28: 0, D29: 0, D30: 0 };
        assert(r@ =~= only_flag(31, 26));
        r
    }

    /// Only "27" selected.
    pub fn D27() -> (r: Self)
        ensures
            r@ == only_flag(31, 27),
    {
        let r = Self { D0: 0, D1: 0, D2: 0, D3: 0, D4: 0, D5: 0, D6: 0, D7: 0, D8: 0, D9: 0, D10: 0, D11: 0, D12: 0, D13: 0, D14: 0, D15: 0, D16: 0, D17: 0, D18: 0, D19: 0, D20: 0, D21: 0, D22: 0, D23: 0, D24: 0, D25: 0, D26: 0, D27: 1, D28: 0, D29: 0, D30: 0 };
        assert(r@ =~= only_flag(31, 27));
        r
    }

    /// Only "28" selected.
    pub fn D28() -> (r: Self)
        ensures
            r@ == only_flag(31, 28),
    {
        let r = Self { D0: 0, D1: 0, D2: 0, D3: 0, D4: 0, D5: 0, D6: 0, D7: 0, D8: 0, D9: 0, D10: 0, D11: 0, D12: 0, D13: 0, D14: 0, D15: 0, D16: 0, D17: 0, D18: 0, D19: 0, D20: 0, D21: 0, D22: 0, D23: 0, D24: 0, D25: 0, D26: 0, D27: 0, D28: 1, D29: 0, D30: 0 };
        assert(r@ =~= only_flag(31, 28));
        r
    }

    /// Only "29" selected.
    pub fn D29() -> (r: Self)
        ensures
            r@ == only_flag(31, 29),
    {
        let r = Self { D0: 0, D1: 0, D2: 0, D3: 0, D4: 0, D5: 0, D6: 0, D7: 0, D8: 0, D9: 0, D10: 0, D11: 0, D12: 0, D13: 0, D14: 0, D15: 0, D16: 0, D17: 0, D18: 0, D19: 0, D20: 0, D21: 0, D22: 0, D23: 0, D24: 0, D25: 0, D26: 0, D27: 0, D28: 0, D29: 1, D30: 0 };
        assert(r@ =~= only_flag(31, 29));
        r
    }

    /// Only "30" selected.
    pub fn D30() -> (r: Self)
        ensures
            r@ == only_flag(31, 30),
    {
        let r = Self { D0: 0, D1: 0, D2: 0, D3: 0, D4: 0, D5: 0, D6: 0, D7: 0, D8: 0, D9: 0, D10: 0, D11: 0, D12: 0, D13: 0, D14: 0, D15: 0, D16: 0, D17: 0, D18: 0, D19: 0, D20: 0, D21: 0, D22: 0, D23: 0, D24: 0, D25: 0, D26: 0, D27: 0, D28: 0, D29: 0, D30: 1 };
        assert(r@ =~= only_flag(31, 30));
        r
    }

    /// The weights, in choice order.
    pub fn to_vec(&self) -> (v: Vec<u8>)
        ensures
            v@ == self@,
    {
        let v = vec![self.D0, self.D1, self.D2, self.D3, self.D4, self.D5, self.D6, self.D7, self.D8, self.D9, self.D10, self.D11, self.D12, self.D13, self.D14, self.D15, self.D16, self.D17, self.D18, self.D19, self.D20, self.D21, self.D22, self.D23, self.D24, self.D25, self.D26, self.D27, self.D28, self.D29, self.D30];
        assert(v@ =~= self@);
        v
    }

    /// The option with the given weights, in choice order.
    pub fn from_weights(w: &Vec<u8>) -> (r: Self)
        requires
            w@.len() == 31,
        ensures
            r@ == w@,
    {
        let r = Self { D0: w[0], D1: w[1], D2: w[2], D3: w[3], D4: w[4], D5: w[5], D6: w[6], D7: w[7], D8: w[8], D9: w[9], D10: w[10], D11: w[11], D12: w[12], D13: w[13], D14: w[14], D15: w[15], D16: w[16], D17: w[17], D18: w[18], D19: w[19], D20: w[20], D21: w[21], D22: w[22], D23: w[23], D24: w[24], D25: w[25], D26: w[26], D27: w[27], D28: w[28], D29: w[29], D30: w[30] };
        assert(r@ =~= w@);
        r
    }

    /// Whether every choice selected in `other` is selected here.
    pub fn contains(&self, other: &Self) -> (b: bool)
        ensures
            b == flags_contains(self@, other@),
    {
        contains_weights(&self.to_vec(), &other.to_vec())
    }

    /// Choice-wise saturating sum of the weights.
    pub fn union(&self, other: Self) -> (r: Self)
        ensures
            r@ == flags_union(self@, other@),
    {
        Self::from_weights(&union_weights(&self.to_vec(), &other.to_vec()))
    }

    /// The weights of this option for the choices selected in `other`.
    pub fn left_intersection(&self, other: Self) -> (r: Self)
        ensures
            r@ == flags_left_intersection(self@, other@),
    {
        Self::from_weights(&left_intersection_weights(&self.to_vec(), &other.to_vec()))
    }

    /// A random single choice among the selected ones, in proportion to the weights;
    /// no choice when none is selected.
    pub fn get_random(&self) -> (r: Self)
        ensures
            is_random_pick(r@, self@),
    {
        Self::from_weights(&random_weights(&self.to_vec()))
    }

    /// The names of the selected choices joined with `" + "`.
    pub fn to_string(&self) -> (s: String)
        ensures
            s@ == flags_display(self@, Self::spec_names()),
    {
        display_weights(&self.to_vec(), &Self::names())
    }

    /// The menu page of this option: one toggle per choice, or a slider.
    pub fn to_submenu(title: &'static str, id: &'static str, help_text: &'static str, submenu_type: SubMenuType) -> (s: SubMenu)
        ensures
            submenu_matches(s, Self::spec_names(), title@, id@, help_text@, submenu_type),
    {
        submenu_from_names(Self::names(), title, id, help_text, submenu_type)
    }
}

/// A delay of 0 to 150 frames in steps of 5.
#[derive(Clone, Copy, Debug, PartialEq, Eq, Structural)]
pub struct MedDelay {
    pub D0: u8,
    pub D5: u8,
    pub D10: u8,
    pub D15: u8,
    pub D20: u8,
    pub D25: u8,
    pub D30: u8,
    pub D35: u8,
    pub D40: u8,
    pub D45: u8,
    pub D50: u8,
    pub D55: u8,
    pub D60: u8,
    pub D65: u8,
    pub D70: u8,
    pub D75: u8,
    pub D80: u8,
    pub D85: u8,
    pub D90: u8,
    pub D95: u8,
    pub D100: u8,
    pub D105: u8,
    pub D110: u8,
    pub D115: u8,
    pub D120: u8,
    pub D125: u8,
    pub D130: u8,
    pub D135: u8,
    pub D140: u8,
    pub D145: u8,
    pub D150: u8,
}

impl View for MedDelay {
    type V = Seq<u8>;

    open spec fn view(&self) -> Seq<u8> {
        seq![self.D0, self.D5, self.D10, self.D15, self.D20, self.D25, self.D30, self.D35, self.D40, self.D45, self.D50, self.D55, self.D60, self.D65, self.D70, self.D75, self.D80, self.D85, self.D90, self.D95, self.D100, self.D105, self.D110, self.D115, self.D120, self.D125, self.D130, self.D135, self.D140, self.D145, self.D150]
    }
}

impl MedDelay {
    /// Number of choices.
    pub open spec fn choices() -> nat {
        31
    }

    /// Display names of the choices, in order.
    pub open spec fn spec_names() -> Seq<Seq<char>> {
        seq!["0"@, "5"@, "10"@, "15"@, "20"@, "25"@, "30"@, "35"@, "40"@, "45"@, "50"@, "55"@, "60"@, "65"@, "70"@, "75"@, "80"@, "85"@, "90"@, "95"@, "100"@, "105"@, "110"@, "115"@, "120"@, "125"@, "130"@, "135"@, "140"@, "145"@, "150"@]
    }

    /// Display names of the choices, in order.
    pub fn names() -> (v: Vec<&'static str>)
        ensures
            v@.len() == Self::choices(),
            v@.map_values(|s: &str| s@) == Self::spec_names(),
    {
        let v = vec!["0", "5", "10", "15", "20", "25", "30", "35", "40", "45", "50", "55", "60", "65", "70", "75", "80", "85", "90", "95", "100", "105", "110", "115", "120", "125", "130", "135", "140", "145", "150"];
        assert(v@.map_values(|s: &str| s@) =~= Self::spec_names());
        v
    }

    /// No choice selected.
    pub fn new() -> (r: Self)
        ensures
            r@ == Seq::new(31, |i: int| 0u8),
    {
        let r = Self { D0: 0, D5: 0, D10: 0, D15: 0, D20: 0, D25: 0, D30: 0, D35: 0, D40: 0, D45: 0, D50: 0, D55: 0, D60: 0, D65: 0, D70: 0, D75: 0, D80: 0, D85: 0, D90: 0, D95: 0, D100: 0, D105: 0, D110: 0, D115: 0, D120: 0, D125: 0, D130: 0, D135: 0, D140: 0, D145: 0, D150: 0 };
        assert(r@ =~= Seq::new(31, |i: int| 0u8));
        r
    }

    /// No choice selected.
    pub fn empty() -> (r: Self)
        ensures
            r@ == Seq::new(31, |i: int| 0u8),
            no_flags(r@),
    {
        Self::new()
    }

    /// Every choice selected with weight one.
    pub fn all() -> (r: Self)
        ensures
            r@ == Seq::new(31, |i: int| 1u8),
    {
        let r = Self { D0: 1, D5: 1, D10: 1, D15: 1, D20: 1, D25: 1, D30: 1, D35: 1, D40: 1, D45: 1, D50: 1, D55: 1, D60: 1, D65: 1, D70: 1, D75: 1, D80: 1, D85: 1, D90: 1, D95: 1, D100: 1, D105: 1, D110: 1, D115: 1, D120: 1, D125: 1, D130: 1, D135: 1, D140: 1, D145: 1, D150: 1 };
        assert(r@ =~= Seq::new(31, |i: int| 1u8));
        r
    }

    /// Only "0" selected.
    pub fn D0() -> (r: Self)
        ensures
            r@ == only_flag(31, 0),
    {
        let r = Self { D0: 1, D5: 0, D10: 0, D15: 0, D20: 0, D25: 0, D30: 0, D35: 0, D40: 0, D45: 0, D50: 0, D55: 0, D60: 0, D65: 0, D70: 0, D75: 0, D80: 0, D85: 0, D90: 0, D95: 0, D100: 0, D105: 0, D110: 0, D115: 0, D120: 0, D125: 0, D130: 0, D135: 0, D140: 0, D145: 0, D150: 0 };
        assert(r@ =~= only_flag(31, 0));
        r
    }

    /// Only "5" selected.
    pub fn D5() -> (r: Self)
        ensures
            r@ == only_flag(31, 1),
    {
        let r = Self { D0: 0, D5: 1, D10: 0, D15: 0, D20: 0, D25: 0, D30: 0, D35: 0, D40: 0, D45: 0, D50: 0, D55: 0, D60: 0, D65: 0, D70: 0, D75: 0, D80: 0, D85: 0, D90: 0, D95: 0, D100: 0, D105: 0, D110: 0, D115: 0, D120: 0, D125: 0, D130: 0, D135: 0, D140: 0, D145: 0, D150: 0 };
        assert(r@ =~= only_flag(31, 1));
        r
    }

    /// Only "10" selected.
    pub fn D10() -> (r: Self)
        ensures
            r@ == only_flag(31, 2),
    {
        let r = Self { D0: 0, D5: 0, D10: 1, D15: 0, D20: 0, D25: 0, D30: 0, D35: 0, D40: 0, D45: 0, D50: 0, D55: 0, D60: 0, D65: 0, D70: 0, D75: 0, D80: 0, D85: 0, D90: 0, D95: 0, D100: 0, D105: 0, D110: 0, D115: 0, D120: 0, D125: 0, D130: 0, D135: 0, D140: 0, D145: 0, D150: 0 };
        assert(r@ =~= only_flag(31, 2));
        r
    }

    /// Only "15" selected.
    pub fn D15() -> (r: Self)
        ensures
            r@ == only_flag(31, 3),
    {
        let r = Self { D0: 0, D5: 0, D10: 0, D15: 1, D20: 0, D25: 0, D30: 0, D35: 0, D40: 0, D45: 0, D50: 0, D55: 0, D60: 0, D65: 0, D70: 0, D75: 0, D80: 0, D85: 0, D90: 0, D95: 0, D100: 0, D105: 0, D110: 0, D115: 0, D120: 0, D125: 0, D130: 0, D135: 0, D140: 0, D145: 0, D150: 0 };
        assert(r@ =~= only_flag(31, 3));
        r
    }

    /// Only "20" selected.
    pub fn D20() -> (r: Self)
        ensures
            r@ == only_flag(31, 4),
    {
        let r = Self { D0: 0, D5: 0, D10: 0, D15: 0, D20: 1, D25: 0, D30: 0, D35: 0, D40: 0, D45: 0, D50: 0, D55: 0, D60: 0, D65: 0, D70: 0, D75: 0, D80: 0, D85: 0, D90: 0, D95: 0, D100: 0, D105: 0, D110: 0, D115: 0, D120: 0, D125: 0, D130: 0, D135: 0, D140: 0, D145: 0, D150: 0 };
        assert(r@ =~= only_flag(31, 4));
        r
    }

    /// Only "25" selected.
    pub fn D25() -> (r: Self)
        ensures
            r@ == only_flag(31, 5),
    {
        let r = Self { D0: 0, D5: 0, D10: 0, D15: 0, D20: 0, D25: 1, D30: 0, D35: 0, D40: 0, D45: 0, D50: 0, D55: 0, D60: 0, D65: 0, D70: 0, D75: 0, D80: 0, D85: 0, D90: 0, D95: 0, D100: 0, D105: 0, D110: 0, D115: 0, D120: 0, D125: 0, D130: 0, D135: 0, D140: 0, D145: 0, D150: 0 };
        assert(r@ =~= only_flag(31, 5));
        r
    }

    /// Only "30" selected.
    pub fn D30() -> (r: Self)
        ensures
            r@ == only_flag(31, 6),
    {
        let r = Self { D0: 0, D5: 0, D10: 0, D15: 0, D20: 0, D25: 0, D30: 1, D35: 0, D40: 0, D45: 0, D50: 0, D55: 0, D60: 0, D65: 0, D70: 0, D75: 0, D80: 0, D85: 0, D90: 0, D95: 0, D100: 0, D105: 0, D110: 0, D115: 0, D120: 0, D125: 0, D130: 0, D135: 0, D140: 0, D145: 0, D150: 0 };
        assert(r@ =~= only_flag(31, 6));
        r
    }

    /// Only "35" selected.
    pub fn D35() -> (r: Self)
        ensures
            r@ == only_flag(31, 7),
    {
        let r = Self { D0: 0, D5: 0, D10: 0, D15: 0, D20: 0, D25: 0, D30: 0, D35: 1, D40: 0, D45: 0, D50: 0, D55: 0, D60: 0, D65: 0, D70: 0, D75: 0, D80: 0, D85: 0, D90: 0, D95: 0, D100: 0, D105: 0, D110: 0, D115: 0, D120: 0, D125: 0, D130: 0, D135: 0, D140: 0, D145: 0, D150: 0 };
        assert(r@ =~= only_flag(31, 7));
        r
    }

    /// Only "40" selected.
    pub fn D40() -> (r: Self)
        ensures
            r@ == only_flag(31, 8),
    {
        let r = Self { D0: 0, D5: 0, D10: 0, D15: 0, D20: 0, D25: 0, D30: 0, D35: 0, D40: 1, D45: 0, D50: 0, D55: 0, D60: 0, D65: 0, D70: 0, D75: 0, D80: 0, D85: 0, D90: 0, D95: 0, D100: 0, D105: 0, D110: 0, D115: 0, D120: 0, D125: 0, D130: 0, D135: 0, D140: 0, D145: 0, D150: 0 };
        assert(r@ =~= only_flag(31, 8));
        r
    }

    /// Only "45" selected.
    pub fn D45() -> (r: Self)
        ensures
            r@ == only_flag(31, 9),
    {
        let r = Self { D0: 0, D5: 0, D10: 0, D15: 0, D20: 0, D25: 0, D30: 0, D35: 0, D40: 0, D45: 1, D50: 0, D55: 0, D60: 0, D65: 0, D70: 0, D75: 0, D80: 0, D85: 0, D90: 0, D95: 0, D100: 0, D105: 0, D110: 0, D115: 0, D120: 0, D125: 0, D130: 0, D135: 0, D140: 0, D145: 0, D150: 0 };
        assert(r@ =~= only_flag(31, 9));
        r
    }

    /// Only "50" selected.
    pub fn D50() -> (r: Self)
        ensures
            r@ == only_flag(31, 10),
    {
        let r = Self { D0: 0, D5: 0, D10: 0, D15: 0, D20: 0, D25: 0, D30: 0, D35: 0, D40: 0, D45: 0, D50: 1, D55: 0, D60: 0, D65: 0, D70: 0, D75: 0, D80: 0, D85: 0, D90: 0, D95: 0, D100: 0, D105: 0, D110: 0, D115: 0, D120: 0, D125: 0, D130: 0, D135: 0, D140: 0, D145: 0, D150: 0 };
        assert(r@ =~= only_flag(31, 10));
        r
    }

    /// Only "55" selected.
    pub fn D55() -> (r: Self)
        ensures
            r@ == only_flag(31, 11),
    {
        let r = Self { D0: 0, D5: 0, D10: 0, D15: 0, D20: 0, D25: 0, D30: 0, D35: 0, D40: 0, D45: 0, D50: 0, D55: 1, D60: 0, D65: 0, D70: 0, D75: 0, D80: 0, D85: 0, D90: 0, D95: 0, D100: 0, D105: 0, D110: 0, D115: 0, D120: 0, D125: 0, D130: 0, D135: 0, D140: 0, D145: 0, D150: 0 };
        assert(r@ =~= only_flag(31, 11));
        r
    }

    /// Only "60" selected.
    pub fn D60() -> (r: Self)
        ensures
            r@ == only_flag(31, 12),
    {
        let r = Self { D0: 0, D5: 0, D10: 0, D15: 0, D20: 0, D25: 0, D30: 0, D35: 0, D40: 0, D45: 0, D50: 0, D55: 0, D60: 1, D65: 0, D70: 0, D75: 0, D80: 0, D85: 0, D90: 0, D95: 0, D100: 0, D105: 0, D110: 0, D115: 0, D120: 0, D125: 0, D130: 0, D135: 0, D140: 0, D145: 0, D150: 0 };
        assert(r@ =~= only_flag(31, 12));
        r
    }

    /// Only "65" selected.
    pub fn D65() -> (r: Self)
        ensures
            r@ == only_flag(31, 13),
    {
        let r = Self { D0: 0, D5: 0, D10: 0, D15: 0, D20: 0, D25: 0, D30: 0, D35: 0, D40: 0, D45: 0, D50: 0, D55: 0, D60: 0, D65: 1, D70: 0, D75: 0, D80: 0, D85: 0, D90: 0, D95: 0, D100: 0, D105: 0, D110: 0, D115: 0, D120: 0, D125: 0, D130: 0, D135: 0, D140: 0, D145: 0, D150: 0 };
        assert(r@ =~= only_flag(31, 13));
        r
    }

    /// Only "70" selected.
    pub fn D70() -> (r: Self)
        ensures
            r@ == only_flag(31, 14),
    {
        let r = Self { D0: 0, D5: 0, D10: 0, D15: 0, D20: 0, D25: 0, D30: 0, D35: 0, D40: 0, D45: 0, D50: 0, D55: 0, D60: 0, D65: 0, D70: 1, D75: 0, D80: 0, D85: 0, D90: 0, D95: 0, D100: 0, D105: 0, D110: 0, D115: 0, D120: 0, D125: 0, D130: 0, D135: 0, D140: 0, D145: 0, D150: 0 };
        assert(r@ =~= only_flag(31, 14));
        r
    }

    /// Only "75" selected.
    pub fn D75() -> (r: Self)
        ensures
            r@ == only_flag(31, 15),
    {
        let r = Self { D0: 0, D5: 0, D10: 0, D15: 0, D20: 0, D25: 0, D30: 0, D35: 0, D40: 0, D45: 0, D50: 0, D55: 0, D60: 0, D65: 0, D70: 0, D75: 1, D80: 0, D85: 0, D90: 0, D95: 0, D100: 0, D105: 0, D110: 0, D115: 0, D120: 0, D125: 0, D130: 0, D135: 0, D140: 0, D145: 0, D150: 0 };
        assert(r@ =~= only_flag(31, 15));
        r
    }

    /// Only "80" selected.
    pub fn D80() -> (r: Self)
        ensures
            r@ == only_flag(31, 16),
    {
        let r = Self { D0: 0, D5: 0, D10: 0, D15: 0, D20: 0, D25: 0, D30: 0, D35: 0, D40: 0, D45: 0, D50: 0, D55: 0, D60: 0, D65: 0, D70: 0, D75: 0, D80: 1, D85: 0, D90: 0, D95: 0, D100: 0, D105: 0, D110: 0, D115: 0, D120: 0, D125: 0, D130: 0, D135: 0, D140: 0, D145: 0, D150: 0 };
        assert(r@ =~= only_flag(31, 16));
        r
    }

    /// Only "85" selected.
    pub fn D85() -> (r: Self)
        ensures
            r@ == only_flag(31, 17),
    {
        let r = Self { D0: 0, D5: 0, D10: 0, D15: 0, D20: 0, D25: 0, D30: 0, D35: 0, D40: 0, D45: 0, D50: 0, D55: 0, D60: 0, D65: 0, D70: 0, D75: 0, D80: 0, D85: 1, D90: 0, D95: 0, D100: 0, D105: 0, D110: 0, D115: 0, D120: 0, D125: 0, D130: 0, D135: 0, D140: 0, D145: 0, D150: 0 };
        assert(r@ =~= only_flag(31, 17));
        r
    }

    /// Only "90" selected.
    pub fn D90() -> (r: Self)
        ensures
            r@ == only_flag(31, 18),
    {
        let r = Self { D0: 0, D5: 0, D10: 0, D15: 0, D20: 0, D25: 0, D30: 0, D35: 0, D40: 0, D45: 0, D50: 0, D55: 0, D60: 0, D65: 0, D70: 0, D75: 0, D80: 0, D85: 0, D90: 1, D95: 0, D100: 0, D105: 0, D110: 0, D115: 0, D120: 0, D125: 0, D130: 0, D135: 0, D140: 0, D145: 0, D150: 0 };
        assert(r@ =~= only_flag(31, 18));
        r
    }

    /// Only "95" selected.
    pub fn D95() -> (r: Self)
        ensures
            r@ == only_flag(31, 19),
    {
        let r = Self { D0: 0, D5: 0, D10: 0, D15: 0, D20: 0, D25: 0, D30: 0, D35: 0, D40: 0, D45: 0, D50: 0, D55: 0, D60: 0, D65: 0, D70: 0, D75: 0, D80: 0, D85: 0, D90: 0, D95: 1, D100: 0, D105: 0, D110: 0, D115: 0, D120: 0, D125: 0, D130: 0, D135: 0, D140: 0, D145: 0, D150: 0 };
        assert(r@ =~= only_flag(31, 19));
        r
    }

    /// Only "100" selected.
    pub fn D100() -> (r: Self)
        ensures
            r@ == only_flag(31, 20),
    {
        let r = Self { D0: 0, D5: 0, D10: 0, D15: 0, D20: 0, D25: 0, D30: 0, D35: 0, D40: 0, D45: 0, D50: 0, D55: 0, D60: 0, D65: 0, D70: 0, D75: 0, D80: 0, D85: 0, D90: 0, D95: 0, D100: 1, D105: 0, D110: 0, D115: 0, D120: 0, D125: 0, D130: 0, D135: 0, D140: 0, D145: 0, D150: 0 };
        assert(r@ =~= only_flag(31, 20));
        r
    }

    /// Only "105" selected.
    pub fn D105() -> (r: Self)
        ensures
            r@ == only_flag(31, 21),
    {
        let r = Self { D0: 0, D5: 0, D10: 0, D15: 0, D20: 0, D25: 0, D30: 0, D35: 0, D40: 0, D45: 0, D50: 0, D55: 0, D60: 0, D65: 0, D70: 0, D75: 0, D80: 0, D85: 0, D90: 0, D95: 0, D100: 0, D105: 1, D110: 0, D115: 0, D120: 0, D125: 0, D130: 0, D135: 0, D140: 0, D145: 0, D150: 0 };
        assert(r@ =~= only_flag(31, 21));
        r
    }

    /// Only "110" selected.
    pub fn D110() -> (r: Self)
        ensures
            r@ == only_flag(31, 22),
    {
        let r = Self { D0: 0, D5: 0, D10: 0, D15: 0, D20: 0, D25: 0, D30: 0, D35: 0, D40: 0, D45: 0, D50: 0, D55: 0, D60: 0, D65: 0, D70: 0, D75: 0, D80: 0, D85: 0, D90: 0, D95: 0, D100: 0, D105: 0, D110: 1, D115: 0, D120: 0, D125: 0, D130: 0, D135: 0, D140: 0, D145: 0, D150: 0 };
        assert(r@ =~= only_flag(31, 22));
        r
    }

    /// Only "115" selected.
    pub fn D115() -> (r: Self)
        ensures
            r@ == only_flag(31, 23),
    {
        let r = Self { D0: 0, D5: 0, D10: 0, D15: 0, D20: 0, D25: 0, D30: 0, D35: 0, D40: 0, D45: 0, D50: 0, D55: 0, D60: 0, D65: 0, D70: 0, D75: 0, D80: 0, D85: 0, D90: 0, D95: 0, D100: 0, D105: 0, D110: 0, D115: 1, D120: 0, D125: 0, D130: 0, D135: 0, D140: 0, D145: 0, D150: 0 };
        assert(r@ =~= only_flag(31, 23));
        r
    }

    /// Only "120" selected.
    pub fn D120() -> (r: Self)
        ensures
            r@ == only_flag(31, 24),
    {
        let r = Self { D0: 0, D5: 0, D10: 0, D15: 0, D20: 0, D25: 0, D30: 0, D35: 0, D40: 0, D45: 0, D50: 0, D55: 0, D60: 0, D65: 0, D70: 0, D75: 0, D80: 0, D85: 0, D90: 0, D95: 0, D100: 0, D105: 0, D110: 0, D115: 0, D120: 1, D125: 0, D130: 0, D135: 0, D140: 0, D145: 0, D150: 0 };
        assert(r@ =~= only_flag(31, 24));
        r
    }

    /// Only "125" selected.
    pub fn D125() -> (r: Self)
        ensures
            r@ == only_flag(31, 25),
    {
        let r = Self { D0: 0, D5: 0, D10: 0, D15: 0, D20: 0, D25: 0, D30: 0, D35: 0, D40: 0, D45: 0, D50: 0, D55: 0, D60: 0, D65: 0, D70: 0, D75: 0, D80: 0, D85: 0, D90: 0, D95: 0, D100: 0, D105: 0, D110: 0, D115: 0, D120: 0, D125: 1, D130: 0, D135: 0, D140: 0, D145: 0, D150: 0 };
        assert(r@ =~= only_flag(31, 25));
        r
    }

    /// Only "130" selected.
    pub fn D130() -> (r: Self)
        ensures
            r@ == only_flag(31, 26),
    {
        let r = Self { D0: 0, D5: 0, D10: 0, D15: 0, D20: 0, D25: 0, D30: 0, D35: 0, D40: 0, D45: 0, D50: 0, D55: 0, D60: 0, D65: 0, D70: 0, D75: 0, D80: 0, D85: 0, D90: 0, D95: 0, D100: 0, D105: 0, D110: 0, D115: 0, D120: 0, D125: 0, D130: 1, D135: 0, D140: 0, D145: 0, D150: 0 };
        assert(r@ =~= only_flag(31, 26));
        r
    }

    /// Only "135" selected.
    pub fn D135() -> (r: Self)
        ensures
            r@ == only_flag(31, 27),
    {
        let r = Self { D0: 0, D5: 0, D10: 0, D15: 0, D20: 0, D25: 0, D30: 0, D35: 0, D40: 0, D45: 0, D50: 0, D55: 0, D60: 0, D65: 0, D70: 0, D75: 0, D80: 0, D85: 0, D90: 0, D95: 0, D100: 0, D105: 0, D110: 0, D115: 0, D120: 0, D125: 0, D130: 0, D135: 1, D140: 0, D145: 0, D150: 0 };
        assert(r@ =~= only_flag(31, 27));
        r
    }

    /// Only "140" selected.
    pub fn D140() -> (r: Self)
        ensures
            r@ == only_flag(31, 28),
    {
        let r = Self { D0: 0, D5: 0, D10: 0, D15: 0, D20: 0, D25: 0, D30: 0, D35: 0, D40: 0, D45: 0, D50: 0, D55: 0, D60: 0, D65: 0, D70: 0, D75: 0, D80: 0, D85: 0, D90: 0, D95: 0, D100: 0, D105: 0, D110: 0, D115: 0, D120: 0, D125: 0, D130: 0, D135: 0, D140: 1, D145: 0, D150: 0 };
        assert(r@ =~= only_flag(31, 28));
        r
    }

    /// Only "145" selected.
    pub fn D145() -> (r: Self)
        ensures
            r@ == only_flag(31, 29),
    {
        let r = Self { D0: 0, D5: 0, D10: 0, D15: 0, D20: 0, D25: 0, D30: 0, D35: 0, D40: 0, D45: 0, D50: 0, D55: 0, D60: 0, D65: 0, D70: 0, D75: 0, D80: 0, D85: 0, D90: 0, D95: 0, D100: 0, D105: 0, D110: 0, D115: 0, D120: 0, D125: 0, D130: 0, D135: 0, D140: 0, D145: 1, D150: 0 };
        assert(r@ =~= only_flag(31, 29));
        r
    }

    /// Only "150" selected.
    pub fn D150() -> (r: Self)
        ensures
            r@ == only_flag(31, 30),
    {
        let r = Self { D0: 0, D5: 0, D10: 0, D15: 0, D20: 0, D25: 0, D30: 0, D35: 0, D40: 0, D45: 0, D50: 0, D55: 0, D60: 0, D65: 0, D70: 0, D75: 0, D80: 0, D85: 0, D90: 0, D95: 0, D100: 0, D105: 0, D110: 0, D115: 0, D120: 0, D125: 0, D130: 0, D135: 0, D140: 0, D145: 0, D150: 1 };
        assert(r@ =~= only_flag(31, 30));
        r
    }

    /// The weights, in choice order.
    pub fn to_vec(&self) -> (v: Vec<u8>)
        ensures
            v@ == self@,
    {
        let v = vec![self.D0, self.D5, self.D10, self.D15, self.D20, self.D25, self.D30, self.D35, self.D40, self.D45, self.D50, self.D55, self.D60, self.D65, self.D70, self.D75, self.D80, self.D85, self.D90, self.D95, self.D100, self.D105, self.D110, self.D115, self.D120, self.D125, self.D130, self.D135, self.D140, self.D145, self.D150];
        assert(v@ =~= self@);
        v
    }

    /// The option with the given weights, in choice order.
    pub fn from_weights(w: &Vec<u8>) -> (r: Self)
        requires
            w@.len() == 31,
        ensures
            r@ == w@,
    {
        let r = Self { D0: w[0], D5: w[1], D10: w[2], D15: w[3], D20: w[4], D25: w[5], D30: w[6], D35: w[7], D40: w[8], D45: w[9], D50: w[10], D55: w[11], D60: w[12], D65: w[13], D70: w[14], D75: w[15], D80: w[16], D85: w[17], D90: w[18], D95: w[19], D100: w[20], D105: w[21], D110: w[22], D115: w[23], D120: w[24], D125: w[25], D130: w[26], D135: w[27], D140: w[28], D145: w[29], D150: w[30] };
        assert(r@ =~= w@);
        r
    }

    /// Whether every choice selected in `other` is selected here.
    pub fn contains(&self, other: &Self) -> (b: bool)
        ensures
            b == flags_contains(self@, other@),
    {
        contains_weights(&self.to_vec(), &other.to_vec())
    }

    /// Choice-wise saturating sum of the weights.
    pub fn union(&self, other: Self) -> (r: Self)
        ensures
            r@ == flags_union(self@, other@),
    {
        Self::from_weights(&union_weights(&self.to_vec(), &other.to_vec()))
    }

    /// The weights of this option for the choices selected in `other`.
    pub fn left_intersection(&self, other: Self) -> (r: Self)
        ensures
            r@ == flags_left_intersection(self@, other@),
    {
        Self::from_weights(&left_intersection_weights(&self.to_vec(), &other.to_vec()))
    }

    /// A random single choice among the selected ones, in proportion to the weights;
    /// no choice when none is selected.
    pub fn get_random(&self) -> (r: Self)
        ensures
            is_random_pick(r@, self@),
    {
        Self::from_weights(&random_weights(&self.to_vec()))
    }

    /// The names of the selected choices joined with `" + "`.
    pub fn to_string(&self) -> (s: String)
        ensures
            s@ == flags_display(self@, Self::spec_names()),
    {
        display_weights(&self.to_vec(), &Self::names())
    }

    /// The menu page of this option: one toggle per choice, or a slider.
    pub fn to_submenu(title: &'static str, id: &'static str, help_text: &'static str, submenu_type: SubMenuType) -> (s: SubMenu)
        ensures
            submenu_matches(s, Self::spec_names(), title@, id@, help_text@, submenu_type),
    {
        submenu_from_names(Self::names(), title, id, help_text, submenu_type)
    }
}

/// A delay of 0 to 300 frames in steps of 10.
#[derive(Clone, Copy, Debug, PartialEq, Eq, Structural)]
pub struct LongDelay {
    pub D0: u8,
    pub D10: u8,
    pub D20: u8,
    pub D30: u8,
    pub D40: u8,
    pub D50: u8,
    pub D60: u8,
    pub D70: u8,
    pub D80: u8,
    pub D90: u8,
    pub D100: u8,
    pub D110: u8,
    pub D120: u8,
    pub D130: u8,
    pub D140: u8,
    pub D150: u8,
    pub D160: u8,
    pub D170: u8,
    pub D180: u8,
    pub D190: u8,
    pub D200: u8,
    pub D210: u8,
    pub D220: u8,
    pub D230: u8,
    pub D240: u8,
    pub D250: u8,
    pub D260: u8,
    pub D270: u8,
    pub D280: u8,
    pub D290: u8,
    pub D300: u8,
}

impl View for LongDelay {
    type V = Seq<u8>;

    open spec fn view(&self) -> Seq<u8> {
        seq![self.D0, self.D10, self.D20, self.D30, self.D40, self.D50, self.D60, self.D70, self.D80, self.D90, self.D100, self.D110, self.D120, self.D130, self.D140, self.D150, self.D160, self.D170, self.D180, self.D190, self.D200, self.D210, self.D220, self.D230, self.D240, self.D250, self.D260, self.D270, self.D280, self.D290, self.D300]
    }
}

impl LongDelay {
    /// Number of choices.
    pub open spec fn choices() -> nat {
        31
    }

    /// Display names of the choices, in order.
    pub open spec fn spec_names() -> Seq<Seq<char>> {
        seq!["0"@, "10"@, "20"@, "30"@, "40"@, "50"@, "60"@, "70"@, "80"@, "90"@, "100"@, "110"@, "120"@, "130"@, "140"@, "150"@, "160"@, "170"@, "180"@, "190"@, "200"@, "210"@, "220"@, "230"@, "240"@, "250"@, "260"@, "270"@, "280"@, "290"@, "300"@]
    }

    /// Display names of the choices, in order.
    pub fn names() -> (v: Vec<&'static str>)
        ensures
            v@.len() == Self::choices(),
            v@.map_values(|s: &str| s@) == Self::spec_names(),
    {
        let v = vec!["0", "10", "20", "30", "40", "50", "60", "70", "80", "90", "100", "110", "120", "130", "140", "150", "160", "170", "180", "190", "200", "210", "220", "230", "240", "250", "260", "270", "280", "290", "300"];
        assert(v@.map_values(|s: &str| s@) =~= Self::spec_names());
        v
    }

    /// No choice selected.
    pub fn new() -> (r: Self)
        ensures
            r@ == Seq::new(31, |i: int| 0u8),
    {
        let r = Self { D0: 0, D10: 0, D20: 0, D30: 0, D40: 0, D50: 0, D60: 0, D70: 0, D80: 0, D90: 0, D100: 0, D110: 0, D120: 0, D130: 0, D140: 0, D150: 0, D160: 0, D170: 0, D180: 0, D190: 0, D200: 0, D210: 0, D220: 0, D230: 0, D240: 0, D250: 0, D260: 0, D270: 0, D280: 0, D290: 0, D300: 0 };
        assert(r@ =~= Seq::new(31, |i: int| 0u8));
        r
    }

    /// No choice selected.
    pub fn empty() -> (r: Self)
        ensures
            r@ == Seq::new(31, |i: int| 0u8),
            no_flags(r@),
    {
        Self::new()
    }

    /// Every choice selected with weight one.
    pub fn all() -> (r: Self)
        ensures
            r@ == Seq::new(31, |i: int| 1u8),
    {
        let r = Self { D0: 1, D10: 1, D20: 1, D30: 1, D40: 1, D50: 1, D60: 1, D70: 1, D80: 1, D90: 1, D100: 1, D110: 1, D120: 1, D130: 1, D140: 1, D150: 1, D160: 1, D170: 1, D180: 1, D190: 1, D200: 1, D210: 1, D220: 1, D230: 1, D240: 1, D250: 1, D260: 1, D270: 1, D280: 1, D290: 1, D300: 1 };
        assert(r@ =~= Seq::new(31, |i: int| 1u8));
        r
    }

    /// Only "0" selected.
    pub fn D0() -> (r: Self)
        ensures
            r@ == only_flag(31, 0),
    {
        let r = Self { D0: 1, D10: 0, D20: 0, D30: 0, D40: 0, D50: 0, D60: 0, D70: 0, D80: 0, D90: 0, D100: 0, D110: 0, D120: 0, D130: 0, D140: 0, D150: 0, D160: 0, D170: 0, D180: 0, D190: 0, D200: 0, D210: 0, D220: 0, D230: 0, D240: 0, D250: 0, D260: 0, D270: 0, D280: 0, D290: 0, D300: 0 };
        assert(r@ =~= only_flag(31, 0));
        r
    }

    /// Only "10" selected.
    pub fn D10() -> (r: Self)
        ensures
            r@ == only_flag(31, 1),
    {
        let r = Self { D0: 0, D10: 1, D20: 0, D30: 0, D40: 0, D50: 0, D60: 0, D70: 0, D80: 0, D90: 0, D100: 0, D110: 0, D120: 0, D130: 0, D140: 0, D150: 0, D160: 0, D170: 0, D180: 0, D190: 0, D200: 0, D210: 0, D220: 0, D230: 0, D240: 0, D250: 0, D260: 0, D270: 0, D280: 0, D290: 0, D300: 0 };
        assert(r@ =~= only_flag(31, 1));
        r
    }

    /// Only "20" selected.
    pub fn D20() -> (r: Self)
        ensures
            r@ == only_flag(31, 2),
    {
        let r = Self { D0: 0, D10: 0, D20: 1, D30: 0, D40: 0, D50: 0, D60: 0, D70: 0, D80: 0, D90: 0, D100: 0, D110: 0, D120: 0, D130: 0, D140: 0, D150: 0, D160: 0, D170: 0, D180: 0, D190: 0, D200: 0, D210: 0, D220: 0, D230: 0, D240: 0, D250: 0, D260: 0, D270: 0, D280: 0, D290: 0, D300: 0 };
        assert(r@ =~= only_flag(31, 2));
        r
    }

    /// Only "30" selected.
    pub fn D30() -> (r: Self)
        ensures
            r@ == only_flag(31, 3),
    {
        let r = Self { D0: 0, D10: 0, D20: 0, D30: 1, D40: 0, D50: 0, D60: 0, D70: 0, D80: 0, D90: 0, D100: 0, D110: 0, D120: 0, D130: 0, D140: 0, D150: 0, D160: 0, D170: 0, D180: 0, D190: 0, D200: 0, D210: 0, D220: 0, D230: 0, D240: 0, D250: 0, D260: 0, D270: 0, D280: 0, D290: 0, D300: 0 };
        assert(r@ =~= only_flag(31, 3));
        r
    }

    /// Only "40" selected.
    pub fn D40() -> (r: Self)
        ensures
            r@ == only_flag(31, 4),
    {
        let r = Self { D0: 0, D10: 0, D20: 0, D30: 0, D40: 1, D50: 0, D60: 0, D70: 0, D80: 0, D90: 0, D100: 0, D110: 0, D120: 0, D130: 0, D140: 0, D150: 0, D160: 0, D170: 0, D180: 0, D190: 0, D200: 0, D210: 0, D220: 0, D230: 0, D240: 0, D250: 0, D260: 0, D270: 0, D280: 0, D290: 0, D300: 0 };
        assert(r@ =~= only_flag(31, 4));
        r
    }

    /// Only "50" selected.
    pub fn D50() -> (r: Self)
        ensures
            r@ == only_flag(31, 5),
    {
        let r = Self { D0: 0, D10: 0, D20: 0, D30: 0, D40: 0, D50: 1, D60: 0, D70: 0, D80: 0, D90: 0, D100: 0, D110: 0, D120: 0, D130: 0, D140: 0, D150: 0, D160: 0, D170: 0, D180: 0, D190: 0, D200: 0, D210: 0, D220: 0, D230: 0, D240: 0, D250: 0, D260: 0, D270: 0, D280: 0, D290: 0, D300: 0 };
        assert(r@ =~= only_flag(31, 5));
        r
    }

    /// Only "60" selected.
    pub fn D60() -> (r: Self)
        ensures
            r@ == only_flag(31, 6),
    {
        let r = Self { D0: 0, D10: 0, D20: 0, D30: 0, D40: 0, D50: 0, D60: 1, D70: 0, D80: 0, D90: 0, D100: 0, D110: 0, D120: 0, D130: 0, D140: 0, D150: 0, D160: 0, D170: 0, D180: 0, D190: 0, D200: 0, D210: 0, D220: 0, D230: 0, D240: 0, D250: 0, D260: 0, D270: 0, D280: 0, D290: 0, D300: 0 };
        assert(r@ =~= only_flag(31, 6));
        r
    }

    /// Only "70" selected.
    pub fn D70() -> (r: Self)
        ensures
            r@ == only_flag(31, 7),
    {
        let r = Self { D0: 0, D10: 0, D20: 0, D30: 0, D40: 0, D50: 0, D60: 0, D70: 1, D80: 0, D90: 0, D100: 0, D110: 0, D120: 0, D130: 0, D140: 0, D150: 0, D160: 0, D170: 0, D180: 0, D190: 0, D200: 0, D210: 0, D220: 0, D230: 0, D240: 0, D250: 0, D260: 0, D270: 0, D280: 0, D290: 0, D300: 0 };
        assert(r@ =~= only_flag(31, 7));
        r
    }

    /// Only "80" selected.
    pub fn D80() -> (r: Self)
        ensures
            r@ == only_flag(31, 8),
    {
        let r = Self { D0: 0, D10: 0, D20: 0, D30: 0, D40: 0, D50: 0, D60: 0, D70: 0, D80: 1, D90: 0, D100: 0, D110: 0, D120: 0, D130: 0, D140: 0, D150: 0, D160: 0, D170: 0, D180: 0, D190: 0, D200: 0, D210: 0, D220: 0, D230: 0, D240: 0, D250: 0, D260: 0, D270: 0, D280: 0, D290: 0, D300: 0 };
        assert(r@ =~= only_flag(31, 8));
        r
    }

    /// Only "90" selected.
    pub fn D90() -> (r: Self)
        ensures
            r@ == only_flag(31, 9),
    {
        let r = Self { D0: 0, D10: 0, D20: 0, D30: 0, D40: 0, D50: 0, D60: 0, D70: 0, D80: 0, D90: 1, D100: 0, D110: 0, D120: 0, D130: 0, D140: 0, D150: 0, D160: 0, D170: 0, D180: 0, D190: 0, D200: 0, D210: 0, D220: 0, D230: 0, D240: 0, D250: 0, D260: 0, D270: 0, D280: 0, D290: 0, D300: 0 };
        assert(r@ =~= only_flag(31, 9));
        r
    }

    /// Only "100" selected.
    pub fn D100() -> (r: Self)
        ensures
            r@ == only_flag(31, 10),
    {
        let r = Self { D0: 0, D10: 0, D20: 0, D30: 0, D40: 0, D50: 0, D60: 0, D70: 0, D80: 0, D90: 0, D100: 1, D110: 0, D120: 0, D130: 0, D140: 0, D150: 0, D160: 0, D170: 0, D180: 0, D190: 0, D200: 0, D210: 0, D220: 0, D230: 0, D240: 0, D250: 0, D260: 0, D270: 0, D280: 0, D290: 0, D300: 0 };
        assert(r@ =~= only_flag(31, 10));
        r
    }

    /// Only "110" selected.
    pub fn D110() -> (r: Self)
        ensures
            r@ == only_flag(31, 11),
    {
        let r = Self { D0: 0, D10: 0, D20: 0, D30: 0, D40: 0, D50: 0, D60: 0, D70: 0, D80: 0, D90: 0, D100: 0, D110: 1, D120: 0, D130: 0, D140: 0, D150: 0, D160: 0, D170: 0, D180: 0, D190: 0, D200: 0, D210: 0, D220: 0, D230: 0, D240: 0, D250: 0, D260: 0, D270: 0, D280: 0, D290: 0, D300: 0 };
        assert(r@ =~= only_flag(31, 11));
        r
    }

    /// Only "120" selected.
    pub fn D120() -> (r: Self)
        ensures
            r@ == only_flag(31, 12),
    {
        let r = Self { D0: 0, D10: 0, D20: 0, D30: 0, D40: 0, D50: 0, D60: 0, D70: 0, D80: 0, D90: 0, D100: 0, D110: 0, D120: 1, D130: 0, D140: 0, D150: 0, D160: 0, D170: 0, D180: 0, D190: 0, D200: 0, D210: 0, D220: 0, D230: 0, D240: 0, D250: 0, D260: 0, D270: 0, D280: 0, D290: 0, D300: 0 };
        assert(r@ =~= only_flag(31, 12));
        r
    }

    /// Only "130" selected.
    pub fn D130() -> (r: Self)
        ensures
            r@ == only_flag(31, 13),
    {
        let r = Self { D0: 0, D10: 0, D20: 0, D30: 0, D40: 0, D50: 0, D60: 0, D70: 0, D80: 0, D90: 0, D100: 0, D110: 0, D120: 0, D130: 1, D140: 0, D150: 0, D160: 0, D170: 0, D180: 0, D190: 0, D200: 0, D210: 0, D220: 0, D230: 0, D240: 0, D250: 0, D260: 0, D270: 0, D280: 0, D290: 0, D300: 0 };
        assert(r@ =~= only_flag(31, 13));
        r
    }

    /// Only "140" selected.
    pub fn D140() -> (r: Self)
        ensures
            r@ == only_flag(31, 14),
    {
        let r = Self { D0: 0, D10: 0, D20: 0, D30: 0, D40: 0, D50: 0, D60: 0, D70: 0, D80: 0, D90: 0, D100: 0, D110: 0, D120: 0, D130: 0, D140: 1, D150: 0, D160: 0, D170: 0, D180: 0, D190: 0, D200: 0, D210: 0, D220: 0, D230: 0, D240: 0, D250: 0, D260: 0, D270: 0, D280: 0, D290: 0, D300: 0 };
        assert(r@ =~= only_flag(31, 14));
        r
    }

    /// Only "150" selected.
    pub fn D150() -> (r: Self)
        ensures
            r@ == only_flag(31, 15),
    {
        let r = Self { D0: 0, D10: 0, D20: 0, D30: 0, D40: 0, D50: 0, D60: 0, D70: 0, D80: 0, D90: 0, D100: 0, D110: 0, D120: 0, D130: 0, D140: 0, D150: 1, D160: 0, D170: 0, D180: 0, D190: 0, D200: 0, D210: 0, D220: 0, D230: 0, D240: 0, D250: 0, D260: 0, D270: 0, D280: 0, D290: 0, D300: 0 };
        assert(r@ =~= only_flag(31, 15));
        r
    }

    /// Only "160" selected.
    pub fn D160() -> (r: Self)
        ensures
            r@ == only_flag(31, 16),
    {
        let r = Self { D0: 0, D10: 0, D20: 0, D30: 0, D40: 0, D50: 0, D60: 0, D70: 0, D80: 0, D90: 0, D100: 0, D110: 0, D120: 0, D130: 0, D140: 0, D150: 0, D160: 1, D170: 0, D180: 0, D190: 0, D200: 0, D210: 0, D220: 0, D230: 0, D240: 0, D250: 0, D260: 0, D270: 0, D280: 0, D290: 0, D300: 0 };
        assert(r@ =~= only_flag(31, 16));
        r
    }

    /// Only "170" selected.
    pub fn D170() -> (r: Self)
        ensures
            r@ == only_flag(31, 17),
    {
        let r = Self { D0: 0, D10: 0, D20: 0, D30: 0, D40: 0, D50: 0, D60: 0, D70: 0, D80: 0, D90: 0, D100: 0, D110: 0, D120: 0, D130: 0, D140: 0, D150: 0, D160: 0, D170: 1, D180: 0, D190: 0, D200: 0, D210: 0, D220: 0, D230: 0, D240: 0, D250: 0, D260: 0, D270: 0, D280: 0, D290: 0, D300: 0 };
        assert(r@ =~= only_flag(31, 17));
        r
    }

    /// Only "180" selected.
    pub fn D180() -> (r: Self)
        ensures
            r@ == only_flag(31, 18),
    {
        let r = Self { D0: 0, D10: 0, D20: 0, D30: 0, D40: 0, D50: 0, D60: 0, D70: 0, D80: 0, D90: 0, D100: 0, D110: 0, D120: 0, D130: 0, D140: 0, D150: 0, D160: 0, D170: 0, D180: 1, D190: 0, D200: 0, D210: 0, D220: 0, D230: 0, D240: 0, D250: 0, D260: 0, D270: 0, D280: 0, D290: 0, D300: 0 };
        assert(r@ =~= only_flag(31, 18));
        r
    }

    /// Only "190" selected.
    pub fn D190() -> (r: Self)
        ensures
            r@ == only_flag(31, 19),
    {
        let r = Self { D0: 0, D10: 0, D20: 0, D30: 0, D40: 0, D50: 0, D60: 0, D70: 0, D80: 0, D90: 0, D100: 0, D110: 0, D120: 0, D130: 0, D140: 0, D150: 0, D160: 0, D170: 0, D180: 0, D190: 1, D200: 0, D210: 0, D220: 0, D230: 0, D240: 0, D250: 0, D260: 0, D270: 0, D280: 0, D290: 0, D300: 0 };
        assert(r@ =~= only_flag(31, 19));
        r
    }

    /// Only "200" selected.
    pub fn D200() -> (r: Self)
        ensures
            r@ == only_flag(31, 20),
    {
        let r = Self { D0: 0, D10: 0, D20: 0, D30: 0, D40: 0, D50: 0, D60: 0, D70: 0, D80: 0, D90: 0, D100: 0, D110: 0, D120: 0, D130: 0, D140: 0, D150: 0, D160: 0, D170: 0, D180: 0, D190: 0, D200: 1, D210: 0, D220: 0, D230: 0, D240: 0, D250: 0, D260: 0, D270: 0, D280: 0, D290: 0, D300: 0 };
        assert(r@ =~= only_flag(31, 20));
        r
    }

    /// Only "210" selected.
    pub fn D210() -> (r: Self)
        ensures
            r@ == only_flag(31, 21),
    {
        let r = Self { D0: 0, D10: 0, D20: 0, D30: 0, D40: 0, D50: 0, D60: 0, D70: 0, D80: 0, D90: 0, D100: 0, D110: 0, D120: 0, D130: 0, D140: 0, D150: 0, D160: 0, D170: 0, D180: 0, D190: 0, D200: 0, D210: 1, D220: 0, D230: 0, D240: 0, D250: 0, D260: 0, D270: 0, D280: 0, D290: 0, D300: 0 };
        assert(r@ =~= only_flag(31, 21));
        r
    }

    /// Only "220" selected.
    pub fn D220() -> (r: Self)
        ensures
            r@ == only_flag(31, 22),
    {
        let r = Self { D0: 0, D10: 0, D20: 0, D30: 0, D40: 0, D50: 0, D60: 0, D70: 0, D80: 0, D90: 0, D100: 0, D110: 0, D120: 0, D130: 0, D140: 0, D150: 0, D160: 0, D170: 0, D180: 0, D190: 0, D200: 0, D210: 0, D220: 1, D230: 0, D240: 0, D250: 0, D260: 0, D270: 0, D280: 0, D290: 0, D300: 0 };
        assert(r@ =~= only_flag(31, 22));
        r
    }

    /// Only "230" selected.
    pub fn D230() -> (r: Self)
        ensures
            r@ == only_flag(31, 23),
    {
        let r = Self { D0: 0, D10: 0, D20: 0, D30: 0, D40: 0, D50: 0, D60: 0, D70: 0, D80: 0, D90: 0, D100: 0, D110: 0, D120: 0, D130: 0, D140: 0, D150: 0, D160: 0, D170: 0, D180: 0, D190: 0, D200: 0, D210: 0, D220: 0, D230: 1, D240: 0, D250: 0, D260: 0, D270: 0, D280: 0, D290: 0, D300: 0 };
        assert(r@ =~= only_flag(31, 23));
        r
    }

    /// Only "240" selected.
    pub fn D240() -> (r: Self)
        ensures
            r@ == only_flag(31, 24),
    {
        let r = Self { D0: 0, D10: 0, D20: 0, D30: 0, D40: 0, D50: 0, D60: 0, D70: 0, D80: 0, D90: 0, D100: 0, D110: 0, D120: 0, D130: 0, D140: 0, D150: 0, D160: 0, D170: 0, D180: 0, D190: 0, D200: 0, D210: 0, D220: 0, D230: 0, D240: 1, D250: 0, D260: 0, D270: 0, D280: 0, D290: 0, D300: 0 };
        assert(r@ =~= only_flag(31, 24));
        r
    }

    /// Only "250" selected.
    pub fn D250() -> (r: Self)
        ensures
            r@ == only_flag(31, 25),
    {
        let r = Self { D0: 0, D10: 0, D20: 0, D30: 0, D40: 0, D50: 0, D60: 0, D70: 0, D80: 0, D90: 0, D100: 0, D110: 0, D120: 0, D130: 0, D140: 0, D150: 0, D160: 0, D170: 0, D180: 0, D190: 0, D200: 0, D210: 0, D220: 0, D230: 0, D240: 0, D250: 1, D260: 0, D270: 0, D280: 0, D290: 0, D300: 0 };
        assert(r@ =~= only_flag(31, 25));
        r
    }

    /// Only "260" selected.
    pub fn D260() -> (r: Self)
        ensures
            r@ == only_flag(31, 26),
    {
        let r = Self { D0: 0, D10: 0, D20: 0, D30: 0, D40: 0, D50: 0, D60: 0, D70: 0, D80: 0, D90: 0, D100: 0, D110: 0, D120: 0, D130: 0, D140: 0, D150: 0, D160: 0, D170: 0, D180: 0, D190: 0, D200: 0, D210: 0, D220: 0, D230: 0, D240: 0, D250: 0, D260: 1, D270: 0, D280: 0, D290: 0, D300: 0 };
        assert(r@ =~= only_flag(31, 26));
        r
    }

    /// Only "270" selected.
    pub fn D270() -> (r: Self)
        ensures
            r@ == only_flag(31, 27),
    {
        let r = Self { D0: 0, D10: 0, D20: 0, D30: 0, D40: 0, D50: 0, D60: 0, D70: 0, D80: 0, D90: 0, D100: 0, D110: 0, D120: 0, D130: 0, D140: 0, D150: 0, D160: 0, D170: 0, D180: 0, D190: 0, D200: 0, D210: 0, D220: 0, D230: 0, D240: 0, D250: 0, D260: 0, D270: 1, D280: 0, D290: 0, D300: 0 };
        assert(r@ =~= only_flag(31, 27));
        r
    }

    /// Only "280" selected.
    pub fn D280() -> (r: Self)
        ensures
            r@ == only_flag(31, 28),
    {
        let r = Self { D0: 0, D10: 0, D20: 0, D30: 0, D40: 0, D50: 0, D60: 0, D70: 0, D80: 0, D90: 0, D100: 0, D110: 0, D120: 0, D130: 0, D140: 0, D150: 0, D160: 0, D170: 0, D180: 0, D190: 0, D200: 0, D210: 0, D220: 0, D230: 0, D240: 0, D250: 0, D260: 0, D270: 0, D280: 1, D290: 0, D300: 0 };
        assert(r@ =~= only_flag(31, 28));
        r
    }

    /// Only "290" selected.
    pub fn D290() -> (r: Self)
        ensures
            r@ == only_flag(31, 29),
    {
        let r = Self { D0: 0, D10: 0, D20: 0, D30: 0, D40: 0, D50: 0, D60: 0, D70: 0, D80: 0, D90: 0, D100: 0, D110: 0, D120: 0, D130: 0, D140: 0, D150: 0, D160: 0, D170: 0, D180: 0, D190: 0, D200: 0, D210: 0, D220: 0, D230: 0, D240: 0, D250: 0, D260: 0, D270: 0, D280: 0, D290: 1, D300: 0 };
        assert(r@ =~= only_flag(31, 29));
        r
    }

    /// Only "300" selected.
    pub fn D300() -> (r: Self)
        ensures
            r@ == only_flag(31, 30),
    {
        let r = Self { D0: 0, D10: 0, D20: 0, D30: 0, D40: 0, D50: 0, D60: 0, D70: 0, D80: 0, D90: 0, D100: 0, D110: 0, D120: 0, D130: 0, D140: 0, D150: 0, D160: 0, D170: 0, D180: 0, D190: 0, D200: 0, D210: 0, D220: 0, D230: 0, D240: 0, D250: 0, D260: 0, D270: 0, D280: 0, D290: 0, D300: 1 };
        assert(r@ =~= only_flag(31, 30));
        r
    }

    /// The weights, in choice order.
    pub fn to_vec(&self) -> (v: Vec<u8>)
        ensures
            v@ == self@,
    {
        let v = vec![self.D0, self.D10, self.D20, self.D30, self.D40, self.D50, self.D60, self.D70, self.D80, self.D90, self.D100, self.D110, self.D120, self.D130, self.D140, self.D150, self.D160, self.D170, self.D180, self.D190, self.D200, self.D210, self.D220, self.D230, self.D240, self.D250, self.D260, self.D270, self.D280, self.D290, self.D300];
        assert(v@ =~= self@);
        v
    }

    /// The option with the given weights, in choice order.
    pub fn from_weights(w: &Vec<u8>) -> (r: Self)
        requires
            w@.len() == 31,
        ensures
            r@ == w@,
    {
        let r = Self { D0: w[0], D10: w[1], D20: w[2], D30: w[3], D40: w[4], D50: w[5], D60: w[6], D70: w[7], D80: w[8], D90: w[9], D100: w[10], D110: w[11], D120: w[12], D130: w[13], D140: w[14], D150: w[15], D160: w[16], D170: w[17], D180: w[18], D190: w[19], D200: w[20], D210: w[21], D220: w[22], D230: w[23], D240: w[24], D250: w[25], D260: w[26], D270: w[27], D280: w[28], D290: w[29], D300: w[30] };
        assert(r@ =~= w@);
        r
    }

    /// Whether every choice selected in `other` is selected here.
    pub fn contains(&self, other: &Self) -> (b: bool)
        ensures
            b == flags_contains(self@, other@),
    {
        contains_weights(&self.to_vec(), &other.to_vec())
    }

    /// Choice-wise saturating sum of the weights.
    pub fn union(&self, other: Self) -> (r: Self)
        ensures
            r@ == flags_union(self@, other@),
    {
        Self::from_weights(&union_weights(&self.to_vec(), &other.to_vec()))
    }

    /// The weights of this option for the choices selected in `other`.
    pub fn left_intersection(&self, other: Self) -> (r: Self)
        ensures
            r@ == flags_left_intersection(self@, other@),
    {
        Self::from_weights(&left_intersection_weights(&self.to_vec(), &other.to_vec()))
    }

    /// A random single choice among the selected ones, in proportion to the weights;
    /// no choice when none is selected.
    pub fn get_random(&self) -> (r: Self)
        ensures
            is_random_pick(r@, self@),
    {
        Self::from_weights(&random_weights(&self.to_vec()))
    }

    /// The names of the selected choices joined with `" + "`.
    pub fn to_string(&self) -> (s: String)
        ensures
            s@ == flags_display(self@, Self::spec_names()),
    {
        display_weights(&self.to_vec(), &Self::names())
    }

    /// The menu page of this option: one toggle per choice, or a slider.
    pub fn to_submenu(title: &'static str, id: &'static str, help_text: &'static str, submenu_type: SubMenuType) -> (s: SubMenu)
        ensures
            submenu_matches(s, Self::spec_names(), title@, id@, help_text@, submenu_type),
    {
        submenu_from_names(Self::names(), title, id, help_text, submenu_type)
    }
}

/// Buffs applied to characters that have them.
#[derive(Clone, Copy, Debug, PartialEq, Eq, Structural)]
pub struct BuffOption {
    pub ACCELERATLE: u8,
    pub OOMPH: u8,
    pub PSYCHE: u8,
    pub BOUNCE: u8,
    pub ARSENE: u8,
    pub BREATHING: u8,
    pub LIMIT: u8,
    pub KO: u8,
    pub WING: u8,
    pub MONAD_JUMP: u8,
    pub MONAD_SPEED: u8,
    pub MONAD_SHIELD: u8,
    pub MONAD_BUSTER: u8,
    pub MONAD_SMASH: u8,
    pub POWER_DRAGON: u8,
    pub WAFT_MINI: u8,
    pub WAFT_HALF: u8,
    pub WAFT_FULL: u8,
}

impl View for BuffOption {
    type V = Seq<u8>;

    open spec fn view(&self) -> Seq<u8> {
        seq![self.ACCELERATLE, self.OOMPH, self.PSYCHE, self.BOUNCE, self.ARSENE, self.BREATHING, self.LIMIT, self.KO, self.WING, self.MONAD_JUMP, self.MONAD_SPEED, self.MONAD_SHIELD, self.MONAD_BUSTER, self.MONAD_SMASH, self.POWER_DRAGON, self.WAFT_MINI, self.WAFT_HALF, self.WAFT_FULL]
    }
}

impl BuffOption {
    /// Number of choices.
    pub open spec fn choices() -> nat {
        18
    }

    /// Display names of the choices, in order.
    pub open spec fn spec_names() -> Seq<Seq<char>> {
        seq!["Acceleratle"@, "Oomph"@, "Psyche Up"@, "Bounce"@, "Arsene"@, "Deep Breathing"@, "Limit"@, "KO Punch"@, "1-Winged Angel"@, "Jump"@, "Speed"@, "Shield"@, "Buster"@, "Smash"@, "Power Dragon"@, "Mini Waft"@, "Half Waft"@, "Full Waft"@]
    }

    /// Display names of the choices, in order.
    pub fn names() -> (v: Vec<&'static str>)
        ensures
            v@.len() == Self::choices(),
            v@.map_values(|s: &str| s@) == Self::spec_names(),
    {
        let v = vec!["Acceleratle", "Oomph", "Psyche Up", "Bounce", "Arsene", "Deep Breathing", "Limit", "KO Punch", "1-Winged Angel", "Jump", "Speed", "Shield", "Buster", "Smash", "Power Dragon", "Mini Waft", "Half Waft", "Full Waft"];
        assert(v@.map_values(|s: &str| s@) =~= Self::spec_names());
        v
    }

    /// No choice selected.
    pub fn new() -> (r: Self)
        ensures
            r@ == Seq::new(18, |i: int| 0u8),
    {
        let r = Self { ACCELERATLE: 0, OOMPH: 0, PSYCHE: 0, BOUNCE: 0, ARSENE: 0, BREATHING: 0, LIMIT: 0, KO: 0, WING: 0, MONAD_JUMP: 0, MONAD_SPEED: 0, MONAD_SHIELD: 0, MONAD_BUSTER: 0, MONAD_SMASH: 0, POWER_DRAGON: 0, WAFT_MINI: 0, WAFT_HALF: 0, WAFT_FULL: 0 };
        assert(r@ =~= Seq::new(18, |i: int| 0u8));
        r
    }

    /// No choice selected.
    pub fn empty() -> (r: Self)
        ensures
            r@ == Seq::new(18, |i: int| 0u8),
            no_flags(r@),
    {
        Self::new()
    }

    /// Every choice selected with weight one.
    pub fn all() -> (r: Self)
        ensures
            r@ == Seq::new(18, |i: int| 1u8),
    {
        let r = Self { ACCELERATLE: 1, OOMPH: 1, PSYCHE: 1, BOUNCE: 1, ARSENE: 1, BREATHING: 1, LIMIT: 1, KO: 1, WING: 1, MONAD_JUMP: 1, MONAD_SPEED: 1, MONAD_SHIELD: 1, MONAD_BUSTER: 1, MONAD_SMASH: 1, POWER_DRAGON: 1, WAFT_MINI: 1, WAFT_HALF: 1, WAFT_FULL: 1 };
        assert(r@ =~= Seq::new(18, |i: int| 1u8));
        r
    }

    /// Only "Acceleratle" selected.
    pub fn ACCELERATLE() -> (r: Self)
        ensures
            r@ == only_flag(18, 0),
    {
        let r = Self { ACCELERATLE: 1, OOMPH: 0, PSYCHE: 0, BOUNCE: 0, ARSENE: 0, BREATHING: 0, LIMIT: 0, KO: 0, WING: 0, MONAD_JUMP: 0, MONAD_SPEED: 0, MONAD_SHIELD: 0, MONAD_BUSTER: 0, MONAD_SMASH: 0, POWER_DRAGON: 0, WAFT_MINI: 0, WAFT_HALF: 0, WAFT_FULL: 0 };
        assert(r@ =~= only_flag(18, 0));
        r
    }

    /// Only "Oomph" selected.
    pub fn OOMPH() -> (r: Self)
        ensures
            r@ == only_flag(18, 1),
    {
        let r = Self { ACCELERATLE: 0, OOMPH: 1, PSYCHE: 0, BOUNCE: 0, ARSENE: 0, BREATHING: 0, LIMIT: 0, KO: 0, WING: 0, MONAD_JUMP: 0, MONAD_SPEED: 0, MONAD_SHIELD: 0, MONAD_BUSTER: 0, MONAD_SMASH: 0, POWER_DRAGON: 0, WAFT_MINI: 0, WAFT_HALF: 0, WAFT_FULL: 0 };
        assert(r@ =~= only_flag(18, 1));
        r
    }

    /// Only "Psyche Up" selected.
    pub fn PSYCHE() -> (r: Self)
        ensures
            r@ == only_flag(18, 2),
    {
        let r = Self { ACCELERATLE: 0, OOMPH: 0, PSYCHE: 1, BOUNCE: 0, ARSENE: 0, BREATHING: 0, LIMIT: 0, KO: 0, WING: 0, MONAD_JUMP: 0, MONAD_SPEED: 0, MONAD_SHIELD: 0, MONAD_BUSTER: 0, MONAD_SMASH: 0, POWER_DRAGON: 0, WAFT_MINI: 0, WAFT_HALF: 0, WAFT_FULL: 0 };
        assert(r@ =~= only_flag(18, 2));
        r
    }

    /// Only "Bounce" selected.
    pub fn BOUNCE() -> (r: Self)
        ensures
            r@ == only_flag(18, 3),
    {
        let r = Self { ACCELERATLE: 0, OOMPH: 0, PSYCHE: 0, BOUNCE: 1, ARSENE: 0, BREATHING: 0, LIMIT: 0, KO: 0, WING: 0, MONAD_JUMP: 0, MONAD_SPEED: 0, MONAD_SHIELD: 0, MONAD_BUSTER: 0, MONAD_SMASH: 0, POWER_DRAGON: 0, WAFT_MINI: 0, WAFT_HALF: 0, WAFT_FULL: 0 };
        assert(r@ =~= only_flag(18, 3));
        r
    }

    /// Only "Arsene" selected.
    pub fn ARSENE() -> (r: Self)
        ensures
            r@ == only_flag(18, 4),
    {
        let r = Self { ACCELERATLE: 0, OOMPH: 0, PSYCHE: 0, BOUNCE: 0, ARSENE: 1, BREATHING: 0, LIMIT: 0, KO: 0, WING: 0, MONAD_JUMP: 0, MONAD_SPEED: 0, MONAD_SHIELD: 0, MONAD_BUSTER: 0, MONAD_SMASH: 0, POWER_DRAGON: 0, WAFT_MINI: 0, WAFT_HALF: 0, WAFT_FULL: 0 };
        assert(r@ =~= only_flag(18, 4));
        r
    }

    /// Only "Deep Breathing" selected.
    pub fn BREATHING() -> (r: Self)
        ensures
            r@ == only_flag(18, 5),
    {
        let r = Self { ACCELERATLE: 0, OOMPH: 0, PSYCHE: 0, BOUNCE: 0, ARSENE: 0, BREATHING: 1, LIMIT: 0, KO: 0, WING: 0, MONAD_JUMP: 0, MONAD_SPEED: 0, MONAD_SHIELD: 0, MONAD_BUSTER: 0, MONAD_SMASH: 0, POWER_DRAGON: 0, WAFT_MINI: 0, WAFT_HALF: 0, WAFT_FULL: 0 };
        assert(r@ =~= only_flag(18, 5));
        r
    }

    /// Only "Limit" selected.
    pub fn LIMIT() -> (r: Self)
        ensures
            r@ == only_flag(18, 6),
    {
        let r = Self { ACCELERATLE: 0, OOMPH: 0, PSYCHE: 0, BOUNCE: 0, ARSENE: 0, BREATHING: 0, LIMIT: 1, KO: 0, WING: 0, MONAD_JUMP: 0, MONAD_SPEED: 0, MONAD_SHIELD: 0, MONAD_BUSTER: 0, MONAD_SMASH: 0, POWER_DRAGON: 0, WAFT_MINI: 0, WAFT_HALF: 0, WAFT_FULL: 0 };
        assert(r@ =~= only_flag(18, 6));
        r
    }

    /// Only "KO Punch" selected.
    pub fn KO() -> (r: Self)
        ensures
            r@ == only_flag(18, 7),
    {
        let r = Self { ACCELERATLE: 0, OOMPH: 0, PSYCHE: 0, BOUNCE: 0, ARSENE: 0, BREATHING: 0, LIMIT: 0, KO: 1, WING: 0, MONAD_JUMP: 0, MONAD_SPEED: 0, MONAD_SHIELD: 0, MONAD_BUSTER: 0, MONAD_SMASH: 0, POWER_DRAGON: 0, WAFT_MINI: 0, WAFT_HALF: 0, WAFT_FULL: 0 };
        assert(r@ =~= only_flag(18, 7));
        r
    }

    /// Only "1-Winged Angel" selected.
    pub fn WING() -> (r: Self)
        ensures
            r@ == only_flag(18, 8),
    {
        let r = Self { ACCELERATLE: 0, OOMPH: 0, PSYCHE: 0, BOUNCE: 0, ARSENE: 0, BREATHING: 0, LIMIT: 0, KO: 0, WING: 1, MONAD_JUMP: 0, MONAD_SPEED: 0, MONAD_SHIELD: 0, MONAD_BUSTER: 0, MONAD_SMASH: 0, POWER_DRAGON: 0, WAFT_MINI: 0, WAFT_HALF: 0, WAFT_FULL: 0 };
        assert(r@ =~= only_flag(18, 8));
        r
    }

    /// Only "Jump" selected.
    pub fn MONAD_JUMP() -> (r: Self)
        ensures
            r@ == only_flag(18, 9),
    {
        let r = Self { ACCELERATLE: 0, OOMPH: 0, PSYCHE: 0, BOUNCE: 0, ARSENE: 0, BREATHING: 0, LIMIT: 0, KO: 0, WING: 0, MONAD_JUMP: 1, MONAD_SPEED: 0, MONAD_SHIELD: 0, MONAD_BUSTER: 0, MONAD_SMASH: 0, POWER_DRAGON: 0, WAFT_MINI: 0, WAFT_HALF: 0, WAFT_FULL: 0 };
        assert(r@ =~= only_flag(18, 9));
        r
    }

    /// Only "Speed" selected.
    pub fn MONAD_SPEED() -> (r: Self)
        ensures
            r@ == only_flag(18, 10),
    {
        let r = Self { ACCELERATLE: 0, OOMPH: 0, PSYCHE: 0, BOUNCE: 0, ARSENE: 0, BREATHING: 0, LIMIT: 0, KO: 0, WING: 0, MONAD_JUMP: 0, MONAD_SPEED: 1, MONAD_SHIELD: 0, MONAD_BUSTER: 0, MONAD_SMASH: 0, POWER_DRAGON: 0, WAFT_MINI: 0, WAFT_HALF: 0, WAFT_FULL: 0 };
        assert(r@ =~= only_flag(18, 10));
        r
    }

    /// Only "Shield" selected.
    pub fn MONAD_SHIELD() -> (r: Self)
        ensures
            r@ == only_flag(18, 11),
    {
        let r = Self { ACCELERATLE: 0, OOMPH: 0, PSYCHE: 0, BOUNCE: 0, ARSENE: 0, BREATHING: 0, LIMIT: 0, KO: 0, WING: 0, MONAD_JUMP: 0, MONAD_SPEED: 0, MONAD_SHIELD: 1, MONAD_BUSTER: 0, MONAD_SMASH: 0, POWER_DRAGON: 0, WAFT_MINI: 0, WAFT_HALF: 0, WAFT_FULL: 0 };
        assert(r@ =~= only_flag(18, 11));
        r
    }

    /// Only "Buster" selected.
    pub fn MONAD_BUSTER() -> (r: Self)
        ensures
            r@ == only_flag(18, 12),
    {
        let r = Self { ACCELERATLE: 0, OOMPH: 0, PSYCHE: 0, BOUNCE: 0, ARSENE: 0, BREATHING: 0, LIMIT: 0, KO: 0, WING: 0, MONAD_JUMP: 0, MONAD_SPEED: 0, MONAD_SHIELD: 0, MONAD_BUSTER: 1, MONAD_SMASH: 0, POWER_DRAGON: 0, WAFT_MINI: 0, WAFT_HALF: 0, WAFT_FULL: 0 };
        assert(r@ =~= only_flag(18, 12));
        r
    }

    /// Only "Smash" selected.
    pub fn MONAD_SMASH() -> (r: Self)
        ensures
            r@ == only_flag(18, 13),
    {
        let r = Self { ACCELERATLE: 0, OOMPH: 0, PSYCHE: 0, BOUNCE: 0, ARSENE: 0, BREATHING: 0, LIMIT: 0, KO: 0, WING: 0, MONAD_JUMP: 0, MONAD_SPEED: 0, MONAD_SHIELD: 0, MONAD_BUSTER: 0, MONAD_SMASH: 1, POWER_DRAGON: 0, WAFT_MINI: 0, WAFT_HALF: 0, WAFT_FULL: 0 };
        assert(r@ =~= only_flag(18, 13));
        r
    }

    /// Only "Power Dragon" selected.
    pub fn POWER_DRAGON() -> (r: Self)
        ensures
            r@ == only_flag(18, 14),
    {
        let r = Self { ACCELERATLE: 0, OOMPH: 0, PSYCHE: 0, BOUNCE: 0, ARSENE: 0, BREATHING: 0, LIMIT: 0, KO: 0, WING: 0, MONAD_JUMP: 0, MONAD_SPEED: 0, MONAD_SHIELD: 0, MONAD_BUSTER: 0, MONAD_SMASH: 0, POWER_DRAGON: 1, WAFT_MINI: 0, WAFT_HALF: 0, WAFT_FULL: 0 };
        assert(r@ =~= only_flag(18, 14));
        r
    }

    /// Only "Mini Waft" selected.
    pub fn WAFT_MINI() -> (r: Self)
        ensures
            r@ == only_flag(18, 15),
    {
        let r = Self { ACCELERATLE: 0, OOMPH: 0, PSYCHE: 0, BOUNCE: 0, ARSENE: 0, BREATHING: 0, LIMIT: 0, KO: 0, WING: 0, MONAD_JUMP: 0, MONAD_SPEED: 0, MONAD_SHIELD: 0, MONAD_BUSTER: 0, MONAD_SMASH: 0, POWER_DRAGON: 0, WAFT_MINI: 1, WAFT_HALF: 0, WAFT_FULL: 0 };
        assert(r@ =~= only_flag(18, 15));
        r
    }

    /// Only "Half Waft" selected.
    pub fn WAFT_HALF() -> (r: Self)
        ensures
            r@ == only_flag(18, 16),
    {
        let r = Self { ACCELERATLE: 0, OOMPH: 0, PSYCHE: 0, BOUNCE: 0, ARSENE: 0, BREATHING: 0, LIMIT: 0, KO: 0, WING: 0, MONAD_JUMP: 0, MONAD_SPEED: 0, MONAD_SHIELD: 0, MONAD_BUSTER: 0, MONAD_SMASH: 0, POWER_DRAGON: 0, WAFT_MINI: 0, WAFT_HALF: 1, WAFT_FULL: 0 };
        assert(r@ =~= only_flag(18, 16));
        r
    }

    /// Only "Full Waft" selected.
    pub fn WAFT_FULL() -> (r: Self)
        ensures
            r@ == only_flag(18, 17),
    {
        let r = Self { ACCELERATLE: 0, OOMPH: 0, PSYCHE: 0, BOUNCE: 0, ARSENE: 0, BREATHING: 0, LIMIT: 0, KO: 0, WING: 0, MONAD_JUMP: 0, MONAD_SPEED: 0, MONAD_SHIELD: 0, MONAD_BUSTER: 0, MONAD_SMASH: 0, POWER_DRAGON: 0, WAFT_MINI: 0, WAFT_HALF: 0, WAFT_FULL: 1 };
        assert(r@ =~= only_flag(18, 17));
        r
    }

    /// The weights, in choice order.
    pub fn to_vec(&self) -> (v: Vec<u8>)
        ensures
            v@ == self@,
    {
        let v = vec![self.ACCELERATLE, self.OOMPH, self.PSYCHE, self.BOUNCE, self.ARSENE, self.BREATHING, self.LIMIT, self.KO, self.WING, self.MONAD_JUMP, self.MONAD_SPEED, self.MONAD_SHIELD, self.MONAD_BUSTER, self.MONAD_SMASH, self.POWER_DRAGON, self.WAFT_MINI, self.WAFT_HALF, self.WAFT_FULL];
        assert(v@ =~= self@);
        v
    }

    /// The option with the given weights, in choice order.
    pub fn from_weights(w: &Vec<u8>) -> (r: Self)
        requires
            w@.len() == 18,
        ensures
            r@ == w@,
    {
        let r = Self { ACCELERATLE: w[0], OOMPH: w[1], PSYCHE: w[2], BOUNCE: w[3], ARSENE: w[4], BREATHING: w[5], LIMIT: w[6], KO: w[7], WING: w[8], MONAD_JUMP: w[9], MONAD_SPEED: w[10], MONAD_SHIELD: w[11], MONAD_BUSTER: w[12], MONAD_SMASH: w[13], POWER_DRAGON: w[14], WAFT_MINI: w[15], WAFT_HALF: w[16], WAFT_FULL: w[17] };
        assert(r@ =~= w@);
        r
    }

    /// Whether every choice selected in `other` is selected here.
    pub fn contains(&self, other: &Self) -> (b: bool)
        ensures
            b == flags_contains(self@, other@),
    {
        contains_weights(&self.to_vec(), &other.to_vec())
    }

    /// Choice-wise saturating sum of the weights.
    pub fn union(&self, other: Self) -> (r: Self)
        ensures
            r@ == flags_union(self@, other@),
    {
        Self::from_weights(&union_weights(&self.to_vec(), &other.to_vec()))
    }

    /// The weights of this option for the choices selected in `other`.
    pub fn left_intersection(&self, other: Self) -> (r: Self)
        ensures
            r@ == flags_left_intersection(self@, other@),
    {
        Self::from_weights(&left_intersection_weights(&self.to_vec(), &other.to_vec()))
    }

    /// A random single choice among the selected ones, in proportion to the weights;
    /// no choice when none is selected.
    pub fn get_random(&self) -> (r: Self)
        ensures
            is_random_pick(r@, self@),
    {
        Self::from_weights(&random_weights(&self.to_vec()))
    }

    /// The names of the selected choices joined with `" + "`.
    pub fn to_string(&self) -> (s: String)
        ensures
            s@ == flags_display(self@, Self::spec_names()),
    {
        display_weights(&self.to_vec(), &Self::names())
    }

    /// The menu page of this option: one toggle per choice, or a slider.
    pub fn to_submenu(title: &'static str, id: &'static str, help_text: &'static str, submenu_type: SubMenuType) -> (s: SubMenu)
        ensures
            submenu_matches(s, Self::spec_names(), title@, id@, help_text@, submenu_type),
    {
        submenu_from_names(Self::names(), title, id, help_text, submenu_type)
    }
}

/// Throws the CPU performs.
#[derive(Clone, Copy, Debug, PartialEq, Eq, Structural)]
pub struct ThrowOption {
    pub NONE: u8,
    pub FORWARD: u8,
    pub BACKWARD: u8,
    pub UP: u8,
    pub DOWN: u8,
}

impl View for ThrowOption {
    type V = Seq<u8>;

    open spec fn view(&self) -> Seq<u8> {
        seq![self.NONE, self.FORWARD, self.BACKWARD, self.UP, self.DOWN]
    }
}

impl ThrowOption {
    /// Number of choices.
    pub open spec fn choices() -> nat {
        5
    }

    /// Display names of the choices, in order.
    pub open spec fn spec_names() -> Seq<Seq<char>> {
        seq!["None"@, "Forward Throw"@, "Backward Throw"@, "Up Throw"@, "Down Throw"@]
    }

    /// Display names of the choices, in order.
    pub fn names() -> (v: Vec<&'static str>)
        ensures
            v@.len() == Self::choices(),
            v@.map_values(|s: &str| s@) == Self::spec_names(),
    {
        let v = vec!["None", "Forward Throw", "Backward Throw", "Up Throw", "Down Throw"];
        assert(v@.map_values(|s: &str| s@) =~= Self::spec_names());
        v
    }

    /// No choice selected.
    pub fn new() -> (r: Self)
        ensures
            r@ == Seq::new(5, |i: int| 0u8),
    {
        let r = Self { NONE: 0, FORWARD: 0, BACKWARD: 0, UP: 0, DOWN: 0 };
        assert(r@ =~= Seq::new(5, |i: int| 0u8));
        r
    }

    /// No choice selected.
    pub fn empty() -> (r: Self)
        ensures
            r@ == Seq::new(5, |i: int| 0u8),
            no_flags(r@),
    {
        Self::new()
    }

    /// Every choice selected with weight one.
    pub fn all() -> (r: Self)
        ensures
            r@ == Seq::new(5, |i: int| 1u8),
    {
        let r = Self { NONE: 1, FORWARD: 1, BACKWARD: 1, UP: 1, DOWN: 1 };
        assert(r@ =~= Seq::new(5, |i: int| 1u8));
        r
    }

    /// Only "None" selected.
    pub fn NONE() -> (r: Self)
        ensures
            r@ == only_flag(5, 0),
    {
        let r = Self { NONE: 1, FORWARD: 0, BACKWARD: 0, UP: 0, DOWN: 0 };
        assert(r@ =~= only_flag(5, 0));
        r
    }

    /// Only "Forward Throw" selected.
    pub fn FORWARD() -> (r: Self)
        ensures
            r@ == only_flag(5, 1),
    {
        let r = Self { NONE: 0, FORWARD: 1, BACKWARD: 0, UP: 0, DOWN: 0 };
        assert(r@ =~= only_flag(5, 1));
        r
    }

    /// Only "Backward Throw" selected.
    pub fn BACKWARD() -> (r: Self)
        ensures
            r@ == only_flag(5, 2),
    {
        let r = Self { NONE: 0, FORWARD: 0, BACKWARD: 1, UP: 0, DOWN: 0 };
        assert(r@ =~= only_flag(5, 2));
        r
    }

    /// Only "Up Throw" selected.
    pub fn UP() -> (r: Self)
        ensures
            r@ == only_flag(5, 3),
    {
        let r = Self { NONE: 0, FORWARD: 0, BACKWARD: 0, UP: 1, DOWN: 0 };
        assert(r@ =~= only_flag(5, 3));
        r
    }

    /// Only "Down Throw" selected.
    pub fn DOWN() -> (r: Self)
        ensures
            r@ == only_flag(5, 4),
    {
        let r = Self { NONE: 0, FORWARD: 0, BACKWARD: 0, UP: 0, DOWN: 1 };
        assert(r@ =~= only_flag(5, 4));
        r
    }

    /// The weights, in choice order.
    pub fn to_vec(&self) -> (v: Vec<u8>)
        ensures
            v@ == self@,
    {
        let v = vec![self.NONE, self.FORWARD, self.BACKWARD, self.UP, self.DOWN];
        assert(v@ =~= self@);
        v
    }

    /// The option with the given weights, in choice order.
    pub fn from_weights(w: &Vec<u8>) -> (r: Self)
        requires
            w@.len() == 5,
        ensures
            r@ == w@,
    {
        let r = Self { NONE: w[0], FORWARD: w[1], BACKWARD: w[2], UP: w[3], DOWN: w[4] };
        assert(r@ =~= w@);
        r
    }

    /// Whether every choice selected in `other` is selected here.
    pub fn contains(&self, other: &Self) -> (b: bool)
        ensures
            b == flags_contains(self@, other@),
    {
        contains_weights(&self.to_vec(), &other.to_vec())
    }

    /// Choice-wise saturating sum of the weights.
    pub fn union(&self, other: Self) -> (r: Self)
        ensures
            r@ == flags_union(self@, other@),
    {
        Self::from_weights(&union_weights(&self.to_vec(), &other.to_vec()))
    }

    /// The weights of this option for the choices selected in `other`.
    pub fn left_intersection(&self, other: Self) -> (r: Self)
        ensures
            r@ == flags_left_intersection(self@, other@),
    {
        Self::from_weights(&left_intersection_weights(&self.to_vec(), &other.to_vec()))
    }

    /// A random single choice among the selected ones, in proportion to the weights;
    /// no choice when none is selected.
    pub fn get_random(&self) -> (r: Self)
        ensures
            is_random_pick(r@, self@),
    {
        Self::from_weights(&random_weights(&self.to_vec()))
    }

    /// The names of the selected choices joined with `" + "`.
    pub fn to_string(&self) -> (s: String)
        ensures
            s@ == flags_display(self@, Self::spec_names()),
    {
        display_weights(&self.to_vec(), &Self::names())
    }

    /// The menu page of this option: one toggle per choice, or a slider.
    pub fn to_submenu(title: &'static str, id: &'static str, help_text: &'static str, submenu_type: SubMenuType) -> (s: SubMenu)
        ensures
            submenu_matches(s, Self::spec_names(), title@, id@, help_text@, submenu_type),
    {
        submenu_from_names(Self::names(), title, id, help_text, submenu_type)
    }
}

/// A true/false choice that can also be randomized.
#[derive(Clone, Copy, Debug, PartialEq, Eq, Structural)]
pub struct BoolFlag {
    pub TRUE: u8,
    pub FALSE: u8,
}

impl View for BoolFlag {
    type V = Seq<u8>;

    open spec fn view(&self) -> Seq<u8> {
        seq![self.TRUE, self.FALSE]
    }
}

impl BoolFlag {
    /// Number of choices.
    pub open spec fn choices() -> nat {
        2
    }

    /// Display names of the choices, in order.
    pub open spec fn spec_names() -> Seq<Seq<char>> {
        seq!["True"@, "False"@]
    }

    /// Display names of the choices, in order.
    pub fn names() -> (v: Vec<&'static str>)
        ensures
            v@.len() == Self::choices(),
            v@.map_values(|s: &str| s@) == Self::spec_names(),
    {
        let v = vec!["True", "False"];
        assert(v@.map_values(|s: &str| s@) =~= Self::spec_names());
        v
    }

    /// No choice selected.
    pub fn new() -> (r: Self)
        ensures
            r@ == Seq::new(2, |i: int| 0u8),
    {
        let r = Self { TRUE: 0, FALSE: 0 };
        assert(r@ =~= Seq::new(2, |i: int| 0u8));
        r
    }

    /// No choice selected.
    pub fn empty() -> (r: Self)
        ensures
            r@ == Seq::new(2, |i: int| 0u8),
            no_flags(r@),
    {
        Self::new()
    }

    /// Every choice selected with weight one.
    pub fn all() -> (r: Self)
        ensures
            r@ == Seq::new(2, |i: int| 1u8),
    {
        let r = Self { TRUE: 1, FALSE: 1 };
        assert(r@ =~= Seq::new(2, |i: int| 1u8));
        r
    }

    /// Only "True" selected.
    pub fn TRUE() -> (r: Self)
        ensures
            r@ == only_flag(2, 0),
    {
        let r = Self { TRUE: 1, FALSE: 0 };
        assert(r@ =~= only_flag(2, 0));
        r
    }

    /// Only "False" selected.
    pub fn FALSE() -> (r: Self)
        ensures
            r@ == only_flag(2, 1),
    {
        let r = Self { TRUE: 0, FALSE: 1 };
        assert(r@ =~= only_flag(2, 1));
        r
    }

    /// The weights, in choice order.
    pub fn to_vec(&self) -> (v: Vec<u8>)
        ensures
            v@ == self@,
    {
        let v = vec![self.TRUE, self.FALSE];
        assert(v@ =~= self@);
        v
    }

    /// The option with the given weights, in choice order.
    pub fn from_weights(w: &Vec<u8>) -> (r: Self)
        requires
            w@.len() == 2,
        ensures
            r@ == w@,
    {
        let r = Self { TRUE: w[0], FALSE: w[1] };
        assert(r@ =~= w@);
        r
    }

    /// Whether every choice selected in `other` is selected here.
    pub fn contains(&self, other: &Self) -> (b: bool)
        ensures
            b == flags_contains(self@, other@),
    {
        contains_weights(&self.to_vec(), &other.to_vec())
    }

    /// Choice-wise saturating sum of the weights.
    pub fn union(&self, other: Self) -> (r: Self)
        ensures
            r@ == flags_union(self@, other@),
    {
        Self::from_weights(&union_weights(&self.to_vec(), &other.to_vec()))
    }

    /// The weights of this option for the choices selected in `other`.
    pub fn left_intersection(&self, other: Self) -> (r: Self)
        ensures
            r@ == flags_left_intersection(self@, other@),
    {
        Self::from_weights(&left_intersection_weights(&self.to_vec(), &other.to_vec()))
    }

    /// A random single choice among the selected ones, in proportion to the weights;
    /// no choice when none is selected.
    pub fn get_random(&self) -> (r: Self)
        ensures
            is_random_pick(r@, self@),
    {
        Self::from_weights(&random_weights(&self.to_vec()))
    }

    /// The names of the selected choices joined with `" + "`.
    pub fn to_string(&self) -> (s: String)
        ensures
            s@ == flags_display(self@, Self::spec_names()),
    {
        display_weights(&self.to_vec(), &Self::names())
    }

    /// The menu page of this option: one toggle per choice, or a slider.
    pub fn to_submenu(title: &'static str, id: &'static str, help_text: &'static str, submenu_type: SubMenuType) -> (s: SubMenu)
        ensures
            submenu_matches(s, Self::spec_names(), title@, id@, help_text@, submenu_type),
    {
        submenu_from_names(Self::names(), title, id, help_text, submenu_type)
    }
}

/// How often the CPU inputs SDI.
#[derive(Clone, Copy, Debug, PartialEq, Eq, Structural)]
pub struct SdiFrequency {
    pub NONE: u8,
    pub NORMAL: u8,
    pub MEDIUM: u8,
    pub HIGH: u8,
}

impl View for SdiFrequency {
    type V = Seq<u8>;

    open spec fn view(&self) -> Seq<u8> {
        seq![self.NONE, self.NORMAL, self.MEDIUM, self.HIGH]
    }
}

impl SdiFrequency {
    /// Number of choices.
    pub open spec fn choices() -> nat {
        4
    }

    /// Display names of the choices, in order.
    pub open spec fn spec_names() -> Seq<Seq<char>> {
        seq!["None"@, "Normal"@, "Medium"@, "High"@]
    }

    /// Display names of the choices, in order.
    pub fn names() -> (v: Vec<&'static str>)
        ensures
            v@.len() == Self::choices(),
            v@.map_values(|s: &str| s@) == Self::spec_names(),
    {
        let v = vec!["None", "Normal", "Medium", "High"];
        assert(v@.map_values(|s: &str| s@) =~= Self::spec_names());
        v
    }

    /// No choice selected.
    pub fn new() -> (r: Self)
        ensures
            r@ == Seq::new(4, |i: int| 0u8),
    {
        let r = Self { NONE: 0, NORMAL: 0, MEDIUM: 0, HIGH: 0 };
        assert(r@ =~= Seq::new(4, |i: int| 0u8));
        r
    }

    /// No choice selected.
    pub fn empty() -> (r: Self)
        ensures
            r@ == Seq::new(4, |i: int| 0u8),
            no_flags(r@),
    {
        Self::new()
    }

    /// Every choice selected with weight one.
    pub fn all() -> (r: Self)
        ensures
            r@ == Seq::new(4, |i: int| 1u8),
    {
        let r = Self { NONE: 1, NORMAL: 1, MEDIUM: 1, HIGH: 1 };
        assert(r@ =~= Seq::new(4, |i: int| 1u8));
        r
    }

    /// Only "None" selected.
    pub fn NONE() -> (r: Self)
        ensures
            r@ == only_flag(4, 0),
    {
        let r = Self { NONE: 1, NORMAL: 0, MEDIUM: 0, HIGH: 0 };
        assert(r@ =~= only_flag(4, 0));
        r
    }

    /// Only "Normal" selected.
    pub fn NORMAL() -> (r: Self)
        ensures
            r@ == only_flag(4, 1),
    {
        let r = Self { NONE: 0, NORMAL: 1, MEDIUM: 0, HIGH: 0 };
        assert(r@ =~= only_flag(4, 1));
        r
    }

    /// Only "Medium" selected.
    pub fn MEDIUM() -> (r: Self)
        ensures
            r@ == only_flag(4, 2),
    {
        let r = Self { NONE: 0, NORMAL: 0, MEDIUM: 1, HIGH: 0 };
        assert(r@ =~= only_flag(4, 2));
        r
    }

    /// Only "High" selected.
    pub fn HIGH() -> (r: Self)
        ensures
            r@ == only_flag(4, 3),
    {
        let r = Self { NONE: 0, NORMAL: 0, MEDIUM: 0, HIGH: 1 };
        assert(r@ =~= only_flag(4, 3));
        r
    }

    /// The weights, in choice order.
    pub fn to_vec(&self) -> (v: Vec<u8>)
        ensures
            v@ == self@,
    {
        let v = vec![self.NONE, self.NORMAL, self.MEDIUM, self.HIGH];
        assert(v@ =~= self@);
        v
    }

    /// The option with the given weights, in choice order.
    pub fn from_weights(w: &Vec<u8>) -> (r: Self)
        requires
            w@.len() == 4,
        ensures
            r@ == w@,
    {
        let r = Self { NONE: w[0], NORMAL: w[1], MEDIUM: w[2], HIGH: w[3] };
        assert(r@ =~= w@);
        r
    }

    /// Whether every choice selected in `other` is selected here.
    pub fn contains(&self, other: &Self) -> (b: bool)
        ensures
            b == flags_contains(self@, other@),
    {
        contains_weights(&self.to_vec(), &other.to_vec())
    }

    /// Choice-wise saturating sum of the weights.
    pub fn union(&self, other: Self) -> (r: Self)
        ensures
            r@ == flags_union(self@, other@),
    {
        Self::from_weights(&union_weights(&self.to_vec(), &other.to_vec()))
    }

    /// The weights of this option for the choices selected in `other`.
    pub fn left_intersection(&self, other: Self) -> (r: Self)
        ensures
            r@ == flags_left_intersection(self@, other@),
    {
        Self::from_weights(&left_intersection_weights(&self.to_vec(), &other.to_vec()))
    }

    /// A random single choice among the selected ones, in proportion to the weights;
    /// no choice when none is selected.
    pub fn get_random(&self) -> (r: Self)
        ensures
            is_random_pick(r@, self@),
    {
        Self::from_weights(&random_weights(&self.to_vec()))
    }

    /// The names of the selected choices joined with `" + "`.
    pub fn to_string(&self) -> (s: String)
        ensures
            s@ == flags_display(self@, Self::spec_names()),
    {
        display_weights(&self.to_vec(), &Self::names())
    }

    /// The menu page of this option: one toggle per choice, or a slider.
    pub fn to_submenu(title: &'static str, id: &'static str, help_text: &'static str, submenu_type: SubMenuType) -> (s: SubMenu)
        ensures
            submenu_matches(s, Self::spec_names(), title@, id@, help_text@, submenu_type),
    {
        submenu_from_names(Self::names(), title, id, help_text, submenu_type)
    }
}

/// How often the CPU mashes out of clatter.
#[derive(Clone, Copy, Debug, PartialEq, Eq, Structural)]
pub struct ClatterFrequency {
    pub NONE: u8,
    pub NORMAL: u8,
    pub MEDIUM: u8,
    pub HIGH: u8,
}

impl View for ClatterFrequency {
    type V = Seq<u8>;

    open spec fn view(&self) -> Seq<u8> {
        seq![self.NONE, self.NORMAL, self.MEDIUM, self.HIGH]
    }
}

impl ClatterFrequency {
    /// Number of choices.
    pub open spec fn choices() -> nat {
        4
    }

    /// Display names of the choices, in order.
    pub open spec fn spec_names() -> Seq<Seq<char>> {
        seq!["None"@, "Normal"@, "Medium"@, "High"@]
    }

    /// Display names of the choices, in order.
    pub fn names() -> (v: Vec<&'static str>)
        ensures
            v@.len() == Self::choices(),
            v@.map_values(|s: &str| s@) == Self::spec_names(),
    {
        let v = vec!["None", "Normal", "Medium", "High"];
        assert(v@.map_values(|s: &str| s@) =~= Self::spec_names());
        v
    }

    /// No choice selected.
    pub fn new() -> (r: Self)
        ensures
            r@ == Seq::new(4, |i: int| 0u8),
    {
        let r = Self { NONE: 0, NORMAL: 0, MEDIUM: 0, HIGH: 0 };
        assert(r@ =~= Seq::new(4, |i: int| 0u8));
        r
    }

    /// No choice selected.
    pub fn empty() -> (r: Self)
        ensures
            r@ == Seq::new(4, |i: int| 0u8),
            no_flags(r@),
    {
        Self::new()
    }

    /// Every choice selected with weight one.
    pub fn all() -> (r: Self)
        ensures
            r@ == Seq::new(4, |i: int| 1u8),
    {
        let r = Self { NONE: 1, NORMAL: 1, MEDIUM: 1, HIGH: 1 };
        assert(r@ =~= Seq::new(4, |i: int| 1u8));
        r
    }

    /// Only "None" selected.
    pub fn NONE() -> (r: Self)
        ensures
            r@ == only_flag(4, 0),
    {
        let r = Self { NONE: 1, NORMAL: 0, MEDIUM: 0, HIGH: 0 };
        assert(r@ =~= only_flag(4, 0));
        r
    }

    /// Only "Normal" selected.
    pub fn NORMAL() -> (r: Self)
        ensures
            r@ == only_flag(4, 1),
    {
        let r = Self { NONE: 0, NORMAL: 1, MEDIUM: 0, HIGH: 0 };
        assert(r@ =~= only_flag(4, 1));
        r
    }

    /// Only "Medium" selected.
    pub fn MEDIUM() -> (r: Self)
        ensures
            r@ == only_flag(4, 2),
    {
        let r = Self { NONE: 0, NORMAL: 0, MEDIUM: 1, HIGH: 0 };
        assert(r@ =~= only_flag(4, 2));
        r
    }

    /// Only "High" selected.
    pub fn HIGH() -> (r: Self)
        ensures
            r@ == only_flag(4, 3),
    {
        let r = Self { NONE: 0, NORMAL: 0, MEDIUM: 0, HIGH: 1 };
        assert(r@ =~= only_flag(4, 3));
        r
    }

    /// The weights, in choice order.
    pub fn to_vec(&self) -> (v: Vec<u8>)
        ensures
            v@ == self@,
    {
        let v = vec![self.NONE, self.NORMAL, self.MEDIUM, self.HIGH];
        assert(v@ =~= self@);
        v
    }

    /// The option with the given weights, in choice order.
    pub fn from_weights(w: &Vec<u8>) -> (r: Self)
        requires
            w@.len() == 4,
        ensures
            r@ == w@,
    {
        let r = Self { NONE: w[0], NORMAL: w[1], MEDIUM: w[2], HIGH: w[3] };
        assert(r@ =~= w@);
        r
    }

    /// Whether every choice selected in `other` is selected here.
    pub fn contains(&self, other: &Self) -> (b: bool)
        ensures
            b == flags_contains(self@, other@),
    {
        contains_weights(&self.to_vec(), &other.to_vec())
    }

    /// Choice-wise saturating sum of the weights.
    pub fn union(&self, other: Self) -> (r: Self)
        ensures
            r@ == flags_union(self@, other@),
    {
        Self::from_weights(&union_weights(&self.to_vec(), &other.to_vec()))
    }

    /// The weights of this option for the choices selected in `other`.
    pub fn left_intersection(&self, other: Self) -> (r: Self)
        ensures
            r@ == flags_left_intersection(self@, other@),
    {
        Self::from_weights(&left_intersection_weights(&self.to_vec(), &other.to_vec()))
    }

    /// A random single choice among the selected ones, in proportion to the weights;
    /// no choice when none is selected.
    pub fn get_random(&self) -> (r: Self)
        ensures
            is_random_pick(r@, self@),
    {
        Self::from_weights(&random_weights(&self.to_vec()))
    }

    /// The names of the selected choices joined with `" + "`.
    pub fn to_string(&self) -> (s: String)
        ensures
            s@ == flags_display(self@, Self::spec_names()),
    {
        display_weights(&self.to_vec(), &Self::names())
    }

    /// The menu page of this option: one toggle per choice, or a slider.
    pub fn to_submenu(title: &'static str, id: &'static str, help_text: &'static str, submenu_type: SubMenuType) -> (s: SubMenu)
        ensures
            submenu_matches(s, Self::spec_names(), title@, id@, help_text@, submenu_type),
    {
        submenu_from_names(Self::names(), title, id, help_text, submenu_type)
    }
}

/// Character specific items to hand out.
#[derive(Clone, Copy, Debug, PartialEq, Eq, Structural)]
pub struct CharacterItem {
    pub NONE: u8,
    pub PLAYER_VARIATION_1: u8,
    pub PLAYER_VARIATION_2: u8,
    pub PLAYER_VARIATION_3: u8,
    pub PLAYER_VARIATION_4: u8,
    pub PLAYER_VARIATION_5: u8,
    pub PLAYER_VARIATION_6: u8,
    pub PLAYER_VARIATION_7: u8,
    pub PLAYER_VARIATION_8: u8,
    pub CPU_VARIATION_1: u8,
    pub CPU_VARIATION_2: u8,
    pub CPU_VARIATION_3: u8,
    pub CPU_VARIATION_4: u8,
    pub CPU_VARIATION_5: u8,
    pub CPU_VARIATION_6: u8,
    pub CPU_VARIATION_7: u8,
    pub CPU_VARIATION_8: u8,
}

impl View for CharacterItem {
    type V = Seq<u8>;

    open spec fn view(&self) -> Seq<u8> {
        seq![self.NONE, self.PLAYER_VARIATION_1, self.PLAYER_VARIATION_2, self.PLAYER_VARIATION_3, self.PLAYER_VARIATION_4, self.PLAYER_VARIATION_5, self.PLAYER_VARIATION_6, self.PLAYER_VARIATION_7, self.PLAYER_VARIATION_8, self.CPU_VARIATION_1, self.CPU_VARIATION_2, self.CPU_VARIATION_3, self.CPU_VARIATION_4, self.CPU_VARIATION_5, self.CPU_VARIATION_6, self.CPU_VARIATION_7, self.CPU_VARIATION_8]
    }
}

impl CharacterItem {
    /// Number of choices.
    pub open spec fn choices() -> nat {
        17
    }

    /// Display names of the choices, in order.
    pub open spec fn spec_names() -> Seq<Seq<char>> {
        seq!["None"@, "Player 1st Var."@, "Player 2nd Var."@, "Player 3rd Var."@, "Player 4th Var."@, "Player 5th Var."@, "Player 6th Var."@, "Player 7th Var."@, "Player 8th Var."@, "CPU 1st Var."@, "CPU 2nd Var."@, "CPU 3rd Var."@, "CPU 4th Var."@, "CPU 5th Var."@, "CPU 6th Var."@, "CPU 7th Var."@, "CPU 8th Var."@]
    }

    /// Display names of the choices, in order.
    pub fn names() -> (v: Vec<&'static str>)
        ensures
            v@.len() == Self::choices(),
            v@.map_values(|s: &str| s@) == Self::spec_names(),
    {
        let v = vec!["None", "Player 1st Var.", "Player 2nd Var.", "Player 3rd Var.", "Player 4th Var.", "Player 5th Var.", "Player 6th Var.", "Player 7th Var.", "Player 8th Var.", "CPU 1st Var.", "CPU 2nd Var.", "CPU 3rd Var.", "CPU 4th Var.", "CPU 5th Var.", "CPU 6th Var.", "CPU 7th Var.", "CPU 8th Var."];
        assert(v@.map_values(|s: &str| s@) =~= Self::spec_names());
        v
    }

    /// No choice selected.
    pub fn new() -> (r: Self)
        ensures
            r@ == Seq::new(17, |i: int| 0u8),
    {
        let r = Self { NONE: 0, PLAYER_VARIATION_1: 0, PLAYER_VARIATION_2: 0, PLAYER_VARIATION_3: 0, PLAYER_VARIATION_4: 0, PLAYER_VARIATION_5: 0, PLAYER_VARIATION_6: 0, PLAYER_VARIATION_7: 0, PLAYER_VARIATION_8: 0, CPU_VARIATION_1: 0, CPU_VARIATION_2: 0, CPU_VARIATION_3: 0, CPU_VARIATION_4: 0, CPU_VARIATION_5: 0, CPU_VARIATION_6: 0, CPU_VARIATION_7: 0, CPU_VARIATION_8: 0 };
        assert(r@ =~= Seq::new(17, |i: int| 0u8));
        r
    }

    /// No choice selected.
    pub fn empty() -> (r: Self)
        ensures
            r@ == Seq::new(17, |i: int| 0u8),
            no_flags(r@),
    {
        Self::new()
    }

    /// Every choice selected with weight one.
    pub fn all() -> (r: Self)
        ensures
            r@ == Seq::new(17, |i: int| 1u8),
    {
        let r = Self { NONE: 1, PLAYER_VARIATION_1: 1, PLAYER_VARIATION_2: 1, PLAYER_VARIATION_3: 1, PLAYER_VARIATION_4: 1, PLAYER_VARIATION_5: 1, PLAYER_VARIATION_6: 1, PLAYER_VARIATION_7: 1, PLAYER_VARIATION_8: 1, CPU_VARIATION_1: 1, CPU_VARIATION_2: 1, CPU_VARIATION_3: 1, CPU_VARIATION_4: 1, CPU_VARIATION_5: 1, CPU_VARIATION_6: 1, CPU_VARIATION_7: 1, CPU_VARIATION_8: 1 };
        assert(r@ =~= Seq::new(17, |i: int| 1u8));
        r
    }

    /// Only "None" selected.
    pub fn NONE() -> (r: Self)
        ensures
            r@ == only_flag(17, 0),
    {
        let r = Self { NONE: 1, PLAYER_VARIATION_1: 0, PLAYER_VARIATION_2: 0, PLAYER_VARIATION_3: 0, PLAYER_VARIATION_4: 0, PLAYER_VARIATION_5: 0, PLAYER_VARIATION_6: 0, PLAYER_VARIATION_7: 0, PLAYER_VARIATION_8: 0, CPU_VARIATION_1: 0, CPU_VARIATION_2: 0, CPU_VARIATION_3: 0, CPU_VARIATION_4: 0, CPU_VARIATION_5: 0, CPU_VARIATION_6: 0, CPU_VARIATION_7: 0, CPU_VARIATION_8: 0 };
        assert(r@ =~= only_flag(17, 0));
        r
    }

    /// Only "Player 1st Var." selected.
    pub fn PLAYER_VARIATION_1() -> (r: Self)
        ensures
            r@ == only_flag(17, 1),
    {
        let r = Self { NONE: 0, PLAYER_VARIATION_1: 1, PLAYER_VARIATION_2: 0, PLAYER_VARIATION_3: 0, PLAYER_VARIATION_4: 0, PLAYER_VARIATION_5: 0, PLAYER_VARIATION_6: 0, PLAYER_VARIATION_7: 0, PLAYER_VARIATION_8: 0, CPU_VARIATION_1: 0, CPU_VARIATION_2: 0, CPU_VARIATION_3: 0, CPU_VARIATION_4: 0, CPU_VARIATION_5: 0, CPU_VARIATION_6: 0, CPU_VARIATION_7: 0, CPU_VARIATION_8: 0 };
        assert(r@ =~= only_flag(17, 1));
        r
    }

    /// Only "Player 2nd Var." selected.
    pub fn PLAYER_VARIATION_2() -> (r: Self)
        ensures
            r@ == only_flag(17, 2),
    {
        let r = Self { NONE: 0, PLAYER_VARIATION_1: 0, PLAYER_VARIATION_2: 1, PLAYER_VARIATION_3: 0, PLAYER_VARIATION_4: 0, PLAYER_VARIATION_5: 0, PLAYER_VARIATION_6: 0, PLAYER_VARIATION_7: 0, PLAYER_VARIATION_8: 0, CPU_VARIATION_1: 0, CPU_VARIATION_2: 0, CPU_VARIATION_3: 0, CPU_VARIATION_4: 0, CPU_VARIATION_5: 0, CPU_VARIATION_6: 0, CPU_VARIATION_7: 0, CPU_VARIATION_8: 0 };
        assert(r@ =~= only_flag(17, 2));
        r
    }

    /// Only "Player 3rd Var." selected.
    pub fn PLAYER_VARIATION_3() -> (r: Self)
        ensures
            r@ == only_flag(17, 3),
    {
        let r = Self { NONE: 0, PLAYER_VARIATION_1: 0, PLAYER_VARIATION_2: 0, PLAYER_VARIATION_3: 1, PLAYER_VARIATION_4: 0, PLAYER_VARIATION_5: 0, PLAYER_VARIATION_6: 0, PLAYER_VARIATION_7: 0, PLAYER_VARIATION_8: 0, CPU_VARIATION_1: 0, CPU_VARIATION_2: 0, CPU_VARIATION_3: 0, CPU_VARIATION_4: 0, CPU_VARIATION_5: 0, CPU_VARIATION_6: 0, CPU_VARIATION_7: 0, CPU_VARIATION_8: 0 };
        assert(r@ =~= only_flag(17, 3));
        r
    }

    /// Only "Player 4th Var." selected.
    pub fn PLAYER_VARIATION_4() -> (r: Self)
        ensures
            r@ == only_flag(17, 4),
    {
        let r = Self { NONE: 0, PLAYER_VARIATION_1: 0, PLAYER_VARIATION_2: 0, PLAYER_VARIATION_3: 0, PLAYER_VARIATION_4: 1, PLAYER_VARIATION_5: 0, PLAYER_VARIATION_6: 0, PLAYER_VARIATION_7: 0, PLAYER_VARIATION_8: 0, CPU_VARIATION_1: 0, CPU_VARIATION_2: 0, CPU_VARIATION_3: 0, CPU_VARIATION_4: 0, CPU_VARIATION_5: 0, CPU_VARIATION_6: 0, CPU_VARIATION_7: 0, CPU_VARIATION_8: 0 };
        assert(r@ =~= only_flag(17, 4));
        r
    }

    /// Only "Player 5th Var." selected.
    pub fn PLAYER_VARIATION_5() -> (r: Self)
        ensures
            r@ == only_flag(17, 5),
    {
        let r = Self { NONE: 0, PLAYER_VARIATION_1: 0, PLAYER_VARIATION_2: 0, PLAYER_VARIATION_3: 0, PLAYER_VARIATION_4: 0, PLAYER_VARIATION_5: 1, PLAYER_VARIATION_6: 0, PLAYER_VARIATION_7: 0, PLAYER_VARIATION_8: 0, CPU_VARIATION_1: 0, CPU_VARIATION_2: 0, CPU_VARIATION_3: 0, CPU_VARIATION_4: 0, CPU_VARIATION_5: 0, CPU_VARIATION_6: 0, CPU_VARIATION_7: 0, CPU_VARIATION_8: 0 };
        assert(r@ =~= only_flag(17, 5));
        r
    }

    /// Only "Player 6th Var." selected.
    pub fn PLAYER_VARIATION_6() -> (r: Self)
        ensures
            r@ == only_flag(17, 6),
    {
        let r = Self { NONE: 0, PLAYER_VARIATION_1: 0, PLAYER_VARIATION_2: 0, PLAYER_VARIATION_3: 0, PLAYER_VARIATION_4: 0, PLAYER_VARIATION_5: 0, PLAYER_VARIATION_6: 1, PLAYER_VARIATION_7: 0, PLAYER_VARIATION_8: 0, CPU_VARIATION_1: 0, CPU_VARIATION_2: 0, CPU_VARIATION_3: 0, CPU_VARIATION_4: 0, CPU_VARIATION_5: 0, CPU_VARIATION_6: 0, CPU_VARIATION_7: 0, CPU_VARIATION_8: 0 };
        assert(r@ =~= only_flag(17, 6));
        r
    }

    /// Only "Player 7th Var." selected.
    pub fn PLAYER_VARIATION_7() -> (r: Self)
        ensures
            r@ == only_flag(17, 7),
    {
        let r = Self { NONE: 0, PLAYER_VARIATION_1: 0, PLAYER_VARIATION_2: 0, PLAYER_VARIATION_3: 0, PLAYER_VARIATION_4: 0, PLAYER_VARIATION_5: 0, PLAYER_VARIATION_6: 0, PLAYER_VARIATION_7: 1, PLAYER_VARIATION_8: 0, CPU_VARIATION_1: 0, CPU_VARIATION_2: 0, CPU_VARIATION_3: 0, CPU_VARIATION_4: 0, CPU_VARIATION_5: 0, CPU_VARIATION_6: 0, CPU_VARIATION_7: 0, CPU_VARIATION_8: 0 };
        assert(r@ =~= only_flag(17, 7));
        r
    }

    /// Only "Player 8th Var." selected.
    pub fn PLAYER_VARIATION_8() -> (r: Self)
        ensures
            r@ == only_flag(17, 8),
    {
        let r = Self { NONE: 0, PLAYER_VARIATION_1: 0, PLAYER_VARIATION_2: 0, PLAYER_VARIATION_3: 0, PLAYER_VARIATION_4: 0, PLAYER_VARIATION_5: 0, PLAYER_VARIATION_6: 0, PLAYER_VARIATION_7: 0, PLAYER_VARIATION_8: 1, CPU_VARIATION_1: 0, CPU_VARIATION_2: 0, CPU_VARIATION_3: 0, CPU_VARIATION_4: 0, CPU_VARIATION_5: 0, CPU_VARIATION_6: 0, CPU_VARIATION_7: 0, CPU_VARIATION_8: 0 };
        assert(r@ =~= only_flag(17, 8));
        r
    }

    /// Only "CPU 1st Var." selected.
    pub fn CPU_VARIATION_1() -> (r: Self)
        ensures
            r@ == only_flag(17, 9),
    {
        let r = Self { NONE: 0, PLAYER_VARIATION_1: 0, PLAYER_VARIATION_2: 0, PLAYER_VARIATION_3: 0, PLAYER_VARIATION_4: 0, PLAYER_VARIATION_5: 0, PLAYER_VARIATION_6: 0, PLAYER_VARIATION_7: 0, PLAYER_VARIATION_8: 0, CPU_VARIATION_1: 1, CPU_VARIATION_2: 0, CPU_VARIATION_3: 0, CPU_VARIATION_4: 0, CPU_VARIATION_5: 0, CPU_VARIATION_6: 0, CPU_VARIATION_7: 0, CPU_VARIATION_8: 0 };
        assert(r@ =~= only_flag(17, 9));
        r
    }

    /// Only "CPU 2nd Var." selected.
    pub fn CPU_VARIATION_2() -> (r: Self)
        ensures
            r@ == only_flag(17, 10),
    {
        let r = Self { NONE: 0, PLAYER_VARIATION_1: 0, PLAYER_VARIATION_2: 0, PLAYER_VARIATION_3: 0, PLAYER_VARIATION_4: 0, PLAYER_VARIATION_5: 0, PLAYER_VARIATION_6: 0, PLAYER_VARIATION_7: 0, PLAYER_VARIATION_8: 0, CPU_VARIATION_1: 0, CPU_VARIATION_2: 1, CPU_VARIATION_3: 0, CPU_VARIATION_4: 0, CPU_VARIATION_5: 0, CPU_VARIATION_6: 0, CPU_VARIATION_7: 0, CPU_VARIATION_8: 0 };
        assert(r@ =~= only_flag(17, 10));
        r
    }

    /// Only "CPU 3rd Var." selected.
    pub fn CPU_VARIATION_3() -> (r: Self)
        ensures
            r@ == only_flag(17, 11),
    {
        let r = Self { NONE: 0, PLAYER_VARIATION_1: 0, PLAYER_VARIATION_2: 0, PLAYER_VARIATION_3: 0, PLAYER_VARIATION_4: 0, PLAYER_VARIATION_5: 0, PLAYER_VARIATION_6: 0, PLAYER_VARIATION_7: 0, PLAYER_VARIATION_8: 0, CPU_VARIATION_1: 0, CPU_VARIATION_2: 0, CPU_VARIATION_3: 1, CPU_VARIATION_4: 0, CPU_VARIATION_5: 0, CPU_VARIATION_6: 0, CPU_VARIATION_7: 0, CPU_VARIATION_8: 0 };
        assert(r@ =~= only_flag(17, 11));
        r
    }

    /// Only "CPU 4th Var." selected.
    pub fn CPU_VARIATION_4() -> (r: Self)
        ensures
            r@ == only_flag(17, 12),
    {
        let r = Self { NONE: 0, PLAYER_VARIATION_1: 0, PLAYER_VARIATION_2: 0, PLAYER_VARIATION_3: 0, PLAYER_VARIATION_4: 0, PLAYER_VARIATION_5: 0, PLAYER_VARIATION_6: 0, PLAYER_VARIATION_7: 0, PLAYER_VARIATION_8: 0, CPU_VARIATION_1: 0, CPU_VARIATION_2: 0, CPU_VARIATION_3: 0, CPU_VARIATION_4: 1, CPU_VARIATION_5: 0, CPU_VARIATION_6: 0, CPU_VARIATION_7: 0, CPU_VARIATION_8: 0 };
        assert(r@ =~= only_flag(17, 12));
        r
    }

    /// Only "CPU 5th Var." selected.
    pub fn CPU_VARIATION_5() -> (r: Self)
        ensures
            r@ == only_flag(17, 13),
    {
        let r = Self { NONE: 0, PLAYER_VARIATION_1: 0, PLAYER_VARIATION_2: 0, PLAYER_VARIATION_3: 0, PLAYER_VARIATION_4: 0, PLAYER_VARIATION_5: 0, PLAYER_VARIATION_6: 0, PLAYER_VARIATION_7: 0, PLAYER_VARIATION_8: 0, CPU_VARIATION_1: 0, CPU_VARIATION_2: 0, CPU_VARIATION_3: 0, CPU_VARIATION_4: 0, CPU_VARIATION_5: 1, CPU_VARIATION_6: 0, CPU_VARIATION_7: 0, CPU_VARIATION_8: 0 };
        assert(r@ =~= only_flag(17, 13));
        r
    }

    /// Only "CPU 6th Var." selected.
    pub fn CPU_VARIATION_6() -> (r: Self)
        ensures
            r@ == only_flag(17, 14),
    {
        let r = Self { NONE: 0, PLAYER_VARIATION_1: 0, PLAYER_VARIATION_2: 0, PLAYER_VARIATION_3: 0, PLAYER_VARIATION_4: 0, PLAYER_VARIATION_5: 0, PLAYER_VARIATION_6: 0, PLAYER_VARIATION_7: 0, PLAYER_VARIATION_8: 0, CPU_VARIATION_1: 0, CPU_VARIATION_2: 0, CPU_VARIATION_3: 0, CPU_VARIATION_4: 0, CPU_VARIATION_5: 0, CPU_VARIATION_6: 1, CPU_VARIATION_7: 0, CPU_VARIATION_8: 0 };
        assert(r@ =~= only_flag(17, 14));
        r
    }

    /// Only "CPU 7th Var." selected.
    pub fn CPU_VARIATION_7() -> (r: Self)
        ensures
            r@ == only_flag(17, 15),
    {
        let r = Self { NONE: 0, PLAYER_VARIATION_1: 0, PLAYER_VARIATION_2: 0, PLAYER_VARIATION_3: 0, PLAYER_VARIATION_4: 0, PLAYER_VARIATION_5: 0, PLAYER_VARIATION_6: 0, PLAYER_VARIATION_7: 0, PLAYER_VARIATION_8: 0, CPU_VARIATION_1: 0, CPU_VARIATION_2: 0, CPU_VARIATION_3: 0, CPU_VARIATION_4: 0, CPU_VARIATION_5: 0, CPU_VARIATION_6: 0, CPU_VARIATION_7: 1, CPU_VARIATION_8: 0 };
        assert(r@ =~= only_flag(17, 15));
        r
    }

    /// Only "CPU 8th Var." selected.
    pub fn CPU_VARIATION_8() -> (r: Self)
        ensures
            r@ == only_flag(17, 16),
    {
        let r = Self { NONE: 0, PLAYER_VARIATION_1: 0, PLAYER_VARIATION_2: 0, PLAYER_VARIATION_3: 0, PLAYER_VARIATION_4: 0, PLAYER_VARIATION_5: 0, PLAYER_VARIATION_6: 0, PLAYER_VARIATION_7: 0, PLAYER_VARIATION_8: 0, CPU_VARIATION_1: 0, CPU_VARIATION_2: 0, CPU_VARIATION_3: 0, CPU_VARIATION_4: 0, CPU_VARIATION_5: 0, CPU_VARIATION_6: 0, CPU_VARIATION_7: 0, CPU_VARIATION_8: 1 };
        assert(r@ =~= only_flag(17, 16));
        r
    }

    /// The weights, in choice order.
    pub fn to_vec(&self) -> (v: Vec<u8>)
        ensures
            v@ == self@,
    {
        let v = vec![self.NONE, self.PLAYER_VARIATION_1, self.PLAYER_VARIATION_2, self.PLAYER_VARIATION_3, self.PLAYER_VARIATION_4, self.PLAYER_VARIATION_5, self.PLAYER_VARIATION_6, self.PLAYER_VARIATION_7, self.PLAYER_VARIATION_8, self.CPU_VARIATION_1, self.CPU_VARIATION_2, self.CPU_VARIATION_3, self.CPU_VARIATION_4, self.CPU_VARIATION_5, self.CPU_VARIATION_6, self.CPU_VARIATION_7, self.CPU_VARIATION_8];
        assert(v@ =~= self@);
        v
    }

    /// The option with the given weights, in choice order.
    pub fn from_weights(w: &Vec<u8>) -> (r: Self)
        requires
            w@.len() == 17,
        ensures
            r@ == w@,
    {
        let r = Self { NONE: w[0], PLAYER_VARIATION_1: w[1], PLAYER_VARIATION_2: w[2], PLAYER_VARIATION_3: w[3], PLAYER_VARIATION_4: w[4], PLAYER_VARIATION_5: w[5], PLAYER_VARIATION_6: w[6], PLAYER_VARIATION_7: w[7], PLAYER_VARIATION_8: w[8], CPU_VARIATION_1: w[9], CPU_VARIATION_2: w[10], CPU_VARIATION_3: w[11], CPU_VARIATION_4: w[12], CPU_VARIATION_5: w[13], CPU_VARIATION_6: w[14], CPU_VARIATION_7: w[15], CPU_VARIATION_8: w[16] };
        assert(r@ =~= w@);
        r
    }

    /// Whether every choice selected in `other` is selected here.
    pub fn contains(&self, other: &Self) -> (b: bool)
        ensures
            b == flags_contains(self@, other@),
    {
        contains_weights(&self.to_vec(), &other.to_vec())
    }

    /// Choice-wise saturating sum of the weights.
    pub fn union(&self, other: Self) -> (r: Self)
        ensures
            r@ == flags_union(self@, other@),
    {
        Self::from_weights(&union_weights(&self.to_vec(), &other.to_vec()))
    }

    /// The weights of this option for the choices selected in `other`.
    pub fn left_intersection(&self, other: Self) -> (r: Self)
        ensures
            r@ == flags_left_intersection(self@, other@),
    {
        Self::from_weights(&left_intersection_weights(&self.to_vec(), &other.to_vec()))
    }

    /// A random single choice among the selected ones, in proportion to the weights;
    /// no choice when none is selected.
    pub fn get_random(&self) -> (r: Self)
        ensures
            is_random_pick(r@, self@),
    {
        Self::from_weights(&random_weights(&self.to_vec()))
    }

    /// The names of the selected choices joined with `" + "`.
    pub fn to_string(&self) -> (s: String)
        ensures
            s@ == flags_display(self@, Self::spec_names()),
    {
        display_weights(&self.to_vec(), &Self::names())
    }

    /// The menu page of this option: one toggle per choice, or a slider.
    pub fn to_submenu(title: &'static str, id: &'static str, help_text: &'static str, submenu_type: SubMenuType) -> (s: SubMenu)
        ensures
            submenu_matches(s, Self::spec_names(), title@, id@, help_text@, submenu_type),
    {
        submenu_from_names(Self::names(), title, id, help_text, submenu_type)
    }
}

/// Situations in which the CPU mashes.
#[derive(Clone, Copy, Debug, PartialEq, Eq, Structural)]
pub struct MashTrigger {
    pub HIT: u8,
    pub SHIELDSTUN: u8,
    pub PARRY: u8,
    pub TUMBLE: u8,
    pub LANDING: u8,
    pub TRUMP: u8,
    pub FOOTSTOOL: u8,
    pub CLATTER: u8,
    pub LEDGE: u8,
    pub TECH: u8,
    pub MISTECH: u8,
    pub GROUNDED: u8,
    pub AIRBORNE: u8,
    pub DISTANCE_CLOSE: u8,
    pub DISTANCE_MID: u8,
    pub DISTANCE_FAR: u8,
    pub ALWAYS: u8,
}

impl View for MashTrigger {
    type V = Seq<u8>;

    open spec fn view(&self) -> Seq<u8> {
        seq![self.HIT, self.SHIELDSTUN, self.PARRY, self.TUMBLE, self.LANDING, self.TRUMP, self.FOOTSTOOL, self.CLATTER, self.LEDGE, self.TECH, self.MISTECH, self.GROUNDED, self.AIRBORNE, self.DISTANCE_CLOSE, self.DISTANCE_MID, self.DISTANCE_FAR, self.ALWAYS]
    }
}

impl MashTrigger {
    /// Number of choices.
    pub open spec fn choices() -> nat {
        17
    }

    /// Display names of the choices, in order.
    pub open spec fn spec_names() -> Seq<Seq<char>> {
        seq!["Hitstun"@, "Shieldstun"@, "Parry"@, "Tumble"@, "Landing"@, "Ledge Trump"@, "Footstool"@, "Clatter"@, "Ledge Option"@, "Tech Option"@, "Mistech Option"@, "Grounded"@, "Airborne"@, "Distance: Close"@, "Distance: Mid"@, "Distance: Far"@, "Always"@]
    }

    /// Display names of the choices, in order.
    pub fn names() -> (v: Vec<&'static str>)
        ensures
            v@.len() == Self::choices(),
            v@.map_values(|s: &str| s@) == Self::spec_names(),
    {
        let v = vec!["Hitstun", "Shieldstun", "Parry", "Tumble", "Landing", "Ledge Trump", "Footstool", "Clatter", "Ledge Option", "Tech Option", "Mistech Option", "Grounded", "Airborne", "Distance: Close", "Distance: Mid", "Distance: Far", "Always"];
        assert(v@.map_values(|s: &str| s@) =~= Self::spec_names());
        v
    }

    /// No choice selected.
    pub fn new() -> (r: Self)
        ensures
            r@ == Seq::new(17, |i: int| 0u8),
    {
        let r = Self { HIT: 0, SHIELDSTUN: 0, PARRY: 0, TUMBLE: 0, LANDING: 0, TRUMP: 0, FOOTSTOOL: 0, CLATTER: 0, LEDGE: 0, TECH: 0, MISTECH: 0, GROUNDED: 0, AIRBORNE: 0, DISTANCE_CLOSE: 0, DISTANCE_MID: 0, DISTANCE_FAR: 0, ALWAYS: 0 };
        assert(r@ =~= Seq::new(17, |i: int| 0u8));
        r
    }

    /// No choice selected.
    pub fn empty() -> (r: Self)
        ensures
            r@ == Seq::new(17, |i: int| 0u8),
            no_flags(r@),
    {
        Self::new()
    }

    /// Every choice selected with weight one.
    pub fn all() -> (r: Self)
        ensures
            r@ == Seq::new(17, |i: int| 1u8),
    {
        let r = Self { HIT: 1, SHIELDSTUN: 1, PARRY: 1, TUMBLE: 1, LANDING: 1, TRUMP: 1, FOOTSTOOL: 1, CLATTER: 1, LEDGE: 1, TECH: 1, MISTECH: 1, GROUNDED: 1, AIRBORNE: 1, DISTANCE_CLOSE: 1, DISTANCE_MID: 1, DISTANCE_FAR: 1, ALWAYS: 1 };
        assert(r@ =~= Seq::new(17, |i: int| 1u8));
        r
    }

    /// Only "Hitstun" selected.
    pub fn HIT() -> (r: Self)
        ensures
            r@ == only_flag(17, 0),
    {
        let r = Self { HIT: 1, SHIELDSTUN: 0, PARRY: 0, TUMBLE: 0, LANDING: 0, TRUMP: 0, FOOTSTOOL: 0, CLATTER: 0, LEDGE: 0, TECH: 0, MISTECH: 0, GROUNDED: 0, AIRBORNE: 0, DISTANCE_CLOSE: 0, DISTANCE_MID: 0, DISTANCE_FAR: 0, ALWAYS: 0 };
        assert(r@ =~= only_flag(17, 0));
        r
    }

    /// Only "Shieldstun" selected.
    pub fn SHIELDSTUN() -> (r: Self)
        ensures
            r@ == only_flag(17, 1),
    {
        let r = Self { HIT: 0, SHIELDSTUN: 1, PARRY: 0, TUMBLE: 0, LANDING: 0, TRUMP: 0, FOOTSTOOL: 0, CLATTER: 0, LEDGE: 0, TECH: 0, MISTECH: 0, GROUNDED: 0, AIRBORNE: 0, DISTANCE_CLOSE: 0, DISTANCE_MID: 0, DISTANCE_FAR: 0, ALWAYS: 0 };
        assert(r@ =~= only_flag(17, 1));
        r
    }

    /// Only "Parry" selected.
    pub fn PARRY() -> (r: Self)
        ensures
            r@ == only_flag(17, 2),
    {
        let r = Self { HIT: 0, SHIELDSTUN: 0, PARRY: 1, TUMBLE: 0, LANDING: 0, TRUMP: 0, FOOTSTOOL: 0, CLATTER: 0, LEDGE: 0, TECH: 0, MISTECH: 0, GROUNDED: 0, AIRBORNE: 0, DISTANCE_CLOSE: 0, DISTANCE_MID: 0, DISTANCE_FAR: 0, ALWAYS: 0 };
        assert(r@ =~= only_flag(17, 2));
        r
    }

    /// Only "Tumble" selected.
    pub fn TUMBLE() -> (r: Self)
        ensures
            r@ == only_flag(17, 3),
    {
        let r = Self { HIT: 0, SHIELDSTUN: 0, PARRY: 0, TUMBLE: 1, LANDING: 0, TRUMP: 0, FOOTSTOOL: 0, CLATTER: 0, LEDGE: 0, TECH: 0, MISTECH: 0, GROUNDED: 0, AIRBORNE: 0, DISTANCE_CLOSE: 0, DISTANCE_MID: 0, DISTANCE_FAR: 0, ALWAYS: 0 };
        assert(r@ =~= only_flag(17, 3));
        r
    }

    /// Only "Landing" selected.
    pub fn LANDING() -> (r: Self)
        ensures
            r@ == only_flag(17, 4),
    {
        let r = Self { HIT: 0, SHIELDSTUN: 0, PARRY: 0, TUMBLE: 0, LANDING: 1, TRUMP: 0, FOOTSTOOL: 0, CLATTER: 0, LEDGE: 0, TECH: 0, MISTECH: 0, GROUNDED: 0, AIRBORNE: 0, DISTANCE_CLOSE: 0, DISTANCE_MID: 0, DISTANCE_FAR: 0, ALWAYS: 0 };
        assert(r@ =~= only_flag(17, 4));
        r
    }

    /// Only "Ledge Trump" selected.
    pub fn TRUMP() -> (r: Self)
        ensures
            r@ == only_flag(17, 5),
    {
        let r = Self { HIT: 0, SHIELDSTUN: 0, PARRY: 0, TUMBLE: 0, LANDING: 0, TRUMP: 1, FOOTSTOOL: 0, CLATTER: 0, LEDGE: 0, TECH: 0, MISTECH: 0, GROUNDED: 0, AIRBORNE: 0, DISTANCE_CLOSE: 0, DISTANCE_MID: 0, DISTANCE_FAR: 0, ALWAYS: 0 };
        assert(r@ =~= only_flag(17, 5));
        r
    }

    /// Only "Footstool" selected.
    pub fn FOOTSTOOL() -> (r: Self)
        ensures
            r@ == only_flag(17, 6),
    {
        let r = Self { HIT: 0, SHIELDSTUN: 0, PARRY: 0, TUMBLE: 0, LANDING: 0, TRUMP: 0, FOOTSTOOL: 1, CLATTER: 0, LEDGE: 0, TECH: 0, MISTECH: 0, GROUNDED: 0, AIRBORNE: 0, DISTANCE_CLOSE: 0, DISTANCE_MID: 0, DISTANCE_FAR: 0, ALWAYS: 0 };
        assert(r@ =~= only_flag(17, 6));
        r
    }

    /// Only "Clatter" selected.
    pub fn CLATTER() -> (r: Self)
        ensures
            r@ == only_flag(17, 7),
    {
        let r = Self { HIT: 0, SHIELDSTUN: 0, PARRY: 0, TUMBLE: 0, LANDING: 0, TRUMP: 0, FOOTSTOOL: 0, CLATTER: 1, LEDGE: 0, TECH: 0, MISTECH: 0, GROUNDED: 0, AIRBORNE: 0, DISTANCE_CLOSE: 0, DISTANCE_MID: 0, DISTANCE_FAR: 0, ALWAYS: 0 };
        assert(r@ =~= only_flag(17, 7));
        r
    }

    /// Only "Ledge Option" selected.
    pub fn LEDGE() -> (r: Self)
        ensures
            r@ == only_flag(17, 8),
    {
        let r = Self { HIT: 0, SHIELDSTUN: 0, PARRY: 0, TUMBLE: 0, LANDING: 0, TRUMP: 0, FOOTSTOOL: 0, CLATTER: 0, LEDGE: 1, TECH: 0, MISTECH: 0, GROUNDED: 0, AIRBORNE: 0, DISTANCE_CLOSE: 0, DISTANCE_MID: 0, DISTANCE_FAR: 0, ALWAYS: 0 };
        assert(r@ =~= only_flag(17, 8));
        r
    }

    /// Only "Tech Option" selected.
    pub fn TECH() -> (r: Self)
        ensures
            r@ == only_flag(17, 9),
    {
        let r = Self { HIT: 0, SHIELDSTUN: 0, PARRY: 0, TUMBLE: 0, LANDING: 0, TRUMP: 0, FOOTSTOOL: 0, CLATTER: 0, LEDGE: 0, TECH: 1, MISTECH: 0, GROUNDED: 0, AIRBORNE: 0, DISTANCE_CLOSE: 0, DISTANCE_MID: 0, DISTANCE_FAR: 0, ALWAYS: 0 };
        assert(r@ =~= only_flag(17, 9));
        r
    }

    /// Only "Mistech Option" selected.
    pub fn MISTECH() -> (r: Self)
        ensures
            r@ == only_flag(17, 10),
    {
        let r = Self { HIT: 0, SHIELDSTUN: 0, PARRY: 0, TUMBLE: 0, LANDING: 0, TRUMP: 0, FOOTSTOOL: 0, CLATTER: 0, LEDGE: 0, TECH: 0, MISTECH: 1, GROUNDED: 0, AIRBORNE: 0, DISTANCE_CLOSE: 0, DISTANCE_MID: 0, DISTANCE_FAR: 0, ALWAYS: 0 };
        assert(r@ =~= only_flag(17, 10));
        r
    }

    /// Only "Grounded" selected.
    pub fn GROUNDED() -> (r: Self)
        ensures
            r@ == only_flag(17, 11),
    {
        let r = Self { HIT: 0, SHIELDSTUN: 0, PARRY: 0, TUMBLE: 0, LANDING: 0, TRUMP: 0, FOOTSTOOL: 0, CLATTER: 0, LEDGE: 0, TECH: 0, MISTECH: 0, GROUNDED: 1, AIRBORNE: 0, DISTANCE_CLOSE: 0, DISTANCE_MID: 0, DISTANCE_FAR: 0, ALWAYS: 0 };
        assert(r@ =~= only_flag(17, 11));
        r
    }

    /// Only "Airborne" selected.
    pub fn AIRBORNE() -> (r: Self)
        ensures
            r@ == only_flag(17, 12),
    {
        let r = Self { HIT: 0, SHIELDSTUN: 0, PARRY: 0, TUMBLE: 0, LANDING: 0, TRUMP: 0, FOOTSTOOL: 0, CLATTER: 0, LEDGE: 0, TECH: 0, MISTECH: 0, GROUNDED: 0, AIRBORNE: 1, DISTANCE_CLOSE: 0, DISTANCE_MID: 0, DISTANCE_FAR: 0, ALWAYS: 0 };
        assert(r@ =~= only_flag(17, 12));
        r
    }

    /// Only "Distance: Close" selected.
    pub fn DISTANCE_CLOSE() -> (r: Self)
        ensures
            r@ == only_flag(17, 13),
    {
        let r = Self { HIT: 0, SHIELDSTUN: 0, PARRY: 0, TUMBLE: 0, LANDING: 0, TRUMP: 0, FOOTSTOOL: 0, CLATTER: 0, LEDGE: 0, TECH: 0, MISTECH: 0, GROUNDED: 0, AIRBORNE: 0, DISTANCE_CLOSE: 1, DISTANCE_MID: 0, DISTANCE_FAR: 0, ALWAYS: 0 };
        assert(r@ =~= only_flag(17, 13));
        r
    }

    /// Only "Distance: Mid" selected.
    pub fn DISTANCE_MID() -> (r: Self)
        ensures
            r@ == only_flag(17, 14),
    {
        let r = Self { HIT: 0, SHIELDSTUN: 0, PARRY: 0, TUMBLE: 0, LANDING: 0, TRUMP: 0, FOOTSTOOL: 0, CLATTER: 0, LEDGE: 0, TECH: 0, MISTECH: 0, GROUNDED: 0, AIRBORNE: 0, DISTANCE_CLOSE: 0, DISTANCE_MID: 1, DISTANCE_FAR: 0, ALWAYS: 0 };
        assert(r@ =~= only_flag(17, 14));
        r
    }

    /// Only "Distance: Far" selected.
    pub fn DISTANCE_FAR() -> (r: Self)
        ensures
            r@ == only_flag(17, 15),
    {
        let r = Self { HIT: 0, SHIELDSTUN: 0, PARRY: 0, TUMBLE: 0, LANDING: 0, TRUMP: 0, FOOTSTOOL: 0, CLATTER: 0, LEDGE: 0, TECH: 0, MISTECH: 0, GROUNDED: 0, AIRBORNE: 0, DISTANCE_CLOSE: 0, DISTANCE_MID: 0, DISTANCE_FAR: 1, ALWAYS: 0 };
        assert(r@ =~= only_flag(17, 15));
        r
    }

    /// Only "Always" selected.
    pub fn ALWAYS() -> (r: Self)
        ensures
            r@ == only_flag(17, 16),
    {
        let r = Self { HIT: 0, SHIELDSTUN: 0, PARRY: 0, TUMBLE: 0, LANDING: 0, TRUMP: 0, FOOTSTOOL: 0, CLATTER: 0, LEDGE: 0, TECH: 0, MISTECH: 0, GROUNDED: 0, AIRBORNE: 0, DISTANCE_CLOSE: 0, DISTANCE_MID: 0, DISTANCE_FAR: 0, ALWAYS: 1 };
        assert(r@ =~= only_flag(17, 16));
        r
    }

    /// The weights, in choice order.
    pub fn to_vec(&self) -> (v: Vec<u8>)
        ensures
            v@ == self@,
    {
        let v = vec![self.HIT, self.SHIELDSTUN, self.PARRY, self.TUMBLE, self.LANDING, self.TRUMP, self.FOOTSTOOL, self.CLATTER, self.LEDGE, self.TECH, self.MISTECH, self.GROUNDED, self.AIRBORNE, self.DISTANCE_CLOSE, self.DISTANCE_MID, self.DISTANCE_FAR, self.ALWAYS];
        assert(v@ =~= self@);
        v
    }

    /// The option with the given weights, in choice order.
    pub fn from_weights(w: &Vec<u8>) -> (r: Self)
        requires
            w@.len() == 17,
        ensures
            r@ == w@,
    {
        let r = Self { HIT: w[0], SHIELDSTUN: w[1], PARRY: w[2], TUMBLE: w[3], LANDING: w[4], TRUMP: w[5], FOOTSTOOL: w[6], CLATTER: w[7], LEDGE: w[8], TECH: w[9], MISTECH: w[10], GROUNDED: w[11], AIRBORNE: w[12], DISTANCE_CLOSE: w[13], DISTANCE_MID: w[14], DISTANCE_FAR: w[15], ALWAYS: w[16] };
        assert(r@ =~= w@);
        r
    }

    /// Whether every choice selected in `other` is selected here.
    pub fn contains(&self, other: &Self) -> (b: bool)
        ensures
            b == flags_contains(self@, other@),
    {
        contains_weights(&self.to_vec(), &other.to_vec())
    }

    /// Choice-wise saturating sum of the weights.
    pub fn union(&self, other: Self) -> (r: Self)
        ensures
            r@ == flags_union(self@, other@),
    {
        Self::from_weights(&union_weights(&self.to_vec(), &other.to_vec()))
    }

    /// The weights of this option for the choices selected in `other`.
    pub fn left_intersection(&self, other: Self) -> (r: Self)
        ensures
            r@ == flags_left_intersection(self@, other@),
    {
        Self::from_weights(&left_intersection_weights(&self.to_vec(), &other.to_vec()))
    }

    /// A random single choice among the selected ones, in proportion to the weights;
    /// no choice when none is selected.
    pub fn get_random(&self) -> (r: Self)
        ensures
            is_random_pick(r@, self@),
    {
        Self::from_weights(&random_weights(&self.to_vec()))
    }

    /// The names of the selected choices joined with `" + "`.
    pub fn to_string(&self) -> (s: String)
        ensures
            s@ == flags_display(self@, Self::spec_names()),
    {
        display_weights(&self.to_vec(), &Self::names())
    }

    /// The menu page of this option: one toggle per choice, or a slider.
    pub fn to_submenu(title: &'static str, id: &'static str, help_text: &'static str, submenu_type: SubMenuType) -> (s: SubMenu)
        ensures
            submenu_matches(s, Self::spec_names(), title@, id@, help_text@, submenu_type),
    {
        submenu_from_names(Self::names(), title, id, help_text, submenu_type)
    }
}

/// Lower and upper bound of a damage range.
#[derive(Clone, Copy, Debug, PartialEq, Eq, Structural)]
pub struct DamagePercent {
    pub LOWER: u8,
    pub UPPER: u8,
}

impl View for DamagePercent {
    type V = Seq<u8>;

    open spec fn view(&self) -> Seq<u8> {
        seq![self.LOWER, self.UPPER]
    }
}

impl DamagePercent {
    /// Number of choices.
    pub open spec fn choices() -> nat {
        2
    }

    /// Display names of the choices, in order.
    pub open spec fn spec_names() -> Seq<Seq<char>> {
        seq!["Lower"@, "Upper"@]
    }

    /// Display names of the choices, in order.
    pub fn names() -> (v: Vec<&'static str>)
        ensures
            v@.len() == Self::choices(),
            v@.map_values(|s: &str| s@) == Self::spec_names(),
    {
        let v = vec!["Lower", "Upper"];
        assert(v@.map_values(|s: &str| s@) =~= Self::spec_names());
        v
    }

    /// No choice selected.
    pub fn new() -> (r: Self)
        ensures
            r@ == Seq::new(2, |i: int| 0u8),
    {
        let r = Self { LOWER: 0, UPPER: 0 };
        assert(r@ =~= Seq::new(2, |i: int| 0u8));
        r
    }

    /// No choice selected.
    pub fn empty() -> (r: Self)
        ensures
            r@ == Seq::new(2, |i: int| 0u8),
            no_flags(r@),
    {
        Self::new()
    }

    /// Every choice selected with weight one.
    pub fn all() -> (r: Self)
        ensures
            r@ == Seq::new(2, |i: int| 1u8),
    {
        let r = Self { LOWER: 1, UPPER: 1 };
        assert(r@ =~= Seq::new(2, |i: int| 1u8));
        r
    }

    /// Only "Lower" selected.
    pub fn LOWER() -> (r: Self)
        ensures
            r@ == only_flag(2, 0),
    {
        let r = Self { LOWER: 1, UPPER: 0 };
        assert(r@ =~= only_flag(2, 0));
        r
    }

    /// Only "Upper" selected.
    pub fn UPPER() -> (r: Self)
        ensures
            r@ == only_flag(2, 1),
    {
        let r = Self { LOWER: 0, UPPER: 1 };
        assert(r@ =~= only_flag(2, 1));
        r
    }

    /// The weights, in choice order.
    pub fn to_vec(&self) -> (v: Vec<u8>)
        ensures
            v@ == self@,
    {
        let v = vec![self.LOWER, self.UPPER];
        assert(v@ =~= self@);
        v
    }

    /// The option with the given weights, in choice order.
    pub fn from_weights(w: &Vec<u8>) -> (r: Self)
        requires
            w@.len() == 2,
        ensures
            r@ == w@,
    {
        let r = Self { LOWER: w[0], UPPER: w[1] };
        assert(r@ =~= w@);
        r
    }

    /// Whether every choice selected in `other` is selected here.
    pub fn contains(&self, other: &Self) -> (b: bool)
        ensures
            b == flags_contains(self@, other@),
    {
        contains_weights(&self.to_vec(), &other.to_vec())
    }

    /// Choice-wise saturating sum of the weights.
    pub fn union(&self, other: Self) -> (r: Self)
        ensures
            r@ == flags_union(self@, other@),
    {
        Self::from_weights(&union_weights(&self.to_vec(), &other.to_vec()))
    }

    /// The weights of this option for the choices selected in `other`.
    pub fn left_intersection(&self, other: Self) -> (r: Self)
        ensures
            r@ == flags_left_intersection(self@, other@),
    {
        Self::from_weights(&left_intersection_weights(&self.to_vec(), &other.to_vec()))
    }

    /// A random single choice among the selected ones, in proportion to the weights;
    /// no choice when none is selected.
    pub fn get_random(&self) -> (r: Self)
        ensures
            is_random_pick(r@, self@),
    {
        Self::from_weights(&random_weights(&self.to_vec()))
    }

    /// The names of the selected choices joined with `" + "`.
    pub fn to_string(&self) -> (s: String)
        ensures
            s@ == flags_display(self@, Self::spec_names()),
    {
        display_weights(&self.to_vec(), &Self::names())
    }

    /// The menu page of this option: one toggle per choice, or a slider.
    pub fn to_submenu(title: &'static str, id: &'static str, help_text: &'static str, submenu_type: SubMenuType) -> (s: SubMenu)
        ensures
            submenu_matches(s, Self::spec_names(), title@, id@, help_text@, submenu_type),
    {
        submenu_from_names(Self::names(), title, id, help_text, submenu_type)
    }
}

/// Which damage a save state load restores.
#[derive(Clone, Copy, Debug, PartialEq, Eq, Structural)]
pub struct SaveDamage {
    pub DEFAULT: u8,
    pub SAVED: u8,
    pub RANDOM: u8,
}

impl View for SaveDamage {
    type V = Seq<u8>;

    open spec fn view(&self) -> Seq<u8> {
        seq![self.DEFAULT, self.SAVED, self.RANDOM]
    }
}

impl SaveDamage {
    /// Number of choices.
    pub open spec fn choices() -> nat {
        3
    }

    /// Display names of the choices, in order.
    pub open spec fn spec_names() -> Seq<Seq<char>> {
        seq!["Default"@, "Save State"@, "Random Value"@]
    }

    /// Display names of the choices, in order.
    pub fn names() -> (v: Vec<&'static str>)
        ensures
            v@.len() == Self::choices(),
            v@.map_values(|s: &str| s@) == Self::spec_names(),
    {
        let v = vec!["Default", "Save State", "Random Value"];
        assert(v@.map_values(|s: &str| s@) =~= Self::spec_names());
        v
    }

    /// No choice selected.
    pub fn new() -> (r: Self)
        ensures
            r@ == Seq::new(3, |i: int| 0u8),
    {
        let r = Self { DEFAULT: 0, SAVED: 0, RANDOM: 0 };
        assert(r@ =~= Seq::new(3, |i: int| 0u8));
        r
    }

    /// No choice selected.
    pub fn empty() -> (r: Self)
        ensures
            r@ == Seq::new(3, |i: int| 0u8),
            no_flags(r@),
    {
        Self::new()
    }

    /// Every choice selected with weight one.
    pub fn all() -> (r: Self)
        ensures
            r@ == Seq::new(3, |i: int| 1u8),
    {
        let r = Self { DEFAULT: 1, SAVED: 1, RANDOM: 1 };
        assert(r@ =~= Seq::new(3, |i: int| 1u8));
        r
    }

    /// Only "Default" selected.
    pub fn DEFAULT() -> (r: Self)
        ensures
            r@ == only_flag(3, 0),
    {
        let r = Self { DEFAULT: 1, SAVED: 0, RANDOM: 0 };
        assert(r@ =~= only_flag(3, 0));
        r
    }

    /// Only "Save State" selected.
    pub fn SAVED() -> (r: Self)
        ensures
            r@ == only_flag(3, 1),
    {
        let r = Self { DEFAULT: 0, SAVED: 1, RANDOM: 0 };
        assert(r@ =~= only_flag(3, 1));
        r
    }

    /// Only "Random Value" selected.
    pub fn RANDOM() -> (r: Self)
        ensures
            r@ == only_flag(3, 2),
    {
        let r = Self { DEFAULT: 0, SAVED: 0, RANDOM: 1 };
        assert(r@ =~= only_flag(3, 2));
        r
    }

    /// The weights, in choice order.
    pub fn to_vec(&self) -> (v: Vec<u8>)
        ensures
            v@ == self@,
    {
        let v = vec![self.DEFAULT, self.SAVED, self.RANDOM];
        assert(v@ =~= self@);
        v
    }

    /// The option with the given weights, in choice order.
    pub fn from_weights(w: &Vec<u8>) -> (r: Self)
        requires
            w@.len() == 3,
        ensures
            r@ == w@,
    {
        let r = Self { DEFAULT: w[0], SAVED: w[1], RANDOM: w[2] };
        assert(r@ =~= w@);
        r
    }

    /// Whether every choice selected in `other` is selected here.
    pub fn contains(&self, other: &Self) -> (b: bool)
        ensures
            b == flags_contains(self@, other@),
    {
        contains_weights(&self.to_vec(), &other.to_vec())
    }

    /// Choice-wise saturating sum of the weights.
    pub fn union(&self, other: Self) -> (r: Self)
        ensures
            r@ == flags_union(self@, other@),
    {
        Self::from_weights(&union_weights(&self.to_vec(), &other.to_vec()))
    }

    /// The weights of this option for the choices selected in `other`.
    pub fn left_intersection(&self, other: Self) -> (r: Self)
        ensures
            r@ == flags_left_intersection(self@, other@),
    {
        Self::from_weights(&left_intersection_weights(&self.to_vec(), &other.to_vec()))
    }

    /// A random single choice among the selected ones, in proportion to the weights;
    /// no choice when none is selected.
    pub fn get_random(&self) -> (r: Self)
        ensures
            is_random_pick(r@, self@),
    {
        Self::from_weights(&random_weights(&self.to_vec()))
    }

    /// The names of the selected choices joined with `" + "`.
    pub fn to_string(&self) -> (s: String)
        ensures
            s@ == flags_display(self@, Self::spec_names()),
    {
        display_weights(&self.to_vec(), &Self::names())
    }

    /// The menu page of this option: one toggle per choice, or a slider.
    pub fn to_submenu(title: &'static str, id: &'static str, help_text: &'static str, submenu_type: SubMenuType) -> (s: SubMenu)
        ensures
            submenu_matches(s, Self::spec_names(), title@, id@, help_text@, submenu_type),
    {
        submenu_from_names(Self::names(), title, id, help_text, submenu_type)
    }
}

/// Save state slots.
#[derive(Clone, Copy, Debug, PartialEq, Eq, Structural)]
pub struct SaveStateSlot {
    pub S1: u8,
    pub S2: u8,
    pub S3: u8,
    pub S4: u8,
    pub S5: u8,
}

impl View for SaveStateSlot {
    type V = Seq<u8>;

    open spec fn view(&self) -> Seq<u8> {
        seq![self.S1, self.S2, self.S3, self.S4, self.S5]
    }
}

impl SaveStateSlot {
    /// Number of choices.
    pub open spec fn choices() -> nat {
        5
    }

    /// Display names of the choices, in order.
    pub open spec fn spec_names() -> Seq<Seq<char>> {
        seq!["Slot 1"@, "Slot 2"@, "Slot 3"@, "Slot 4"@, "Slot 5"@]
    }

    /// Display names of the choices, in order.
    pub fn names() -> (v: Vec<&'static str>)
        ensures
            v@.len() == Self::choices(),
            v@.map_values(|s: &str| s@) == Self::spec_names(),
    {
        let v = vec!["Slot 1", "Slot 2", "Slot 3", "Slot 4", "Slot 5"];
        assert(v@.map_values(|s: &str| s@) =~= Self::spec_names());
        v
    }

    /// No choice selected.
    pub fn new() -> (r: Self)
        ensures
            r@ == Seq::new(5, |i: int| 0u8),
    {
        let r = Self { S1: 0, S2: 0, S3: 0, S4: 0, S5: 0 };
        assert(r@ =~= Seq::new(5, |i: int| 0u8));
        r
    }

    /// No choice selected.
    pub fn empty() -> (r: Self)
        ensures
            r@ == Seq::new(5, |i: int| 0u8),
            no_flags(r@),
    {
        Self::new()
    }

    /// Every choice selected with weight one.
    pub fn all() -> (r: Self)
        ensures
            r@ == Seq::new(5, |i: int| 1u8),
    {
        let r = Self { S1: 1, S2: 1, S3: 1, S4: 1, S5: 1 };
        assert(r@ =~= Seq::new(5, |i: int| 1u8));
        r
    }

    /// Only "Slot 1" selected.
    pub fn S1() -> (r: Self)
        ensures
            r@ == only_flag(5, 0),
    {
        let r = Self { S1: 1, S2: 0, S3: 0, S4: 0, S5: 0 };
        assert(r@ =~= only_flag(5, 0));
        r
    }

    /// Only "Slot 2" selected.
    pub fn S2() -> (r: Self)
        ensures
            r@ == only_flag(5, 1),
    {
        let r = Self { S1: 0, S2: 1, S3: 0, S4: 0, S5: 0 };
        assert(r@ =~= only_flag(5, 1));
        r
    }

    /// Only "Slot 3" selected.
    pub fn S3() -> (r: Self)
        ensures
            r@ == only_flag(5, 2),
    {
        let r = Self { S1: 0, S2: 0, S3: 1, S4: 0, S5: 0 };
        assert(r@ =~= only_flag(5, 2));
        r
    }

    /// Only "Slot 4" selected.
    pub fn S4() -> (r: Self)
        ensures
            r@ == only_flag(5, 3),
    {
        let r = Self { S1: 0, S2: 0, S3: 0, S4: 1, S5: 0 };
        assert(r@ =~= only_flag(5, 3));
        r
    }

    /// Only "Slot 5" selected.
    pub fn S5() -> (r: Self)
        ensures
            r@ == only_flag(5, 4),
    {
        let r = Self { S1: 0, S2: 0, S3: 0, S4: 0, S5: 1 };
        assert(r@ =~= only_flag(5, 4));
        r
    }

    /// The weights, in choice order.
    pub fn to_vec(&self) -> (v: Vec<u8>)
        ensures
            v@ == self@,
    {
        let v = vec![self.S1, self.S2, self.S3, self.S4, self.S5];
        assert(v@ =~= self@);
        v
    }

    /// The option with the given weights, in choice order.
    pub fn from_weights(w: &Vec<u8>) -> (r: Self)
        requires
            w@.len() == 5,
        ensures
            r@ == w@,
    {
        let r = Self { S1: w[0], S2: w[1], S3: w[2], S4: w[3], S5: w[4] };
        assert(r@ =~= w@);
        r
    }

    /// Whether every choice selected in `other` is selected here.
    pub fn contains(&self, other: &Self) -> (b: bool)
        ensures
            b == flags_contains(self@, other@),
    {
        contains_weights(&self.to_vec(), &other.to_vec())
    }

    /// Choice-wise saturating sum of the weights.
    pub fn union(&self, other: Self) -> (r: Self)
        ensures
            r@ == flags_union(self@, other@),
    {
        Self::from_weights(&union_weights(&self.to_vec(), &other.to_vec()))
    }

    /// The weights of this option for the choices selected in `other`.
    pub fn left_intersection(&self, other: Self) -> (r: Self)
        ensures
            r@ == flags_left_intersection(self@, other@),
    {
        Self::from_weights(&left_intersection_weights(&self.to_vec(), &other.to_vec()))
    }

    /// A random single choice among the selected ones, in proportion to the weights;
    /// no choice when none is selected.
    pub fn get_random(&self) -> (r: Self)
        ensures
            is_random_pick(r@, self@),
    {
        Self::from_weights(&random_weights(&self.to_vec()))
    }

    /// The names of the selected choices joined with `" + "`.
    pub fn to_string(&self) -> (s: String)
        ensures
            s@ == flags_display(self@, Self::spec_names()),
    {
        display_weights(&self.to_vec(), &Self::names())
    }

    /// The menu page of this option: one toggle per choice, or a slider.
    pub fn to_submenu(title: &'static str, id: &'static str, help_text: &'static str, submenu_type: SubMenuType) -> (s: SubMenu)
        ensures
            submenu_matches(s, Self::spec_names(), title@, id@, help_text@, submenu_type),
    {
        submenu_from_names(Self::names(), title, id, help_text, submenu_type)
    }
}

/// Input recording slots.
#[derive(Clone, Copy, Debug, PartialEq, Eq, Structural)]
pub struct RecordSlot {
    pub S1: u8,
    pub S2: u8,
    pub S3: u8,
    pub S4: u8,
    pub S5: u8,
}

impl View for RecordSlot {
    type V = Seq<u8>;

    open spec fn view(&self) -> Seq<u8> {
        seq![self.S1, self.S2, self.S3, self.S4, self.S5]
    }
}

impl RecordSlot {
    /// Number of choices.
    pub open spec fn choices() -> nat {
        5
    }

    /// Display names of the choices, in order.
    pub open spec fn spec_names() -> Seq<Seq<char>> {
        seq!["Slot 1"@, "Slot 2"@, "Slot 3"@, "Slot 4"@, "Slot 5"@]
    }

    /// Display names of the choices, in order.
    pub fn names() -> (v: Vec<&'static str>)
        ensures
            v@.len() == Self::choices(),
            v@.map_values(|s: &str| s@) == Self::spec_names(),
    {
        let v = vec!["Slot 1", "Slot 2", "Slot 3", "Slot 4", "Slot 5"];
        assert(v@.map_values(|s: &str| s@) =~= Self::spec_names());
        v
    }

    /// No choice selected.
    pub fn new() -> (r: Self)
        ensures
            r@ == Seq::new(5, |i: int| 0u8),
    {
        let r = Self { S1: 0, S2: 0, S3: 0, S4: 0, S5: 0 };
        assert(r@ =~= Seq::new(5, |i: int| 0u8));
        r
    }

    /// No choice selected.
    pub fn empty() -> (r: Self)
        ensures
            r@ == Seq::new(5, |i: int| 0u8),
            no_flags(r@),
    {
        Self::new()
    }

    /// Every choice selected with weight one.
    pub fn all() -> (r: Self)
        ensures
            r@ == Seq::new(5, |i: int| 1u8),
    {
        let r = Self { S1: 1, S2: 1, S3: 1, S4: 1, S5: 1 };
        assert(r@ =~= Seq::new(5, |i: int| 1u8));
        r
    }

    /// Only "Slot 1" selected.
    pub fn S1() -> (r: Self)
        ensures
            r@ == only_flag(5, 0),
    {
        let r = Self { S1: 1, S2: 0, S3: 0, S4: 0, S5: 0 };
        assert(r@ =~= only_flag(5, 0));
        r
    }

    /// Only "Slot 2" selected.
    pub fn S2() -> (r: Self)
        ensures
            r@ == only_flag(5, 1),
    {
        let r = Self { S1: 0, S2: 1, S3: 0, S4: 0, S5: 0 };
        assert(r@ =~= only_flag(5, 1));
        r
    }

    /// Only "Slot 3" selected.
    pub fn S3() -> (r: Self)
        ensures
            r@ == only_flag(5, 2),
    {
        let r = Self { S1: 0, S2: 0, S3: 1, S4: 0, S5: 0 };
        assert(r@ =~= only_flag(5, 2));
        r
    }

    /// Only "Slot 4" selected.
    pub fn S4() -> (r: Self)
        ensures
            r@ == only_flag(5, 3),
    {
        let r = Self { S1: 0, S2: 0, S3: 0, S4: 1, S5: 0 };
        assert(r@ =~= only_flag(5, 3));
        r
    }

    /// Only "Slot 5" selected.
    pub fn S5() -> (r: Self)
        ensures
            r@ == only_flag(5, 4),
    {
        let r = Self { S1: 0, S2: 0, S3: 0, S4: 0, S5: 1 };
        assert(r@ =~= only_flag(5, 4));
        r
    }

    /// The weights, in choice order.
    pub fn to_vec(&self) -> (v: Vec<u8>)
        ensures
            v@ == self@,
    {
        let v = vec![self.S1, self.S2, self.S3, self.S4, self.S5];
        assert(v@ =~= self@);
        v
    }

    /// The option with the given weights, in choice order.
    pub fn from_weights(w: &Vec<u8>) -> (r: Self)
        requires
            w@.len() == 5,
        ensures
            r@ == w@,
    {
        let r = Self { S1: w[0], S2: w[1], S3: w[2], S4: w[3], S5: w[4] };
        assert(r@ =~= w@);
        r
    }

    /// Whether every choice selected in `other` is selected here.
    pub fn contains(&self, other: &Self) -> (b: bool)
        ensures
            b == flags_contains(self@, other@),
    {
        contains_weights(&self.to_vec(), &other.to_vec())
    }

    /// Choice-wise saturating sum of the weights.
    pub fn union(&self, other: Self) -> (r: Self)
        ensures
            r@ == flags_union(self@, other@),
    {
        Self::from_weights(&union_weights(&self.to_vec(), &other.to_vec()))
    }

    /// The weights of this option for the choices selected in `other`.
    pub fn left_intersection(&self, other: Self) -> (r: Self)
        ensures
            r@ == flags_left_intersection(self@, other@),
    {
        Self::from_weights(&left_intersection_weights(&self.to_vec(), &other.to_vec()))
    }

    /// A random single choice among the selected ones, in proportion to the weights;
    /// no choice when none is selected.
    pub fn get_random(&self) -> (r: Self)
        ensures
            is_random_pick(r@, self@),
    {
        Self::from_weights(&random_weights(&self.to_vec()))
    }

    /// The names of the selected choices joined with `" + "`.
    pub fn to_string(&self) -> (s: String)
        ensures
            s@ == flags_display(self@, Self::spec_names()),
    {
        display_weights(&self.to_vec(), &Self::names())
    }

    /// The menu page of this option: one toggle per choice, or a slider.
    pub fn to_submenu(title: &'static str, id: &'static str, help_text: &'static str, submenu_type: SubMenuType) -> (s: SubMenu)
        ensures
            submenu_matches(s, Self::spec_names(), title@, id@, help_text@, submenu_type),
    {
        submenu_from_names(Self::names(), title, id, help_text, submenu_type)
    }
}

/// Input playback slots.
#[derive(Clone, Copy, Debug, PartialEq, Eq, Structural)]
pub struct PlaybackSlot {
    pub S1: u8,
    pub S2: u8,
    pub S3: u8,
    pub S4: u8,
    pub S5: u8,
}

impl View for PlaybackSlot {
    type V = Seq<u8>;

    open spec fn view(&self) -> Seq<u8> {
        seq![self.S1, self.S2, self.S3, self.S4, self.S5]
    }
}

impl PlaybackSlot {
    /// Number of choices.
    pub open spec fn choices() -> nat {
        5
    }

    /// Display names of the choices, in order.
    pub open spec fn spec_names() -> Seq<Seq<char>> {
        seq!["Slot 1"@, "Slot 2"@, "Slot 3"@, "Slot 4"@, "Slot 5"@]
    }

    /// Display names of the choices, in order.
    pub fn names() -> (v: Vec<&'static str>)
        ensures
            v@.len() == Self::choices(),
            v@.map_values(|s: &str| s@) == Self::spec_names(),
    {
        let v = vec!["Slot 1", "Slot 2", "Slot 3", "Slot 4", "Slot 5"];
        assert(v@.map_values(|s: &str| s@) =~= Self::spec_names());
        v
    }

    /// No choice selected.
    pub fn new() -> (r: Self)
        ensures
            r@ == Seq::new(5, |i: int| 0u8),
    {
        let r = Self { S1: 0, S2: 0, S3: 0, S4: 0, S5: 0 };
        assert(r@ =~= Seq::new(5, |i: int| 0u8));
        r
    }

    /// No choice selected.
    pub fn empty() -> (r: Self)
        ensures
            r@ == Seq::new(5, |i: int| 0u8),
            no_flags(r@),
    {
        Self::new()
    }

    /// Every choice selected with weight one.
    pub fn all() -> (r: Self)
        ensures
            r@ == Seq::new(5, |i: int| 1u8),
    {
        let r = Self { S1: 1, S2: 1, S3: 1, S4: 1, S5: 1 };
        assert(r@ =~= Seq::new(5, |i: int| 1u8));
        r
    }

    /// Only "Slot 1" selected.
    pub fn S1() -> (r: Self)
        ensures
            r@ == only_flag(5, 0),
    {
        let r = Self { S1: 1, S2: 0, S3: 0, S4: 0, S5: 0 };
        assert(r@ =~= only_flag(5, 0));
        r
    }

    /// Only "Slot 2" selected.
    pub fn S2() -> (r: Self)
        ensures
            r@ == only_flag(5, 1),
    {
        let r = Self { S1: 0, S2: 1, S3: 0, S4: 0, S5: 0 };
        assert(r@ =~= only_flag(5, 1));
        r
    }

    /// Only "Slot 3" selected.
    pub fn S3() -> (r: Self)
        ensures
            r@ == only_flag(5, 2),
    {
        let r = Self { S1: 0, S2: 0, S3: 1, S4: 0, S5: 0 };
        assert(r@ =~= only_flag(5, 2));
        r
    }

    /// Only "Slot 4" selected.
    pub fn S4() -> (r: Self)
        ensures
            r@ == only_flag(5, 3),
    {
        let r = Self { S1: 0, S2: 0, S3: 0, S4: 1, S5: 0 };
        assert(r@ =~= only_flag(5, 3));
        r
    }

    /// Only "Slot 5" selected.
    pub fn S5() -> (r: Self)
        ensures
            r@ == only_flag(5, 4),
    {
        let r = Self { S1: 0, S2: 0, S3: 0, S4: 0, S5: 1 };
        assert(r@ =~= only_flag(5, 4));
        r
    }

    /// The weights, in choice order.
    pub fn to_vec(&self) -> (v: Vec<u8>)
        ensures
            v@ == self@,
    {
        let v = vec![self.S1, self.S2, self.S3, self.S4, self.S5];
        assert(v@ =~= self@);
        v
    }

    /// The option with the given weights, in choice order.
    pub fn from_weights(w: &Vec<u8>) -> (r: Self)
        requires
            w@.len() == 5,
        ensures
            r@ == w@,
    {
        let r = Self { S1: w[0], S2: w[1], S3: w[2], S4: w[3], S5: w[4] };
        assert(r@ =~= w@);
        r
    }

    /// Whether every choice selected in `other` is selected here.
    pub fn contains(&self, other: &Self) -> (b: bool)
        ensures
            b == flags_contains(self@, other@),
    {
        contains_weights(&self.to_vec(), &other.to_vec())
    }

    /// Choice-wise saturating sum of the weights.
    pub fn union(&self, other: Self) -> (r: Self)
        ensures
            r@ == flags_union(self@, other@),
    {
        Self::from_weights(&union_weights(&self.to_vec(), &other.to_vec()))
    }

    /// The weights of this option for the choices selected in `other`.
    pub fn left_intersection(&self, other: Self) -> (r: Self)
        ensures
            r@ == flags_left_intersection(self@, other@),
    {
        Self::from_weights(&left_intersection_weights(&self.to_vec(), &other.to_vec()))
    }

    /// A random single choice among the selected ones, in proportion to the weights;
    /// no choice when none is selected.
    pub fn get_random(&self) -> (r: Self)
        ensures
            is_random_pick(r@, self@),
    {
        Self::from_weights(&random_weights(&self.to_vec()))
    }

    /// The names of the selected choices joined with `" + "`.
    pub fn to_string(&self) -> (s: String)
        ensures
            s@ == flags_display(self@, Self::spec_names()),
    {
        display_weights(&self.to_vec(), &Self::names())
    }

    /// The menu page of this option: one toggle per choice, or a slider.
    pub fn to_submenu(title: &'static str, id: &'static str, help_text: &'static str, submenu_type: SubMenuType) -> (s: SubMenu)
        ensures
            submenu_matches(s, Self::spec_names(), title@, id@, help_text@, submenu_type),
    {
        submenu_from_names(Self::names(), title, id, help_text, submenu_type)
    }
}

/// When a playback out of hitstun begins.
#[derive(Clone, Copy, Debug, PartialEq, Eq, Structural)]
pub struct HitstunPlayback {
    pub HITSTUN: u8,
    pub HITSTOP: u8,
    pub INSTANT: u8,
}

impl View for HitstunPlayback {
    type V = Seq<u8>;

    open spec fn view(&self) -> Seq<u8> {
        seq![self.HITSTUN, self.HITSTOP, self.INSTANT]
    }
}

impl HitstunPlayback {
    /// Number of choices.
    pub open spec fn choices() -> nat {
        3
    }

    /// Display names of the choices, in order.
    pub open spec fn spec_names() -> Seq<Seq<char>> {
        seq!["As Hitstun Ends"@, "As Hitstop Ends"@, "As Hitstop Begins"@]
    }

    /// Display names of the choices, in order.
    pub fn names() -> (v: Vec<&'static str>)
        ensures
            v@.len() == Self::choices(),
            v@.map_values(|s: &str| s@) == Self::spec_names(),
    {
        let v = vec!["As Hitstun Ends", "As Hitstop Ends", "As Hitstop Begins"];
        assert(v@.map_values(|s: &str| s@) =~= Self::spec_names());
        v
    }

    /// No choice selected.
    pub fn new() -> (r: Self)
        ensures
            r@ == Seq::new(3, |i: int| 0u8),
    {
        let r = Self { HITSTUN: 0, HITSTOP: 0, INSTANT: 0 };
        assert(r@ =~= Seq::new(3, |i: int| 0u8));
        r
    }

    /// No choice selected.
    pub fn empty() -> (r: Self)
        ensures
            r@ == Seq::new(3, |i: int| 0u8),
            no_flags(r@),
    {
        Self::new()
    }

    /// Every choice selected with weight one.
    pub fn all() -> (r: Self)
        ensures
            r@ == Seq::new(3, |i: int| 1u8),
    {
        let r = Self { HITSTUN: 1, HITSTOP: 1, INSTANT: 1 };
        assert(r@ =~= Seq::new(3, |i: int| 1u8));
        r
    }

    /// Only "As Hitstun Ends" selected.
    pub fn HITSTUN() -> (r: Self)
        ensures
            r@ == only_flag(3, 0),
    {
        let r = Self { HITSTUN: 1, HITSTOP: 0, INSTANT: 0 };
        assert(r@ =~= only_flag(3, 0));
        r
    }

    /// Only "As Hitstop Ends" selected.
    pub fn HITSTOP() -> (r: Self)
        ensures
            r@ == only_flag(3, 1),
    {
        let r = Self { HITSTUN: 0, HITSTOP: 1, INSTANT: 0 };
        assert(r@ =~= only_flag(3, 1));
        r
    }

    /// Only "As Hitstop Begins" selected.
    pub fn INSTANT() -> (r: Self)
        ensures
            r@ == only_flag(3, 2),
    {
        let r = Self { HITSTUN: 0, HITSTOP: 0, INSTANT: 1 };
        assert(r@ =~= only_flag(3, 2));
        r
    }

    /// The weights, in choice order.
    pub fn to_vec(&self) -> (v: Vec<u8>)
        ensures
            v@ == self@,
    {
        let v = vec![self.HITSTUN, self.HITSTOP, self.INSTANT];
        assert(v@ =~= self@);
        v
    }

    /// The option with the given weights, in choice order.
    pub fn from_weights(w: &Vec<u8>) -> (r: Self)
        requires
            w@.len() == 3,
        ensures
            r@ == w@,
    {
        let r = Self { HITSTUN: w[0], HITSTOP: w[1], INSTANT: w[2] };
        assert(r@ =~= w@);
        r
    }

    /// Whether every choice selected in `other` is selected here.
    pub fn contains(&self, other: &Self) -> (b: bool)
        ensures
            b == flags_contains(self@, other@),
    {
        contains_weights(&self.to_vec(), &other.to_vec())
    }

    /// Choice-wise saturating sum of the weights.
    pub fn union(&self, other: Self) -> (r: Self)
        ensures
            r@ == flags_union(self@, other@),
    {
        Self::from_weights(&union_weights(&self.to_vec(), &other.to_vec()))
    }

    /// The weights of this option for the choices selected in `other`.
    pub fn left_intersection(&self, other: Self) -> (r: Self)
        ensures
            r@ == flags_left_intersection(self@, other@),
    {
        Self::from_weights(&left_intersection_weights(&self.to_vec(), &other.to_vec()))
    }

    /// A random single choice among the selected ones, in proportion to the weights;
    /// no choice when none is selected.
    pub fn get_random(&self) -> (r: Self)
        ensures
            is_random_pick(r@, self@),
    {
        Self::from_weights(&random_weights(&self.to_vec()))
    }

    /// The names of the selected choices joined with `" + "`.
    pub fn to_string(&self) -> (s: String)
        ensures
            s@ == flags_display(self@, Self::spec_names()),
    {
        display_weights(&self.to_vec(), &Self::names())
    }

    /// The menu page of this option: one toggle per choice, or a slider.
    pub fn to_submenu(title: &'static str, id: &'static str, help_text: &'static str, submenu_type: SubMenuType) -> (s: SubMenu)
        ensures
            submenu_matches(s, Self::spec_names(), title@, id@, help_text@, submenu_type),
    {
        submenu_from_names(Self::names(), title, id, help_text, submenu_type)
    }
}

/// What starts an input recording.
#[derive(Clone, Copy, Debug, PartialEq, Eq, Structural)]
pub struct RecordTrigger {
    pub COMMAND: u8,
    pub SAVESTATE: u8,
}

impl View for RecordTrigger {
    type V = Seq<u8>;

    open spec fn view(&self) -> Seq<u8> {
        seq![self.COMMAND, self.SAVESTATE]
    }
}

impl RecordTrigger {
    /// Number of choices.
    pub open spec fn choices() -> nat {
        2
    }

    /// Display names of the choices, in order.
    pub open spec fn spec_names() -> Seq<Seq<char>> {
        seq!["Button Combination"@, "Save State Load"@]
    }

    /// Display names of the choices, in order.
    pub fn names() -> (v: Vec<&'static str>)
        ensures
            v@.len() == Self::choices(),
            v@.map_values(|s: &str| s@) == Self::spec_names(),
    {
        let v = vec!["Button Combination", "Save State Load"];
        assert(v@.map_values(|s: &str| s@) =~= Self::spec_names());
        v
    }

    /// No choice selected.
    pub fn new() -> (r: Self)
        ensures
            r@ == Seq::new(2, |i: int| 0u8),
    {
        let r = Self { COMMAND: 0, SAVESTATE: 0 };
        assert(r@ =~= Seq::new(2, |i: int| 0u8));
        r
    }

    /// No choice selected.
    pub fn empty() -> (r: Self)
        ensures
            r@ == Seq::new(2, |i: int| 0u8),
            no_flags(r@),
    {
        Self::new()
    }

    /// Every choice selected with weight one.
    pub fn all() -> (r: Self)
        ensures
            r@ == Seq::new(2, |i: int| 1u8),
    {
        let r = Self { COMMAND: 1, SAVESTATE: 1 };
        assert(r@ =~= Seq::new(2, |i: int| 1u8));
        r
    }

    /// Only "Button Combination" selected.
    pub fn COMMAND() -> (r: Self)
        ensures
            r@ == only_flag(2, 0),
    {
        let r = Self { COMMAND: 1, SAVESTATE: 0 };
        assert(r@ =~= only_flag(2, 0));
        r
    }

    /// Only "Save State Load" selected.
    pub fn SAVESTATE() -> (r: Self)
        ensures
            r@ == only_flag(2, 1),
    {
        let r = Self { COMMAND: 0, SAVESTATE: 1 };
        assert(r@ =~= only_flag(2, 1));
        r
    }

    /// The weights, in choice order.
    pub fn to_vec(&self) -> (v: Vec<u8>)
        ensures
            v@ == self@,
    {
        let v = vec![self.COMMAND, self.SAVESTATE];
        assert(v@ =~= self@);
        v
    }

    /// The option with the given weights, in choice order.
    pub fn from_weights(w: &Vec<u8>) -> (r: Self)
        requires
            w@.len() == 2,
        ensures
            r@ == w@,
    {
        let r = Self { COMMAND: w[0], SAVESTATE: w[1] };
        assert(r@ =~= w@);
        r
    }

    /// Whether every choice selected in `other` is selected here.
    pub fn contains(&self, other: &Self) -> (b: bool)
        ensures
            b == flags_contains(self@, other@),
    {
        contains_weights(&self.to_vec(), &other.to_vec())
    }

    /// Choice-wise saturating sum of the weights.
    pub fn union(&self, other: Self) -> (r: Self)
        ensures
            r@ == flags_union(self@, other@),
    {
        Self::from_weights(&union_weights(&self.to_vec(), &other.to_vec()))
    }

    /// The weights of this option for the choices selected in `other`.
    pub fn left_intersection(&self, other: Self) -> (r: Self)
        ensures
            r@ == flags_left_intersection(self@, other@),
    {
        Self::from_weights(&left_intersection_weights(&self.to_vec(), &other.to_vec()))
    }

    /// A random single choice among the selected ones, in proportion to the weights;
    /// no choice when none is selected.
    pub fn get_random(&self) -> (r: Self)
        ensures
            is_random_pick(r@, self@),
    {
        Self::from_weights(&random_weights(&self.to_vec()))
    }

    /// The names of the selected choices joined with `" + "`.
    pub fn to_string(&self) -> (s: String)
        ensures
            s@ == flags_display(self@, Self::spec_names()),
    {
        display_weights(&self.to_vec(), &Self::names())
    }

    /// The menu page of this option: one toggle per choice, or a slider.
    pub fn to_submenu(title: &'static str, id: &'static str, help_text: &'static str, submenu_type: SubMenuType) -> (s: SubMenu)
        ensures
            submenu_matches(s, Self::spec_names(), title@, id@, help_text@, submenu_type),
    {
        submenu_from_names(Self::names(), title, id, help_text, submenu_type)
    }
}

/// Length of an input recording, 60 to 600 frames in steps of 30.
#[derive(Clone, Copy, Debug, PartialEq, Eq, Structural)]
pub struct RecordingDuration {
    pub F60: u8,
    pub F90: u8,
    pub F120: u8,
    pub F150: u8,
    pub F180: u8,
    pub F210: u8,
    pub F240: u8,
    pub F270: u8,
    pub F300: u8,
    pub F330: u8,
    pub F360: u8,
    pub F390: u8,
    pub F420: u8,
    pub F450: u8,
    pub F480: u8,
    pub F510: u8,
    pub F540: u8,
    pub F570: u8,
    pub F600: u8,
}

impl View for RecordingDuration {
    type V = Seq<u8>;

    open spec fn view(&self) -> Seq<u8> {
        seq![self.F60, self.F90, self.F120, self.F150, self.F180, self.F210, self.F240, self.F270, self.F300, self.F330, self.F360, self.F390, self.F420, self.F450, self.F480, self.F510, self.F540, self.F570, self.F600]
    }
}

impl RecordingDuration {
    /// Number of choices.
    pub open spec fn choices() -> nat {
        19
    }

    /// Display names of the choices, in order.
    pub open spec fn spec_names() -> Seq<Seq<char>> {
        seq!["60"@, "90"@, "120"@, "150"@, "180"@, "210"@, "240"@, "270"@, "300"@, "330"@, "360"@, "390"@, "420"@, "450"@, "480"@, "510"@, "540"@, "570"@, "600"@]
    }

    /// Display names of the choices, in order.
    pub fn names() -> (v: Vec<&'static str>)
        ensures
            v@.len() == Self::choices(),
            v@.map_values(|s: &str| s@) == Self::spec_names(),
    {
        let v = vec!["60", "90", "120", "150", "180", "210", "240", "270", "300", "330", "360", "390", "420", "450", "480", "510", "540", "570", "600"];
        assert(v@.map_values(|s: &str| s@) =~= Self::spec_names());
        v
    }

    /// No choice selected.
    pub fn new() -> (r: Self)
        ensures
            r@ == Seq::new(19, |i: int| 0u8),
    {
        let r = Self { F60: 0, F90: 0, F120: 0, F150: 0, F180: 0, F210: 0, F240: 0, F270: 0, F300: 0, F330: 0, F360: 0, F390: 0, F420: 0, F450: 0, F480: 0, F510: 0, F540: 0, F570: 0, F600: 0 };
        assert(r@ =~= Seq::new(19, |i: int| 0u8));
        r
    }

    /// No choice selected.
    pub fn empty() -> (r: Self)
        ensures
            r@ == Seq::new(19, |i: int| 0u8),
            no_flags(r@),
    {
        Self::new()
    }

    /// Every choice selected with weight one.
    pub fn all() -> (r: Self)
        ensures
            r@ == Seq::new(19, |i: int| 1u8),
    {
        let r = Self { F60: 1, F90: 1, F120: 1, F150: 1, F180: 1, F210: 1, F240: 1, F270: 1, F300: 1, F330: 1, F360: 1, F390: 1, F420: 1, F450: 1, F480: 1, F510: 1, F540: 1, F570: 1, F600: 1 };
        assert(r@ =~= Seq::new(19, |i: int| 1u8));
        r
    }

    /// Only "60" selected.
    pub fn F60() -> (r: Self)
        ensures
            r@ == only_flag(19, 0),
    {
        let r = Self { F60: 1, F90: 0, F120: 0, F150: 0, F180: 0, F210: 0, F240: 0, F270: 0, F300: 0, F330: 0, F360: 0, F390: 0, F420: 0, F450: 0, F480: 0, F510: 0, F540: 0, F570: 0, F600: 0 };
        assert(r@ =~= only_flag(19, 0));
        r
    }

    /// Only "90" selected.
    pub fn F90() -> (r: Self)
        ensures
            r@ == only_flag(19, 1),
    {
        let r = Self { F60: 0, F90: 1, F120: 0, F150: 0, F180: 0, F210: 0, F240: 0, F270: 0, F300: 0, F330: 0, F360: 0, F390: 0, F420: 0, F450: 0, F480: 0, F510: 0, F540: 0, F570: 0, F600: 0 };
        assert(r@ =~= only_flag(19, 1));
        r
    }

    /// Only "120" selected.
    pub fn F120() -> (r: Self)
        ensures
            r@ == only_flag(19, 2),
    {
        let r = Self { F60: 0, F90: 0, F120: 1, F150: 0, F180: 0, F210: 0, F240: 0, F270: 0, F300: 0, F330: 0, F360: 0, F390: 0, F420: 0, F450: 0, F480: 0, F510: 0, F540: 0, F570: 0, F600: 0 };
        assert(r@ =~= only_flag(19, 2));
        r
    }

    /// Only "150" selected.
    pub fn F150() -> (r: Self)
        ensures
            r@ == only_flag(19, 3),
    {
        let r = Self { F60: 0, F90: 0, F120: 0, F150: 1, F180: 0, F210: 0, F240: 0, F270: 0, F300: 0, F330: 0, F360: 0, F390: 0, F420: 0, F450: 0, F480: 0, F510: 0, F540: 0, F570: 0, F600: 0 };
        assert(r@ =~= only_flag(19, 3));
        r
    }

    /// Only "180" selected.
    pub fn F180() -> (r: Self)
        ensures
            r@ == only_flag(19, 4),
    {
        let r = Self { F60: 0, F90: 0, F120: 0, F150: 0, F180: 1, F210: 0, F240: 0, F270: 0, F300: 0, F330: 0, F360: 0, F390: 0, F420: 0, F450: 0, F480: 0, F510: 0, F540: 0, F570: 0, F600: 0 };
        assert(r@ =~= only_flag(19, 4));
        r
    }

    /// Only "210" selected.
    pub fn F210() -> (r: Self)
        ensures
            r@ == only_flag(19, 5),
    {
        let r = Self { F60: 0, F90: 0, F120: 0, F150: 0, F180: 0, F210: 1, F240: 0, F270: 0, F300: 0, F330: 0, F360: 0, F390: 0, F420: 0, F450: 0, F480: 0, F510: 0, F540: 0, F570: 0, F600: 0 };
        assert(r@ =~= only_flag(19, 5));
        r
    }

    /// Only "240" selected.
    pub fn F240() -> (r: Self)
        ensures
            r@ == only_flag(19, 6),
    {
        let r = Self { F60: 0, F90: 0, F120: 0, F150: 0, F180: 0, F210: 0, F240: 1, F270: 0, F300: 0, F330: 0, F360: 0, F390: 0, F420: 0, F450: 0, F480: 0, F510: 0, F540: 0, F570: 0, F600: 0 };
        assert(r@ =~= only_flag(19, 6));
        r
    }

    /// Only "270" selected.
    pub fn F270() -> (r: Self)
        ensures
            r@ == only_flag(19, 7),
    {
        let r = Self { F60: 0, F90: 0, F120: 0, F150: 0, F180: 0, F210: 0, F240: 0, F270: 1, F300: 0, F330: 0, F360: 0, F390: 0, F420: 0, F450: 0, F480: 0, F510: 0, F540: 0, F570: 0, F600: 0 };
        assert(r@ =~= only_flag(19, 7));
        r
    }

    /// Only "300" selected.
    pub fn F300() -> (r: Self)
        ensures
            r@ == only_flag(19, 8),
    {
        let r = Self { F60: 0, F90: 0, F120: 0, F150: 0, F180: 0, F210: 0, F240: 0, F270: 0, F300: 1, F330: 0, F360: 0, F390: 0, F420: 0, F450: 0, F480: 0, F510: 0, F540: 0, F570: 0, F600: 0 };
        assert(r@ =~= only_flag(19, 8));
        r
    }

    /// Only "330" selected.
    pub fn F330() -> (r: Self)
        ensures
            r@ == only_flag(19, 9),
    {
        let r = Self { F60: 0, F90: 0, F120: 0, F150: 0, F180: 0, F210: 0, F240: 0, F270: 0, F300: 0, F330: 1, F360: 0, F390: 0, F420: 0, F450: 0, F480: 0, F510: 0, F540: 0, F570: 0, F600: 0 };
        assert(r@ =~= only_flag(19, 9));
        r
    }

    /// Only "360" selected.
    pub fn F360() -> (r: Self)
        ensures
            r@ == only_flag(19, 10),
    {
        let r = Self { F60: 0, F90: 0, F120: 0, F150: 0, F180: 0, F210: 0, F240: 0, F270: 0, F300: 0, F330: 0, F360: 1, F390: 0, F420: 0, F450: 0, F480: 0, F510: 0, F540: 0, F570: 0, F600: 0 };
        assert(r@ =~= only_flag(19, 10));
        r
    }

    /// Only "390" selected.
    pub fn F390() -> (r: Self)
        ensures
            r@ == only_flag(19, 11),
    {
        let r = Self { F60: 0, F90: 0, F120: 0, F150: 0, F180: 0, F210: 0, F240: 0, F270: 0, F300: 0, F330: 0, F360: 0, F390: 1, F420: 0, F450: 0, F480: 0, F510: 0, F540: 0, F570: 0, F600: 0 };
        assert(r@ =~= only_flag(19, 11));
        r
    }

    /// Only "420" selected.
    pub fn F420() -> (r: Self)
        ensures
            r@ == only_flag(19, 12),
    {
        let r = Self { F60: 0, F90: 0, F120: 0, F150: 0, F180: 0, F210: 0, F240: 0, F270: 0, F300: 0, F330: 0, F360: 0, F390: 0, F420: 1, F450: 0, F480: 0, F510: 0, F540: 0, F570: 0, F600: 0 };
        assert(r@ =~= only_flag(19, 12));
        r
    }

    /// Only "450" selected.
    pub fn F450() -> (r: Self)
        ensures
            r@ == only_flag(19, 13),
    {
        let r = Self { F60: 0, F90: 0, F120: 0, F150: 0, F180: 0, F210: 0, F240: 0, F270: 0, F300: 0, F330: 0, F360: 0, F390: 0, F420: 0, F450: 1, F480: 0, F510: 0, F540: 0, F570: 0, F600: 0 };
        assert(r@ =~= only_flag(19, 13));
        r
    }

    /// Only "480" selected.
    pub fn F480() -> (r: Self)
        ensures
            r@ == only_flag(19, 14),
    {
        let r = Self { F60: 0, F90: 0, F120: 0, F150: 0, F180: 0, F210: 0, F240: 0, F270: 0, F300: 0, F330: 0, F360: 0, F390: 0, F420: 0, F450: 0, F480: 1, F510: 0, F540: 0, F570: 0, F600: 0 };
        assert(r@ =~= only_flag(19, 14));
        r
    }

    /// Only "510" selected.
    pub fn F510() -> (r: Self)
        ensures
            r@ == only_flag(19, 15),
    {
        let r = Self { F60: 0, F90: 0, F120: 0, F150: 0, F180: 0, F210: 0, F240: 0, F270: 0, F300: 0, F330: 0, F360: 0, F390: 0, F420: 0, F450: 0, F480: 0, F510: 1, F540: 0, F570: 0, F600: 0 };
        assert(r@ =~= only_flag(19, 15));
        r
    }

    /// Only "540" selected.
    pub fn F540() -> (r: Self)
        ensures
            r@ == only_flag(19, 16),
    {
        let r = Self { F60: 0, F90: 0, F120: 0, F150: 0, F180: 0, F210: 0, F240: 0, F270: 0, F300: 0, F330: 0, F360: 0, F390: 0, F420: 0, F450: 0, F480: 0, F510: 0, F540: 1, F570: 0, F600: 0 };
        assert(r@ =~= only_flag(19, 16));
        r
    }

    /// Only "570" selected.
    pub fn F570() -> (r: Self)
        ensures
            r@ == only_flag(19, 17),
    {
        let r = Self { F60: 0, F90: 0, F120: 0, F150: 0, F180: 0, F210: 0, F240: 0, F270: 0, F300: 0, F330: 0, F360: 0, F390: 0, F420: 0, F450: 0, F480: 0, F510: 0, F540: 0, F570: 1, F600: 0 };
        assert(r@ =~= only_flag(19, 17));
        r
    }

    /// Only "600" selected.
    pub fn F600() -> (r: Self)
        ensures
            r@ == only_flag(19, 18),
    {
        let r = Self { F60: 0, F90: 0, F120: 0, F150: 0, F180: 0, F210: 0, F240: 0, F270: 0, F300: 0, F330: 0, F360: 0, F390: 0, F420: 0, F450: 0, F480: 0, F510: 0, F540: 0, F570: 0, F600: 1 };
        assert(r@ =~= only_flag(19, 18));
        r
    }

    /// The weights, in choice order.
    pub fn to_vec(&self) -> (v: Vec<u8>)
        ensures
            v@ == self@,
    {
        let v = vec![self.F60, self.F90, self.F120, self.F150, self.F180, self.F210, self.F240, self.F270, self.F300, self.F330, self.F360, self.F390, self.F420, self.F450, self.F480, self.F510, self.F540, self.F570, self.F600];
        assert(v@ =~= self@);
        v
    }

    /// The option with the given weights, in choice order.
    pub fn from_weights(w: &Vec<u8>) -> (r: Self)
        requires
            w@.len() == 19,
        ensures
            r@ == w@,
    {
        let r = Self { F60: w[0], F90: w[1], F120: w[2], F150: w[3], F180: w[4], F210: w[5], F240: w[6], F270: w[7], F300: w[8], F330: w[9], F360: w[10], F390: w[11], F420: w[12], F450: w[13], F480: w[14], F510: w[15], F540: w[16], F570: w[17], F600: w[18] };
        assert(r@ =~= w@);
        r
    }

    /// Whether every choice selected in `other` is selected here.
    pub fn contains(&self, other: &Self) -> (b: bool)
        ensures
            b == flags_contains(self@, other@),
    {
        contains_weights(&self.to_vec(), &other.to_vec())
    }

    /// Choice-wise saturating sum of the weights.
    pub fn union(&self, other: Self) -> (r: Self)
        ensures
            r@ == flags_union(self@, other@),
    {
        Self::from_weights(&union_weights(&self.to_vec(), &other.to_vec()))
    }

    /// The weights of this option for the choices selected in `other`.
    pub fn left_intersection(&self, other: Self) -> (r: Self)
        ensures
            r@ == flags_left_intersection(self@, other@),
    {
        Self::from_weights(&left_intersection_weights(&self.to_vec(), &other.to_vec()))
    }

    /// A random single choice among the selected ones, in proportion to the weights;
    /// no choice when none is selected.
    pub fn get_random(&self) -> (r: Self)
        ensures
            is_random_pick(r@, self@),
    {
        Self::from_weights(&random_weights(&self.to_vec()))
    }

    /// The names of the selected choices joined with `" + "`.
    pub fn to_string(&self) -> (s: String)
        ensures
            s@ == flags_display(self@, Self::spec_names()),
    {
        display_weights(&self.to_vec(), &Self::names())
    }

    /// The menu page of this option: one toggle per choice, or a slider.
    pub fn to_submenu(title: &'static str, id: &'static str, help_text: &'static str, submenu_type: SubMenuType) -> (s: SubMenu)
        ensures
            submenu_matches(s, Self::spec_names(), title@, id@, help_text@, submenu_type),
    {
        submenu_from_names(Self::names(), title, id, help_text, submenu_type)
    }
}

/// Buttons of a button combination.
#[derive(Clone, Copy, Debug, PartialEq, Eq, Structural)]
pub struct ButtonConfig {
    pub A: u8,
    pub B: u8,
    pub X: u8,
    pub Y: u8,
    pub L: u8,
    pub R: u8,
    pub ZL: u8,
    pub ZR: u8,
    pub DPAD_UP: u8,
    pub DPAD_DOWN: u8,
    pub DPAD_LEFT: u8,
    pub DPAD_RIGHT: u8,
    pub PLUS: u8,
    pub MINUS: u8,
    pub LSTICK: u8,
    pub RSTICK: u8,
}

impl View for ButtonConfig {
    type V = Seq<u8>;

    open spec fn view(&self) -> Seq<u8> {
        seq![self.A, self.B, self.X, self.Y, self.L, self.R, self.ZL, self.ZR, self.DPAD_UP, self.DPAD_DOWN, self.DPAD_LEFT, self.DPAD_RIGHT, self.PLUS, self.MINUS, self.LSTICK, self.RSTICK]
    }
}

impl ButtonConfig {
    /// Number of choices.
    pub open spec fn choices() -> nat {
        16
    }

    /// Display names of the choices, in order.
    pub open spec fn spec_names() -> Seq<Seq<char>> {
        seq!["A"@, "B"@, "X"@, "Y"@, "Pro L"@, "Pro R; GCC Z"@, "Pro ZL; GCC L"@, "Pro ZR; GCC R"@, "DPad Up"@, "DPad Down"@, "DPad Left"@, "DPad Right"@, "Plus"@, "Minus"@, "Left Stick Press"@, "Right Stick Press"@]
    }

    /// Display names of the choices, in order.
    pub fn names() -> (v: Vec<&'static str>)
        ensures
            v@.len() == Self::choices(),
            v@.map_values(|s: &str| s@) == Self::spec_names(),
    {
        let v = vec!["A", "B", "X", "Y", "Pro L", "Pro R; GCC Z", "Pro ZL; GCC L", "Pro ZR; GCC R", "DPad Up", "DPad Down", "DPad Left", "DPad Right", "Plus", "Minus", "Left Stick Press", "Right Stick Press"];
        assert(v@.map_values(|s: &str| s@) =~= Self::spec_names());
        v
    }

    /// No choice selected.
    pub fn new() -> (r: Self)
        ensures
            r@ == Seq::new(16, |i: int| 0u8),
    {
        let r = Self { A: 0, B: 0, X: 0, Y: 0, L: 0, R: 0, ZL: 0, ZR: 0, DPAD_UP: 0, DPAD_DOWN: 0, DPAD_LEFT: 0, DPAD_RIGHT: 0, PLUS: 0, MINUS: 0, LSTICK: 0, RSTICK: 0 };
        assert(r@ =~= Seq::new(16, |i: int| 0u8));
        r
    }

    /// No choice selected.
    pub fn empty() -> (r: Self)
        ensures
            r@ == Seq::new(16, |i: int| 0u8),
            no_flags(r@),
    {
        Self::new()
    }

    /// Every choice selected with weight one.
    pub fn all() -> (r: Self)
        ensures
            r@ == Seq::new(16, |i: int| 1u8),
    {
        let r = Self { A: 1, B: 1, X: 1, Y: 1, L: 1, R: 1, ZL: 1, ZR: 1, DPAD_UP: 1, DPAD_DOWN: 1, DPAD_LEFT: 1, DPAD_RIGHT: 1, PLUS: 1, MINUS: 1, LSTICK: 1, RSTICK: 1 };
        assert(r@ =~= Seq::new(16, |i: int| 1u8));
        r
    }

    /// Only "A" selected.
    pub fn A() -> (r: Self)
        ensures
            r@ == only_flag(16, 0),
    {
        let r = Self { A: 1, B: 0, X: 0, Y: 0, L: 0, R: 0, ZL: 0, ZR: 0, DPAD_UP: 0, DPAD_DOWN: 0, DPAD_LEFT: 0, DPAD_RIGHT: 0, PLUS: 0, MINUS: 0, LSTICK: 0, RSTICK: 0 };
        assert(r@ =~= only_flag(16, 0));
        r
    }

    /// Only "B" selected.
    pub fn B() -> (r: Self)
        ensures
            r@ == only_flag(16, 1),
    {
        let r = Self { A: 0, B: 1, X: 0, Y: 0, L: 0, R: 0, ZL: 0, ZR: 0, DPAD_UP: 0, DPAD_DOWN: 0, DPAD_LEFT: 0, DPAD_RIGHT: 0, PLUS: 0, MINUS: 0, LSTICK: 0, RSTICK: 0 };
        assert(r@ =~= only_flag(16, 1));
        r
    }

    /// Only "X" selected.
    pub fn X() -> (r: Self)
        ensures
            r@ == only_flag(16, 2),
    {
        let r = Self { A: 0, B: 0, X: 1, Y: 0, L: 0, R: 0, ZL: 0, ZR: 0, DPAD_UP: 0, DPAD_DOWN: 0, DPAD_LEFT: 0, DPAD_RIGHT: 0, PLUS: 0, MINUS: 0, LSTICK: 0, RSTICK: 0 };
        assert(r@ =~= only_flag(16, 2));
        r
    }

    /// Only "Y" selected.
    pub fn Y() -> (r: Self)
        ensures
            r@ == only_flag(16, 3),
    {
        let r = Self { A: 0, B: 0, X: 0, Y: 1, L: 0, R: 0, ZL: 0, ZR: 0, DPAD_UP: 0, DPAD_DOWN: 0, DPAD_LEFT: 0, DPAD_RIGHT: 0, PLUS: 0, MINUS: 0, LSTICK: 0, RSTICK: 0 };
        assert(r@ =~= only_flag(16, 3));
        r
    }

    /// Only "Pro L" selected.
    pub fn L() -> (r: Self)
        ensures
            r@ == only_flag(16, 4),
    {
        let r = Self { A: 0, B: 0, X: 0, Y: 0, L: 1, R: 0, ZL: 0, ZR: 0, DPAD_UP: 0, DPAD_DOWN: 0, DPAD_LEFT: 0, DPAD_RIGHT: 0, PLUS: 0, MINUS: 0, LSTICK: 0, RSTICK: 0 };
        assert(r@ =~= only_flag(16, 4));
        r
    }

    /// Only "Pro R; GCC Z" selected.
    pub fn R() -> (r: Self)
        ensures
            r@ == only_flag(16, 5),
    {
        let r = Self { A: 0, B: 0, X: 0, Y: 0, L: 0, R: 1, ZL: 0, ZR: 0, DPAD_UP: 0, DPAD_DOWN: 0, DPAD_LEFT: 0, DPAD_RIGHT: 0, PLUS: 0, MINUS: 0, LSTICK: 0, RSTICK: 0 };
        assert(r@ =~= only_flag(16, 5));
        r
    }

    /// Only "Pro ZL; GCC L" selected.
    pub fn ZL() -> (r: Self)
        ensures
            r@ == only_flag(16, 6),
    {
        let r = Self { A: 0, B: 0, X: 0, Y: 0, L: 0, R: 0, ZL: 1, ZR: 0, DPAD_UP: 0, DPAD_DOWN: 0, DPAD_LEFT: 0, DPAD_RIGHT: 0, PLUS: 0, MINUS: 0, LSTICK: 0, RSTICK: 0 };
        assert(r@ =~= only_flag(16, 6));
        r
    }

    /// Only "Pro ZR; GCC R" selected.
    pub fn ZR() -> (r: Self)
        ensures
            r@ == only_flag(16, 7),
    {
        let r = Self { A: 0, B: 0, X: 0, Y: 0, L: 0, R: 0, ZL: 0, ZR: 1, DPAD_UP: 0, DPAD_DOWN: 0, DPAD_LEFT: 0, DPAD_RIGHT: 0, PLUS: 0, MINUS: 0, LSTICK: 0, RSTICK: 0 };
        assert(r@ =~= only_flag(16, 7));
        r
    }

    /// Only "DPad Up" selected.
    pub fn DPAD_UP() -> (r: Self)
        ensures
            r@ == only_flag(16, 8),
    {
        let r = Self { A: 0, B: 0, X: 0, Y: 0, L: 0, R: 0, ZL: 0, ZR: 0, DPAD_UP: 1, DPAD_DOWN: 0, DPAD_LEFT: 0, DPAD_RIGHT: 0, PLUS: 0, MINUS: 0, LSTICK: 0, RSTICK: 0 };
        assert(r@ =~= only_flag(16, 8));
        r
    }

    /// Only "DPad Down" selected.
    pub fn DPAD_DOWN() -> (r: Self)
        ensures
            r@ == only_flag(16, 9),
    {
        let r = Self { A: 0, B: 0, X: 0, Y: 0, L: 0, R: 0, ZL: 0, ZR: 0, DPAD_UP: 0, DPAD_DOWN: 1, DPAD_LEFT: 0, DPAD_RIGHT: 0, PLUS: 0, MINUS: 0, LSTICK: 0, RSTICK: 0 };
        assert(r@ =~= only_flag(16, 9));
        r
    }

    /// Only "DPad Left" selected.
    pub fn DPAD_LEFT() -> (r: Self)
        ensures
            r@ == only_flag(16, 10),
    {
        let r = Self { A: 0, B: 0, X: 0, Y: 0, L: 0, R: 0, ZL: 0, ZR: 0, DPAD_UP: 0, DPAD_DOWN: 0, DPAD_LEFT: 1, DPAD_RIGHT: 0, PLUS: 0, MINUS: 0, LSTICK: 0, RSTICK: 0 };
        assert(r@ =~= only_flag(16, 10));
        r
    }

    /// Only "DPad Right" selected.
    pub fn DPAD_RIGHT() -> (r: Self)
        ensures
            r@ == only_flag(16, 11),
    {
        let r = Self { A: 0, B: 0, X: 0, Y: 0, L: 0, R: 0, ZL: 0, ZR: 0, DPAD_UP: 0, DPAD_DOWN: 0, DPAD_LEFT: 0, DPAD_RIGHT: 1, PLUS: 0, MINUS: 0, LSTICK: 0, RSTICK: 0 };
        assert(r@ =~= only_flag(16, 11));
        r
    }

    /// Only "Plus" selected.
    pub fn PLUS() -> (r: Self)
        ensures
            r@ == only_flag(16, 12),
    {
        let r = Self { A: 0, B: 0, X: 0, Y: 0, L: 0, R: 0, ZL: 0, ZR: 0, DPAD_UP: 0, DPAD_DOWN: 0, DPAD_LEFT: 0, DPAD_RIGHT: 0, PLUS: 1, MINUS: 0, LSTICK: 0, RSTICK: 0 };
        assert(r@ =~= only_flag(16, 12));
        r
    }

    /// Only "Minus" selected.
    pub fn MINUS() -> (r: Self)
        ensures
            r@ == only_flag(16, 13),
    {
        let r = Self { A: 0, B: 0, X: 0, Y: 0, L: 0, R: 0, ZL: 0, ZR: 0, DPAD_UP: 0, DPAD_DOWN: 0, DPAD_LEFT: 0, DPAD_RIGHT: 0, PLUS: 0, MINUS: 1, LSTICK: 0, RSTICK: 0 };
        assert(r@ =~= only_flag(16, 13));
        r
    }

    /// Only "Left Stick Press" selected.
    pub fn LSTICK() -> (r: Self)
        ensures
            r@ == only_flag(16, 14),
    {
        let r = Self { A: 0, B: 0, X: 0, Y: 0, L: 0, R: 0, ZL: 0, ZR: 0, DPAD_UP: 0, DPAD_DOWN: 0, DPAD_LEFT: 0, DPAD_RIGHT: 0, PLUS: 0, MINUS: 0, LSTICK: 1, RSTICK: 0 };
        assert(r@ =~= only_flag(16, 14));
        r
    }

    /// Only "Right Stick Press" selected.
    pub fn RSTICK() -> (r: Self)
        ensures
            r@ == only_flag(16, 15),
    {
        let r = Self { A: 0, B: 0, X: 0, Y: 0, L: 0, R: 0, ZL: 0, ZR: 0, DPAD_UP: 0, DPAD_DOWN: 0, DPAD_LEFT: 0, DPAD_RIGHT: 0, PLUS: 0, MINUS: 0, LSTICK: 0, RSTICK: 1 };
        assert(r@ =~= only_flag(16, 15));
        r
    }

    /// The weights, in choice order.
    pub fn to_vec(&self) -> (v: Vec<u8>)
        ensures
            v@ == self@,
    {
        let v = vec![self.A, self.B, self.X, self.Y, self.L, self.R, self.ZL, self.ZR, self.DPAD_UP, self.DPAD_DOWN, self.DPAD_LEFT, self.DPAD_RIGHT, self.PLUS, self.MINUS, self.LSTICK, self.RSTICK];
        assert(v@ =~= self@);
        v
    }

    /// The option with the given weights, in choice order.
    pub fn from_weights(w: &Vec<u8>) -> (r: Self)
        requires
            w@.len() == 16,
        ensures
            r@ == w@,
    {
        let r = Self { A: w[0], B: w[1], X: w[2], Y: w[3], L: w[4], R: w[5], ZL: w[6], ZR: w[7], DPAD_UP: w[8], DPAD_DOWN: w[9], DPAD_LEFT: w[10], DPAD_RIGHT: w[11], PLUS: w[12], MINUS: w[13], LSTICK: w[14], RSTICK: w[15] };
        assert(r@ =~= w@);
        r
    }

    /// Whether every choice selected in `other` is selected here.
    pub fn contains(&self, other: &Self) -> (b: bool)
        ensures
            b == flags_contains(self@, other@),
    {
        contains_weights(&self.to_vec(), &other.to_vec())
    }

    /// Choice-wise saturating sum of the weights.
    pub fn union(&self, other: Self) -> (r: Self)
        ensures
            r@ == flags_union(self@, other@),
    {
        Self::from_weights(&union_weights(&self.to_vec(), &other.to_vec()))
    }

    /// The weights of this option for the choices selected in `other`.
    pub fn left_intersection(&self, other: Self) -> (r: Self)
        ensures
            r@ == flags_left_intersection(self@, other@),
    {
        Self::from_weights(&left_intersection_weights(&self.to_vec(), &other.to_vec()))
    }

    /// A random single choice among the selected ones, in proportion to the weights;
    /// no choice when none is selected.
    pub fn get_random(&self) -> (r: Self)
        ensures
            is_random_pick(r@, self@),
    {
        Self::from_weights(&random_weights(&self.to_vec()))
    }

    /// The names of the selected choices joined with `" + "`.
    pub fn to_string(&self) -> (s: String)
        ensures
            s@ == flags_display(self@, Self::spec_names()),
    {
        display_weights(&self.to_vec(), &Self::names())
    }

    /// The menu page of this option: one toggle per choice, or a slider.
    pub fn to_submenu(title: &'static str, id: &'static str, help_text: &'static str, submenu_type: SubMenuType) -> (s: SubMenu)
        ensures
            submenu_matches(s, Self::spec_names(), title@, id@, help_text@, submenu_type),
    {
        submenu_from_names(Self::names(), title, id, help_text, submenu_type)
    }
}

/// Which releases the updater follows.
#[derive(Clone, Copy, Debug, PartialEq, Eq, Structural)]
pub struct UpdatePolicy {
    pub STABLE: u8,
    pub BETA: u8,
    pub DISABLED: u8,
}

impl View for UpdatePolicy {
    type V = Seq<u8>;

    open spec fn view(&self) -> Seq<u8> {
        seq![self.STABLE, self.BETA, self.DISABLED]
    }
}

impl UpdatePolicy {
    /// Number of choices.
    pub open spec fn choices() -> nat {
        3
    }

    /// Display names of the choices, in order.
    pub open spec fn spec_names() -> Seq<Seq<char>> {
        seq!["Stable"@, "Beta"@, "Disabled"@]
    }

    /// Display names of the choices, in order.
    pub fn names() -> (v: Vec<&'static str>)
        ensures
            v@.len() == Self::choices(),
            v@.map_values(|s: &str| s@) == Self::spec_names(),
    {
        let v = vec!["Stable", "Beta", "Disabled"];
        assert(v@.map_values(|s: &str| s@) =~= Self::spec_names());
        v
    }

    /// No choice selected.
    pub fn new() -> (r: Self)
        ensures
            r@ == Seq::new(3, |i: int| 0u8),
    {
        let r = Self { STABLE: 0, BETA: 0, DISABLED: 0 };
        assert(r@ =~= Seq::new(3, |i: int| 0u8));
        r
    }

    /// No choice selected.
    pub fn empty() -> (r: Self)
        ensures
            r@ == Seq::new(3, |i: int| 0u8),
            no_flags(r@),
    {
        Self::new()
    }

    /// Every choice selected with weight one.
    pub fn all() -> (r: Self)
        ensures
            r@ == Seq::new(3, |i: int| 1u8),
    {
        let r = Self { STABLE: 1, BETA: 1, DISABLED: 1 };
        assert(r@ =~= Seq::new(3, |i: int| 1u8));
        r
    }

    /// Only "Stable" selected.
    pub fn STABLE() -> (r: Self)
        ensures
            r@ == only_flag(3, 0),
    {
        let r = Self { STABLE: 1, BETA: 0, DISABLED: 0 };
        assert(r@ =~= only_flag(3, 0));
        r
    }

    /// Only "Beta" selected.
    pub fn BETA() -> (r: Self)
        ensures
            r@ == only_flag(3, 1),
    {
        let r = Self { STABLE: 0, BETA: 1, DISABLED: 0 };
        assert(r@ =~= only_flag(3, 1));
        r
    }

    /// Only "Disabled" selected.
    pub fn DISABLED() -> (r: Self)
        ensures
            r@ == only_flag(3, 2),
    {
        let r = Self { STABLE: 0, BETA: 0, DISABLED: 1 };
        assert(r@ =~= only_flag(3, 2));
        r
    }

    /// The weights, in choice order.
    pub fn to_vec(&self) -> (v: Vec<u8>)
        ensures
            v@ == self@,
    {
        let v = vec![self.STABLE, self.BETA, self.DISABLED];
        assert(v@ =~= self@);
        v
    }

    /// The option with the given weights, in choice order.
    pub fn from_weights(w: &Vec<u8>) -> (r: Self)
        requires
            w@.len() == 3,
        ensures
            r@ == w@,
    {
        let r = Self { STABLE: w[0], BETA: w[1], DISABLED: w[2] };
        assert(r@ =~= w@);
        r
    }

    /// Whether every choice selected in `other` is selected here.
    pub fn contains(&self, other: &Self) -> (b: bool)
        ensures
            b == flags_contains(self@, other@),
    {
        contains_weights(&self.to_vec(), &other.to_vec())
    }

    /// Choice-wise saturating sum of the weights.
    pub fn union(&self, other: Self) -> (r: Self)
        ensures
            r@ == flags_union(self@, other@),
    {
        Self::from_weights(&union_weights(&self.to_vec(), &other.to_vec()))
    }

    /// The weights of this option for the choices selected in `other`.
    pub fn left_intersection(&self, other: Self) -> (r: Self)
        ensures
            r@ == flags_left_intersection(self@, other@),
    {
        Self::from_weights(&left_intersection_weights(&self.to_vec(), &other.to_vec()))
    }

    /// A random single choice among the selected ones, in proportion to the weights;
    /// no choice when none is selected.
    pub fn get_random(&self) -> (r: Self)
        ensures
            is_random_pick(r@, self@),
    {
        Self::from_weights(&random_weights(&self.to_vec()))
    }

    /// The names of the selected choices joined with `" + "`.
    pub fn to_string(&self) -> (s: String)
        ensures
            s@ == flags_display(self@, Self::spec_names()),
    {
        display_weights(&self.to_vec(), &Self::names())
    }

    /// The menu page of this option: one toggle per choice, or a slider.
    pub fn to_submenu(title: &'static str, id: &'static str, help_text: &'static str, submenu_type: SubMenuType) -> (s: SubMenu)
        ensures
            submenu_matches(s, Self::spec_names(), title@, id@, help_text@, submenu_type),
    {
        submenu_from_names(Self::names(), title, id, help_text, submenu_type)
    }
}

/// What the input log shows.
#[derive(Clone, Copy, Debug, PartialEq, Eq, Structural)]
pub struct InputDisplay {
    pub NONE: u8,
    pub SMASH: u8,
    pub RAW: u8,
    pub STATUS: u8,
}

impl View for InputDisplay {
    type V = Seq<u8>;

    open spec fn view(&self) -> Seq<u8> {
        seq![self.NONE, self.SMASH, self.RAW, self.STATUS]
    }
}

impl InputDisplay {
    /// Number of choices.
    pub open spec fn choices() -> nat {
        4
    }

    /// Display names of the choices, in order.
    pub open spec fn spec_names() -> Seq<Seq<char>> {
        seq!["None"@, "Smash Inputs"@, "Raw Inputs"@, "Status Only"@]
    }

    /// Display names of the choices, in order.
    pub fn names() -> (v: Vec<&'static str>)
        ensures
            v@.len() == Self::choices(),
            v@.map_values(|s: &str| s@) == Self::spec_names(),
    {
        let v = vec!["None", "Smash Inputs", "Raw Inputs", "Status Only"];
        assert(v@.map_values(|s: &str| s@) =~= Self::spec_names());
        v
    }

    /// No choice selected.
    pub fn new() -> (r: Self)
        ensures
            r@ == Seq::new(4, |i: int| 0u8),
    {
        let r = Self { NONE: 0, SMASH: 0, RAW: 0, STATUS: 0 };
        assert(r@ =~= Seq::new(4, |i: int| 0u8));
        r
    }

    /// No choice selected.
    pub fn empty() -> (r: Self)
        ensures
            r@ == Seq::new(4, |i: int| 0u8),
            no_flags(r@),
    {
        Self::new()
    }

    /// Every choice selected with weight one.
    pub fn all() -> (r: Self)
        ensures
            r@ == Seq::new(4, |i: int| 1u8),
    {
        let r = Self { NONE: 1, SMASH: 1, RAW: 1, STATUS: 1 };
        assert(r@ =~= Seq::new(4, |i: int| 1u8));
        r
    }

    /// Only "None" selected.
    pub fn NONE() -> (r: Self)
        ensures
            r@ == only_flag(4, 0),
    {
        let r = Self { NONE: 1, SMASH: 0, RAW: 0, STATUS: 0 };
        assert(r@ =~= only_flag(4, 0));
        r
    }

    /// Only "Smash Inputs" selected.
    pub fn SMASH() -> (r: Self)
        ensures
            r@ == only_flag(4, 1),
    {
        let r = Self { NONE: 0, SMASH: 1, RAW: 0, STATUS: 0 };
        assert(r@ =~= only_flag(4, 1));
        r
    }

    /// Only "Raw Inputs" selected.
    pub fn RAW() -> (r: Self)
        ensures
            r@ == only_flag(4, 2),
    {
        let r = Self { NONE: 0, SMASH: 0, RAW: 1, STATUS: 0 };
        assert(r@ =~= only_flag(4, 2));
        r
    }

    /// Only "Status Only" selected.
    pub fn STATUS() -> (r: Self)
        ensures
            r@ == only_flag(4, 3),
    {
        let r = Self { NONE: 0, SMASH: 0, RAW: 0, STATUS: 1 };
        assert(r@ =~= only_flag(4, 3));
        r
    }

    /// The weights, in choice order.
    pub fn to_vec(&self) -> (v: Vec<u8>)
        ensures
            v@ == self@,
    {
        let v = vec![self.NONE, self.SMASH, self.RAW, self.STATUS];
        assert(v@ =~= self@);
        v
    }

    /// The option with the given weights, in choice order.
    pub fn from_weights(w: &Vec<u8>) -> (r: Self)
        requires
            w@.len() == 4,
        ensures
            r@ == w@,
    {
        let r = Self { NONE: w[0], SMASH: w[1], RAW: w[2], STATUS: w[3] };
        assert(r@ =~= w@);
        r
    }

    /// Whether every choice selected in `other` is selected here.
    pub fn contains(&self, other: &Self) -> (b: bool)
        ensures
            b == flags_contains(self@, other@),
    {
        contains_weights(&self.to_vec(), &other.to_vec())
    }

    /// Choice-wise saturating sum of the weights.
    pub fn union(&self, other: Self) -> (r: Self)
        ensures
            r@ == flags_union(self@, other@),
    {
        Self::from_weights(&union_weights(&self.to_vec(), &other.to_vec()))
    }

    /// The weights of this option for the choices selected in `other`.
    pub fn left_intersection(&self, other: Self) -> (r: Self)
        ensures
            r@ == flags_left_intersection(self@, other@),
    {
        Self::from_weights(&left_intersection_weights(&self.to_vec(), &other.to_vec()))
    }

    /// A random single choice among the selected ones, in proportion to the weights;
    /// no choice when none is selected.
    pub fn get_random(&self) -> (r: Self)
        ensures
            is_random_pick(r@, self@),
    {
        Self::from_weights(&random_weights(&self.to_vec()))
    }

    /// The names of the selected choices joined with `" + "`.
    pub fn to_string(&self) -> (s: String)
        ensures
            s@ == flags_display(self@, Self::spec_names()),
    {
        display_weights(&self.to_vec(), &Self::names())
    }

    /// The menu page of this option: one toggle per choice, or a slider.
    pub fn to_submenu(title: &'static str, id: &'static str, help_text: &'static str, submenu_type: SubMenuType) -> (s: SubMenu)
        ensures
            submenu_matches(s, Self::spec_names(), title@, id@, help_text@, submenu_type),
    {
        submenu_from_names(Self::names(), title, id, help_text, submenu_type)
    }
}

/// Language of the menu.
#[derive(Clone, Copy, Debug, PartialEq, Eq, Structural)]
pub struct Locale {
    pub ENGLISH_US: u8,
    pub FRENCH: u8,
}

impl View for Locale {
    type V = Seq<u8>;

    open spec fn view(&self) -> Seq<u8> {
        seq![self.ENGLISH_US, self.FRENCH]
    }
}

impl Locale {
    /// Number of choices.
    pub open spec fn choices() -> nat {
        2
    }

    /// Display names of the choices, in order.
    pub open spec fn spec_names() -> Seq<Seq<char>> {
        seq!["English (US)"@, "French"@]
    }

    /// Display names of the choices, in order.
    pub fn names() -> (v: Vec<&'static str>)
        ensures
            v@.len() == Self::choices(),
            v@.map_values(|s: &str| s@) == Self::spec_names(),
    {
        let v = vec!["English (US)", "French"];
        assert(v@.map_values(|s: &str| s@) =~= Self::spec_names());
        v
    }

    /// No choice selected.
    pub fn new() -> (r: Self)
        ensures
            r@ == Seq::new(2, |i: int| 0u8),
    {
        let r = Self { ENGLISH_US: 0, FRENCH: 0 };
        assert(r@ =~= Seq::new(2, |i: int| 0u8));
        r
    }

    /// No choice selected.
    pub fn empty() -> (r: Self)
        ensures
            r@ == Seq::new(2, |i: int| 0u8),
            no_flags(r@),
    {
        Self::new()
    }

    /// Every choice selected with weight one.
    pub fn all() -> (r: Self)
        ensures
            r@ == Seq::new(2, |i: int| 1u8),
    {
        let r = Self { ENGLISH_US: 1, FRENCH: 1 };
        assert(r@ =~= Seq::new(2, |i: int| 1u8));
        r
    }

    /// Only "English (US)" selected.
    pub fn ENGLISH_US() -> (r: Self)
        ensures
            r@ == only_flag(2, 0),
    {
        let r = Self { ENGLISH_US: 1, FRENCH: 0 };
        assert(r@ =~= only_flag(2, 0));
        r
    }

    /// Only "French" selected.
    pub fn FRENCH() -> (r: Self)
        ensures
            r@ == only_flag(2, 1),
    {
        let r = Self { ENGLISH_US: 0, FRENCH: 1 };
        assert(r@ =~= only_flag(2, 1));
        r
    }

    /// The weights, in choice order.
    pub fn to_vec(&self) -> (v: Vec<u8>)
        ensures
            v@ == self@,
    {
        let v = vec![self.ENGLISH_US, self.FRENCH];
        assert(v@ =~= self@);
        v
    }

    /// The option with the given weights, in choice order.
    pub fn from_weights(w: &Vec<u8>) -> (r: Self)
        requires
            w@.len() == 2,
        ensures
            r@ == w@,
    {
        let r = Self { ENGLISH_US: w[0], FRENCH: w[1] };
        assert(r@ =~= w@);
        r
    }

    /// Whether every choice selected in `other` is selected here.
    pub fn contains(&self, other: &Self) -> (b: bool)
        ensures
            b == flags_contains(self@, other@),
    {
        contains_weights(&self.to_vec(), &other.to_vec())
    }

    /// Choice-wise saturating sum of the weights.
    pub fn union(&self, other: Self) -> (r: Self)
        ensures
            r@ == flags_union(self@, other@),
    {
        Self::from_weights(&union_weights(&self.to_vec(), &other.to_vec()))
    }

    /// The weights of this option for the choices selected in `other`.
    pub fn left_intersection(&self, other: Self) -> (r: Self)
        ensures
            r@ == flags_left_intersection(self@, other@),
    {
        Self::from_weights(&left_intersection_weights(&self.to_vec(), &other.to_vec()))
    }

    /// A random single choice among the selected ones, in proportion to the weights;
    /// no choice when none is selected.
    pub fn get_random(&self) -> (r: Self)
        ensures
            is_random_pick(r@, self@),
    {
        Self::from_weights(&random_weights(&self.to_vec()))
    }

    /// The names of the selected choices joined with `" + "`.
    pub fn to_string(&self) -> (s: String)
        ensures
            s@ == flags_display(self@, Self::spec_names()),
    {
        display_weights(&self.to_vec(), &Self::names())
    }

    /// The menu page of this option: one toggle per choice, or a slider.
    pub fn to_submenu(title: &'static str, id: &'static str, help_text: &'static str, submenu_type: SubMenuType) -> (s: SubMenu)
        ensures
            submenu_matches(s, Self::spec_names(), title@, id@, help_text@, submenu_type),
    {
        submenu_from_names(Self::names(), title, id, help_text, submenu_type)
    }
}

} // verus!
