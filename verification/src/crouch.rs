//! Crouching: the CPU holds its stick down while standing or crouching.
use vstd::prelude::*;
use crate::flags::{choice_if_single, is_only_flag};
use crate::menu::TrainingModpackMenu;

verus! {

/// The CPU crouches: holds its stick down (-1) while standing or crouching
/// when the menu's crouch option is on.
pub fn mod_get_stick_y(menu: &TrainingModpackMenu, is_cpu: bool, standing_or_crouching: bool) -> (r: Option<i8>)
    ensures
        r == if is_cpu && is_only_flag(menu.crouch@, 0) && standing_or_crouching { Some(-1i8) } else { None },
{
    if !is_cpu {
        return None;
    }
    let crouch_on = match choice_if_single(&menu.crouch.to_vec()) {
        Some(k) => k == 0,
        None => false,
    };
    if crouch_on && standing_or_crouching {
        Some(-1)
    } else {
        None
    }
}

} // verus!
