//! Angled attacks: the CPU tilts its stick up or down for angled forward tilts
//! and smashes, as rolled from the menu.
use vstd::prelude::*;
use crate::flags::{choice_if_single, is_only_flag, is_random_pick};
use crate::menu::TrainingModpackMenu;
use crate::options::AttackAngle;

verus! {

/// Rolls the attack angle from the menu.
pub fn roll_direction(direction: &mut AttackAngle, menu: &TrainingModpackMenu)
    ensures
        is_random_pick(final(direction)@, menu.attack_angle@),
{
    *direction = menu.attack_angle.get_random();
}

/// The vertical stick direction of an angled attack: up (1) or down (-1) for
/// the CPU when that angle is rolled, none otherwise.
pub fn mod_get_stick_dir(direction: &AttackAngle, is_cpu: bool) -> (r: Option<i8>)
    ensures
        r == if is_cpu && is_only_flag(direction@, 1) {
            Some(1i8)
        } else if is_cpu && is_only_flag(direction@, 2) {
            Some(-1i8)
        } else {
            None
        },
{
    if !is_cpu {
        return None;
    }
    match choice_if_single(&direction.to_vec()) {
        Some(1) => Some(1),
        Some(2) => Some(-1),
        _ => None,
    }
}

} // verus!
