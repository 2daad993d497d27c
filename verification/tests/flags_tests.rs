use training_modpack::flags::{
    choice_if_single, contains_weights, display_weights, left_intersection_weights, only_weight,
    pick_weighted, random_weights, single_flag_index, union_weights, weights_empty, weights_total,
};
use training_modpack::options::{Action, BuffOption, Delay, LedgeOption, MashTrigger, ThrowOption};

#[test]
fn union_contains_both_operands() {
    let a = Action::NAIR().union(Action::FAIR());
    assert!(a.contains(&Action::NAIR()));
    assert!(a.contains(&Action::FAIR()));
    assert!(!a.contains(&Action::BAIR()));
    assert!(a.contains(&Action::empty()));
}

#[test]
fn union_saturates_weights() {
    assert_eq!(union_weights(&vec![250, 0, 3], &vec![10, 0, 4]), vec![255, 0, 7]);
}

#[test]
fn left_intersection_keeps_left_weights() {
    assert_eq!(left_intersection_weights(&vec![3, 2, 0, 1], &vec![1, 0, 5, 9]), vec![3, 0, 0, 1]);
    let selected = BuffOption::OOMPH().union(BuffOption::MONAD_JUMP()).union(BuffOption::WAFT_FULL());
    assert_eq!(selected.hero_buffs(), BuffOption::OOMPH());
    assert_eq!(selected.shulk_buffs(), BuffOption::MONAD_JUMP());
    assert_eq!(selected.wario_buffs(), BuffOption::WAFT_FULL());
}

#[test]
fn contains_only_looks_at_nonzero() {
    assert!(contains_weights(&vec![2, 0, 1], &vec![1, 0, 0]));
    assert!(contains_weights(&vec![2, 0, 1], &vec![0, 0, 0]));
    assert!(!contains_weights(&vec![2, 0, 1], &vec![0, 1, 0]));
    assert!(MashTrigger::default().contains(&MashTrigger::HIT()));
}

#[test]
fn empty_and_single_weights() {
    assert!(weights_empty(&vec![0, 0, 0]));
    assert!(!weights_empty(&vec![0, 1, 0]));
    assert_eq!(single_flag_index(&vec![0, 1, 0]), Some(1));
    assert_eq!(single_flag_index(&vec![0, 1, 1]), None);
    assert_eq!(single_flag_index(&vec![0, 2, 0]), None);
    assert_eq!(choice_if_single(&vec![0, 0, 1]), Some(2));
    assert_eq!(choice_if_single(&vec![0, 0, 0]), None);
    assert_eq!(only_weight(4, 2), vec![0, 0, 1, 0]);
}

#[test]
fn weighted_pick_walks_the_prefix_sums() {
    let w = vec![2, 0, 3];
    assert_eq!(weights_total(&w), 5);
    assert_eq!(pick_weighted(&w, 0), 0);
    assert_eq!(pick_weighted(&w, 1), 0);
    assert_eq!(pick_weighted(&w, 2), 2);
    assert_eq!(pick_weighted(&w, 4), 2);
}

#[test]
fn random_pick_of_single_choice_is_that_choice() {
    for _ in 0..20 {
        assert_eq!(Delay::D12().get_random(), Delay::D12());
        assert_eq!(random_weights(&vec![0, 0, 4]), vec![0, 0, 1]);
    }
    assert_eq!(Delay::empty().get_random(), Delay::empty());
    assert_eq!(random_weights(&vec![0, 0, 0]), vec![0, 0, 0]);
}

#[test]
fn random_pick_is_one_selected_choice() {
    let w = ThrowOption::FORWARD().union(ThrowOption::UP());
    for _ in 0..50 {
        let r = w.get_random();
        assert!(r == ThrowOption::FORWARD() || r == ThrowOption::UP());
    }
}

#[test]
fn display_joins_selected_names() {
    assert_eq!(ThrowOption::empty().to_string(), "");
    assert_eq!(ThrowOption::UP().to_string(), "Up Throw");
    assert_eq!(
        ThrowOption::FORWARD().union(ThrowOption::DOWN()).to_string(),
        "Forward Throw + Down Throw"
    );
    assert_eq!(display_weights(&vec![1, 0, 1], &vec!["a", "b", "c"]), "a + c");
    assert_eq!(LedgeOption::ROLL().to_string(), "Roll");
}
