//! Weighted option flags: every menu option type holds one weight byte per
//! choice. A weight of zero means "not selected"; a random pick among the
//! selected choices is proportional to the weights.
use vstd::prelude::*;
use vstd::string::StringExecFns;

verus! {

/// No choice is selected.
pub open spec fn no_flags(w: Seq<u8>) -> bool {
    forall|i: int| 0 <= i < w.len() ==> w[i] == 0
}

/// The weights of `n` choices where exactly choice `k` is selected, with weight one.
pub open spec fn only_flag(n: nat, k: int) -> Seq<u8> {
    Seq::new(n, |i: int| if i == k { 1u8 } else { 0u8 })
}

/// `w` is exactly choice `k` (as the named constant of that choice).
pub open spec fn is_only_flag(w: Seq<u8>, k: int) -> bool {
    0 <= k < w.len() && w == only_flag(w.len(), k)
}

/// `w` is empty or exactly one named choice.
pub open spec fn empty_or_single(w: Seq<u8>) -> bool {
    no_flags(w) || exists|k: int| is_only_flag(w, k)
}

/// Saturating byte addition.
pub open spec fn sat_add(a: u8, b: u8) -> u8 {
    if a + b > 255 { 255u8 } else { (a + b) as u8 }
}

/// Choice-wise saturating sum of two weight lists.
pub open spec fn flags_union(a: Seq<u8>, b: Seq<u8>) -> Seq<u8> {
    Seq::new(a.len(), |i: int| sat_add(a[i], b[i]))
}

/// The weights of `a` for the choices that `b` selects; zero elsewhere.
pub open spec fn flags_left_intersection(a: Seq<u8>, b: Seq<u8>) -> Seq<u8> {
    Seq::new(a.len(), |i: int| if a[i] > 0 && b[i] > 0 { a[i] } else { 0u8 })
}

/// Every choice that `b` selects is selected in `a`.
pub open spec fn flags_contains(a: Seq<u8>, b: Seq<u8>) -> bool {
    forall|i: int| 0 <= i < b.len() ==> (b[i] == 0 || a[i] > 0)
}

/// Sum of the first `k` weights.
pub open spec fn weight_prefix(w: Seq<u8>, k: int) -> nat
    decreases k,
{
    if k <= 0 || w.len() == 0 { 0 } else if k > w.len() { weight_prefix(w, w.len() as int) } else { weight_prefix(w, k - 1) + w[k - 1] as nat }
}

/// Sum of all weights.
pub open spec fn total_weight(w: Seq<u8>) -> nat {
    weight_prefix(w, w.len() as int)
}

/// Choice `k` is the one that the `r`-th entry of the list "each choice repeated
/// as often as its weight, in order" names.
pub open spec fn picks(w: Seq<u8>, r: int, k: int) -> bool {
    0 <= k < w.len() && weight_prefix(w, k) <= r < weight_prefix(w, k + 1)
}

/// Concatenation of `parts` with `sep` between neighbours.
pub open spec fn join(parts: Seq<Seq<char>>, sep: Seq<char>) -> Seq<char>
    decreases parts.len(),
{
    if parts.len() == 0 {
        Seq::empty()
    } else if parts.len() == 1 {
        parts[0]
    } else {
        join(parts.drop_last(), sep) + sep + parts.last()
    }
}

/// The names of the first `k` choices whose weight is not zero.
pub open spec fn selected_names(w: Seq<u8>, names: Seq<Seq<char>>, k: int) -> Seq<Seq<char>>
    decreases k,
{
    if k <= 0 {
        Seq::empty()
    } else if w[k - 1] > 0 {
        selected_names(w, names, k - 1).push(names[k - 1])
    } else {
        selected_names(w, names, k - 1)
    }
}

/// The selected choices' names joined with `" + "`.
pub open spec fn flags_display(w: Seq<u8>, names: Seq<Seq<char>>) -> Seq<char> {
    join(selected_names(w, names, w.len() as int), seq![' ', '+', ' '])
}

/// `only_flag` names a single choice.
pub proof fn lemma_only_flag_unique(w: Seq<u8>, j: int, k: int)
    requires
        is_only_flag(w, j),
        is_only_flag(w, k),
    ensures
        j == k,
{
    assert(w[j] == 1);
}

/// A single choice is not empty.
pub proof fn lemma_only_flag_not_empty(w: Seq<u8>, k: int)
    requires
        is_only_flag(w, k),
    ensures
        !no_flags(w),
{
    assert(w[k] == 1);
}

/// A union selects every choice that either side selects.
pub proof fn lemma_union_contains_both(a: Seq<u8>, b: Seq<u8>)
    requires
        a.len() == b.len(),
    ensures
        flags_contains(flags_union(a, b), a),
        flags_contains(flags_union(a, b), b),
{
}

/// A left intersection selects only choices that both sides select, with the
/// weights of the left side.
pub proof fn lemma_left_intersection_within(a: Seq<u8>, b: Seq<u8>)
    requires
        a.len() == b.len(),
    ensures
        flags_contains(a, flags_left_intersection(a, b)),
        flags_contains(b, flags_left_intersection(a, b)),
        forall|i: int| 0 <= i < a.len() && #[trigger] flags_left_intersection(a, b)[i] > 0
            ==> flags_left_intersection(a, b)[i] == a[i],
{
}

/// A random pick is one of the selected choices.
pub proof fn lemma_random_pick_selected(w: Seq<u8>, k: int)
    requires
        0 <= k < w.len(),
        w[k] > 0,
    ensures
        flags_contains(w, only_flag(w.len(), k)),
{
}

proof fn lemma_selected_names_single(n: nat, names: Seq<Seq<char>>, k: int, j: int)
    requires
        0 <= k < n,
        0 <= j <= n,
    ensures
        selected_names(only_flag(n, k), names, j) == if j > k { seq![names[k]] } else { Seq::<Seq<char>>::empty() },
    decreases j,
{
    if j > 0 {
        lemma_selected_names_single(n, names, k, j - 1);
        if j - 1 == k {
            assert(Seq::<Seq<char>>::empty().push(names[k]) =~= seq![names[k]]);
        }
    }
}

/// A single choice is displayed as its own name.
pub proof fn lemma_display_single(n: nat, names: Seq<Seq<char>>, k: int)
    requires
        0 <= k < n,
    ensures
        flags_display(only_flag(n, k), names) == names[k],
{
    lemma_selected_names_single(n, names, k, n as int);
}

/// No selected choice is displayed as the empty string.
pub proof fn lemma_display_empty(w: Seq<u8>, names: Seq<Seq<char>>)
    requires
        no_flags(w),
    ensures
        flags_display(w, names) == Seq::<char>::empty(),
{
    lemma_selected_names_none(w, names, w.len() as int);
}

proof fn lemma_selected_names_none(w: Seq<u8>, names: Seq<Seq<char>>, j: int)
    requires
        no_flags(w),
        j <= w.len(),
    ensures
        selected_names(w, names, j).len() == 0,
    decreases j,
{
    if j > 0 {
        lemma_selected_names_none(w, names, j - 1);
    }
}

/// The facts that a single choice gives: it is not empty, it names no other
/// choice, and its weight is one.
pub proof fn lemma_single_facts(w: Seq<u8>, k: int)
    requires
        is_only_flag(w, k),
    ensures
        !no_flags(w),
        w[k] == 1,
        forall|j: int| is_only_flag(w, j) ==> j == k,
{
    assert(w[k] == 1);
    assert forall|j: int| is_only_flag(w, j) implies j == k by {
        lemma_only_flag_unique(w, j, k);
    }
}

/// An empty option names no choice.
pub proof fn lemma_empty_no_single(w: Seq<u8>)
    requires
        no_flags(w),
    ensures
        forall|k: int| !is_only_flag(w, k),
{
    assert forall|k: int| !is_only_flag(w, k) by {
        if is_only_flag(w, k) {
            lemma_only_flag_not_empty(w, k);
        }
    }
}

/// The choice that an empty-or-single option names; `None` when it is empty.
pub fn single_choice(w: &Vec<u8>) -> (r: Option<usize>)
    requires
        empty_or_single(w@),
    ensures
        match r {
            Some(k) => is_only_flag(w@, k as int) && !no_flags(w@)
                && forall|j: int| is_only_flag(w@, j) ==> j == k,
            None => no_flags(w@) && forall|j: int| !is_only_flag(w@, j),
        },
{
    let r = single_flag_index(w);
    proof {
        match r {
            Some(k) => lemma_single_facts(w@, k as int),
            None => {},
        }
    }
    r
}

/// An option names exactly one choice.
pub open spec fn is_single(w: Seq<u8>) -> bool {
    exists|k: int| is_only_flag(w, k)
}

/// The choice that a single-choice option names.
pub fn the_choice(w: &Vec<u8>) -> (k: usize)
    requires
        is_single(w@),
    ensures
        is_only_flag(w@, k as int),
        forall|j: int| is_only_flag(w@, j) ==> j == k,
{
    match single_flag_index(w) {
        Some(k) => {
            proof {
                lemma_single_facts(w@, k as int);
            }
            k
        },
        None => {
            assert(false);
            0
        },
    }
}

/// The choice that an option names, if it names exactly one.
pub fn choice_if_single(w: &Vec<u8>) -> (r: Option<usize>)
    ensures
        match r {
            Some(k) => is_only_flag(w@, k as int) && forall|j: int| is_only_flag(w@, j) ==> j == k,
            None => forall|j: int| !is_only_flag(w@, j),
        },
{
    let r = single_flag_index(w);
    proof {
        if let Some(k) = r {
            lemma_single_facts(w@, k as int);
        }
    }
    r
}

/// Whether an option is empty or names exactly one choice (see `empty_or_single`).
pub fn empty_or_single_now(w: &Vec<u8>) -> (b: bool)
    ensures
        b == empty_or_single(w@),
{
    weights_empty(w) || choice_if_single(w).is_some()
}

/// Whether no choice is selected.
pub fn weights_empty(w: &Vec<u8>) -> (b: bool)
    ensures
        b == no_flags(w@),
{
    let mut i: usize = 0;
    while i < w.len()
        invariant
            i <= w.len(),
            forall|j: int| 0 <= j < i ==> w@[j] == 0,
        decreases w.len() - i,
    {
        if w[i] != 0 {
            return false;
        }
        i = i + 1;
    }
    true
}

/// The choice that `w` is exactly, if it is one.
pub fn single_flag_index(w: &Vec<u8>) -> (r: Option<usize>)
    ensures
        match r {
            Some(k) => is_only_flag(w@, k as int),
            None => forall|k: int| !is_only_flag(w@, k),
        },
{
    let mut found: Option<usize> = None;
    let mut i: usize = 0;
    while i < w.len()
        invariant
            i <= w.len(),
            match found {
                Some(k) => k < i && w@[k as int] == 1 && forall|j: int| 0 <= j < i && j != k ==> w@[j] == 0,
                None => forall|j: int| 0 <= j < i ==> w@[j] == 0,
            },
        decreases w.len() - i,
    {
        let x = w[i];
        if x != 0 {
            if x != 1 || found.is_some() {
                proof {
                    assert forall|k: int| !is_only_flag(w@, k) by {
                        if is_only_flag(w@, k) {
                            assert(w@[i as int] == only_flag(w@.len(), k)[i as int]);
                            if let Some(f) = found {
                                assert(w@[f as int] == only_flag(w@.len(), k)[f as int]);
                            }
                        }
                    }
                }
                return None;
            }
            found = Some(i);
        }
        i = i + 1;
    }
    match found {
        Some(k) => {
            assert(w@ =~= only_flag(w@.len(), k as int));
            Some(k)
        },
        None => {
            proof {
                assert forall|k: int| !is_only_flag(w@, k) by {
                    if is_only_flag(w@, k) {
                        assert(w@[k] == only_flag(w@.len(), k)[k]);
                    }
                }
            }
            None
        },
    }
}

/// Choice-wise saturating sum.
pub fn union_weights(a: &Vec<u8>, b: &Vec<u8>) -> (r: Vec<u8>)
    requires
        a.len() == b.len(),
    ensures
        r@ == flags_union(a@, b@),
{
    let mut r: Vec<u8> = Vec::new();
    let mut i: usize = 0;
    while i < a.len()
        invariant
            a.len() == b.len(),
            i <= a.len(),
            r@ == flags_union(a@, b@).subrange(0, i as int),
        decreases a.len() - i,
    {
        let x = a[i].saturating_add(b[i]);
        r.push(x);
        i = i + 1;
        assert(r@ =~= flags_union(a@, b@).subrange(0, i as int));
    }
    assert(r@ =~= flags_union(a@, b@));
    r
}

/// The weights of `a` for the choices selected in `b`.
pub fn left_intersection_weights(a: &Vec<u8>, b: &Vec<u8>) -> (r: Vec<u8>)
    requires
        a.len() == b.len(),
    ensures
        r@ == flags_left_intersection(a@, b@),
{
    let mut r: Vec<u8> = Vec::new();
    let mut i: usize = 0;
    while i < a.len()
        invariant
            a.len() == b.len(),
            i <= a.len(),
            r@ == flags_left_intersection(a@, b@).subrange(0, i as int),
        decreases a.len() - i,
    {
        let x = if a[i] > 0 && b[i] > 0 { a[i] } else { 0 };
        r.push(x);
        i = i + 1;
        assert(r@ =~= flags_left_intersection(a@, b@).subrange(0, i as int));
    }
    assert(r@ =~= flags_left_intersection(a@, b@));
    r
}

/// Whether every choice selected in `b` is selected in `a`.
pub fn contains_weights(a: &Vec<u8>, b: &Vec<u8>) -> (r: bool)
    requires
        a.len() == b.len(),
    ensures
        r == flags_contains(a@, b@),
{
    let mut i: usize = 0;
    while i < b.len()
        invariant
            a.len() == b.len(),
            i <= b.len(),
            forall|j: int| 0 <= j < i ==> (b@[j] == 0 || a@[j] > 0),
        decreases b.len() - i,
    {
        if !(b[i] == 0 || (a[i] > 0 && b[i] > 0)) {
            return false;
        }
        i = i + 1;
    }
    true
}

proof fn lemma_weight_prefix_step(w: Seq<u8>, k: int)
    requires
        0 <= k < w.len(),
    ensures
        weight_prefix(w, k + 1) == weight_prefix(w, k) + w[k] as nat,
{
}

proof fn lemma_weight_prefix_bound(w: Seq<u8>, k: int)
    requires
        0 <= k <= w.len(),
    ensures
        weight_prefix(w, k) <= 255 * k,
    decreases k,
{
    if k > 0 {
        lemma_weight_prefix_bound(w, k - 1);
    }
}

proof fn lemma_weight_prefix_monotone(w: Seq<u8>, j: int, k: int)
    requires
        0 <= j <= k <= w.len(),
    ensures
        weight_prefix(w, j) <= weight_prefix(w, k),
    decreases k - j,
{
    if j < k {
        lemma_weight_prefix_monotone(w, j, k - 1);
    }
}

/// The sum of all weights.
pub fn weights_total(w: &Vec<u8>) -> (t: usize)
    requires
        w.len() <= 1024,
    ensures
        t == total_weight(w@),
{
    let mut t: usize = 0;
    let mut i: usize = 0;
    while i < w.len()
        invariant
            w.len() <= 1024,
            i <= w.len(),
            t == weight_prefix(w@, i as int),
        decreases w.len() - i,
    {
        proof {
            lemma_weight_prefix_step(w@, i as int);
            lemma_weight_prefix_bound(w@, i as int + 1);
        }
        t = t + w[i] as usize;
        i = i + 1;
    }
    t
}

/// The choice that position `r` of the weighted list names.
pub fn pick_weighted(w: &Vec<u8>, r: usize) -> (k: usize)
    requires
        w.len() <= 1024,
        r < total_weight(w@),
    ensures
        picks(w@, r as int, k as int),
        w@[k as int] > 0,
{
    let mut acc: usize = 0;
    let mut i: usize = 0;
    proof {
        lemma_weight_prefix_bound(w@, w@.len() as int);
    }
    while i < w.len()
        invariant
            w.len() <= 1024,
            i <= w.len(),
            acc == weight_prefix(w@, i as int),
            acc <= r,
            r < total_weight(w@),
        decreases w.len() - i,
    {
        proof {
            lemma_weight_prefix_step(w@, i as int);
            lemma_weight_prefix_bound(w@, i as int + 1);
        }
        let next = acc + w[i] as usize;
        if r < next {
            return i;
        }
        acc = next;
        i = i + 1;
    }
    assert(false);
    0
}

/// Picks a random position below `max` (`byteflags::get_random_int`, a
/// uniform draw from `rand::thread_rng`, which panics on an empty range).
/// Only the range of the result is stated.
#[verifier::external_body]
pub(crate) fn random_below(max: usize) -> (r: usize)
    requires
        max > 0,
    ensures
        r < max,
{
    byteflags::get_random_int(max)
}

/// `r` is a possible random pick from `w`: a single selected choice, or
/// nothing when nothing is selected.
pub open spec fn is_random_pick(r: Seq<u8>, w: Seq<u8>) -> bool {
    &&& r.len() == w.len()
    &&& no_flags(w) ==> no_flags(r)
    &&& !no_flags(w) ==> exists|k: int| 0 <= k < w.len() && w[k] > 0 && r == only_flag(w.len(), k)
}

/// A random pick is empty or a single choice.
pub proof fn lemma_random_pick_empty_or_single(r: Seq<u8>, w: Seq<u8>)
    requires
        is_random_pick(r, w),
    ensures
        empty_or_single(r),
        no_flags(r) == no_flags(w),
{
    if !no_flags(w) {
        let k = choose|k: int| 0 <= k < w.len() && w[k] > 0 && r == only_flag(w.len(), k);
        assert(is_only_flag(r, k));
        lemma_only_flag_not_empty(r, k);
    }
}

/// Every position below the weight of the first `n` choices names one of them.
proof fn lemma_position_named(w: Seq<u8>, r: int, n: int)
    requires
        0 <= n <= w.len(),
        0 <= r < weight_prefix(w, n),
    ensures
        exists|i: int| 0 <= i < n && #[trigger] picks(w, r, i),
    decreases n,
{
    if n > 0 {
        lemma_weight_prefix_step(w, n - 1);
        if r < weight_prefix(w, n - 1) {
            lemma_position_named(w, r, n - 1);
            let i = choose|i: int| 0 <= i < n - 1 && #[trigger] picks(w, r, i);
            assert(picks(w, r, i));
        } else {
            assert(picks(w, r, n - 1));
        }
    }
}

/// The weighted draw picks in proportion to the weights: each position below
/// the total weight names exactly one choice; the positions naming choice `k`
/// run from the weight of the choices before it, as many as its weight; so a
/// choice is picked for some position exactly when it is selected.
pub proof fn lemma_weighted_pick_in_proportion(w: Seq<u8>, r: int, j: int, k: int)
    requires
        0 <= k < w.len(),
    ensures
        picks(w, r, j) && picks(w, r, k) ==> j == k,
        0 <= r < total_weight(w) ==> exists|i: int| #[trigger] picks(w, r, i),
        picks(w, r, k) <==> weight_prefix(w, k) <= r < weight_prefix(w, k) + w[k],
        (exists|p: int| 0 <= p < total_weight(w) && #[trigger] picks(w, p, k)) <==> w[k] > 0,
{
    lemma_weight_prefix_step(w, k);
    lemma_weight_prefix_monotone(w, k + 1, w.len() as int);
    if picks(w, r, j) && picks(w, r, k) && j != k {
        if j < k {
            lemma_weight_prefix_monotone(w, j + 1, k);
        } else {
            lemma_weight_prefix_monotone(w, k + 1, j);
        }
    }
    if 0 <= r < total_weight(w) {
        lemma_position_named(w, r, w.len() as int);
    }
    if w[k] > 0 {
        assert(picks(w, weight_prefix(w, k) as int, k));
    }
}

/// A random single choice among the selected ones, drawn in proportion to the
/// weights; no choice if none is selected.
pub fn random_weights(w: &Vec<u8>) -> (r: Vec<u8>)
    requires
        w.len() <= 1024,
    ensures
        is_random_pick(r@, w@),
        !no_flags(w@) ==> exists|pos: int, k: int| 0 <= pos < total_weight(w@) && #[trigger] picks(w@, pos, k)
            && r@ == only_flag(w@.len(), k),
{
    let total = weights_total(w);
    if total == 0 {
        proof {
            assert forall|i: int| 0 <= i < w@.len() implies w@[i] == 0 by {
                lemma_weight_prefix_step(w@, i);
                lemma_weight_prefix_monotone(w@, i + 1, w@.len() as int);
            }
        }
        return w.clone();
    }
    let pos = random_below(total);
    let k = pick_weighted(w, pos);
    let r = only_weight(w.len(), k);
    proof {
        assert(w@[k as int] > 0);
        assert(picks(w@, pos as int, k as int));
    }
    r
}

/// The weights of `n` choices with only choice `k` selected.
pub fn only_weight(n: usize, k: usize) -> (r: Vec<u8>)
    requires
        k < n,
    ensures
        r@ == only_flag(n as nat, k as int),
{
    let mut r: Vec<u8> = Vec::new();
    let mut i: usize = 0;
    while i < n
        invariant
            i <= n,
            k < n,
            r@ == only_flag(n as nat, k as int).subrange(0, i as int),
        decreases n - i,
    {
        if i == k {
            r.push(1);
        } else {
            r.push(0);
        }
        i = i + 1;
        assert(r@ =~= only_flag(n as nat, k as int).subrange(0, i as int));
    }
    assert(r@ =~= only_flag(n as nat, k as int));
    r
}

/// The names of the selected choices joined with `" + "`.
pub fn display_weights(w: &Vec<u8>, names: &Vec<&str>) -> (s: String)
    requires
        w.len() == names.len(),
    ensures
        s@ == flags_display(w@, names@.map_values(|n: &str| n@)),
{
    let ghost nv = names@.map_values(|n: &str| n@);
    let mut s = String::new();
    let mut any = false;
    let mut i: usize = 0;
    while i < w.len()
        invariant
            w.len() == names.len(),
            nv == names@.map_values(|n: &str| n@),
            i <= w.len(),
            any == (selected_names(w@, nv, i as int).len() > 0),
            s@ == join(selected_names(w@, nv, i as int), seq![' ', '+', ' ']),
        decreases w.len() - i,
    {
        let ghost before = selected_names(w@, nv, i as int);
        if w[i] > 0 {
            if any {
                s.append(" + ");
            }
            s.append(names[i]);
            any = true;
            proof {
                let after = before.push(nv[i as int]);
                assert(after.drop_last() =~= before);
                if before.len() == 0 {
                    assert(s@ =~= join(after, seq![' ', '+', ' ']));
                } else {
                    reveal_strlit(" + ");
                    assert(s@ =~= join(after, seq![' ', '+', ' ']));
                }
            }
        }
        i = i + 1;
    }
    s
}

} // verus!
