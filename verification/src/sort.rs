use vstd::prelude::*;

verus! {

use crate::ir::{CType, CompositeType, TypePattern};
use crate::ir::{spec_type_name, spec_has_dep, spec_composite_has_dep, spec_name_present};
use crate::ir::type_name_of;
use vstd::multiset::Multiset;

/// Whether the named type `n` still waits in `ts`, blocking anyone who
/// holds a field of that type by value.
pub open spec fn spec_field_blocked(ts: Seq<CType>, t: CType) -> bool {
    match spec_type_name(t) {
        Some(n) => spec_name_present(ts, n),
        None => false,
    }
}

/// Position `i` of `ts` can be emitted: no type it needs by value still
/// waits in `ts`.
pub open spec fn spec_ready(ts: Seq<CType>, i: int) -> bool {
    forall|n: Seq<char>| #[trigger] spec_has_dep(ts[i], n) ==> !spec_name_present(ts, n)
}

/// The least position at or after `i` of `ts` that is ready, or -1 when
/// none is.
pub open spec fn spec_first_ready_from(ts: Seq<CType>, i: nat) -> int
    decreases ts.len() - i,
{
    if i >= ts.len() {
        -1
    } else if spec_ready(ts, i as int) {
        i as int
    } else {
        spec_first_ready_from(ts, i + 1)
    }
}

/// The emission order of the type list: repeatedly the first ready type,
/// then the order of the rest. Should no type be ready — the value-
/// containment graph has a cycle, which a well-formed library never
/// produces — what remains keeps its input order, so that the sorter
/// terminates and loses nothing.
pub open spec fn spec_sort(ts: Seq<CType>) -> Seq<CType>
    decreases ts.len(),
{
    if ts.len() == 0 {
        Seq::empty()
    } else {
        let i = spec_first_ready_from(ts, 0);
        if 0 <= i < ts.len() {
            seq![ts[i]] + spec_sort(ts.remove(i))
        } else {
            ts
        }
    }
}

/// The ranking `r` certifies the value-containment graph of `ts` as
/// acyclic: along every edge the rank strictly drops.
pub open spec fn spec_respects_rank(ts: Seq<CType>, r: Map<Seq<char>, int>) -> bool {
    forall|i: int, n: Seq<char>|
        0 <= i < ts.len() && #[trigger] spec_has_dep(ts[i], n) && spec_name_present(ts, n)
            ==> r[n] < r[spec_type_name(ts[i])->0]
}

/// The value-containment graph over `ts` is acyclic: some ranking of the
/// type names strictly drops along every edge.
pub open spec fn spec_acyclic(ts: Seq<CType>) -> bool {
    exists|r: Map<Seq<char>, int>| #[trigger] spec_respects_rank(ts, r)
}

proof fn lemma_first_ready_from_bounds(ts: Seq<CType>, i: nat)
    requires
        i <= ts.len(),
    ensures
        ({
            let r = spec_first_ready_from(ts, i);
            (r == -1 && (forall|j: int| i <= j < ts.len() ==> !spec_ready(ts, j))) || (i <= r
                < ts.len() && spec_ready(ts, r))
        }),
    decreases ts.len() - i,
{
    if i >= ts.len() {
    } else if spec_ready(ts, i as int) {
    } else {
        lemma_first_ready_from_bounds(ts, i + 1);
    }
}

spec fn spec_min_rank_at(ts: Seq<CType>, r: Map<Seq<char>, int>, i: int) -> bool {
    0 <= i < ts.len() && (forall|j: int|
        0 <= j < ts.len() ==> r[spec_type_name(ts[i])->0] <= r[spec_type_name(#[trigger] ts[j])->0])
}

proof fn lemma_min_rank_exists(ts: Seq<CType>, r: Map<Seq<char>, int>)
    requires
        ts.len() > 0,
        forall|j: int| 0 <= j < ts.len() ==> spec_type_name(#[trigger] ts[j]) is Some,
    ensures
        exists|i: int| #[trigger] spec_min_rank_at(ts, r, i),
    decreases ts.len(),
{
    if ts.len() == 1 {
        assert(spec_min_rank_at(ts, r, 0));
    } else {
        let sub = ts.drop_last();
        lemma_min_rank_exists(sub, r);
        let i0 = choose|i: int| #[trigger] spec_min_rank_at(sub, r, i);
        let last = ts.len() - 1;
        assert(forall|j: int| 0 <= j < sub.len() ==> sub[j] == ts[j]);
        if r[spec_type_name(ts[last])->0] < r[spec_type_name(ts[i0])->0] {
            assert(spec_min_rank_at(ts, r, last));
        } else {
            assert(ts[i0] == sub[i0]);
            assert(spec_min_rank_at(ts, r, i0));
        }
    }
}

/// In a nonempty list whose value-containment graph is acyclic, some type
/// is ready: the sorter always makes progress.
proof fn lemma_acyclic_progress(ts: Seq<CType>)
    requires
        spec_acyclic(ts),
        ts.len() > 0,
    ensures
        0 <= spec_first_ready_from(ts, 0) < ts.len(),
{
    lemma_first_ready_from_bounds(ts, 0);
    if spec_first_ready_from(ts, 0) == -1 {
        let r = choose|r: Map<Seq<char>, int>| spec_respects_rank(ts, r);
        if exists|j: int| 0 <= j < ts.len() && spec_type_name(#[trigger] ts[j]) is None {
            let j = choose|j: int| 0 <= j < ts.len() && spec_type_name(#[trigger] ts[j]) is None;
            assert(spec_ready(ts, j)) by {
                assert forall|n: Seq<char>| #[trigger]
                    spec_has_dep(ts[j], n) implies !spec_name_present(ts, n) by {
                    crate::ir::lemma_dep_implies_named(ts[j], n);
                }
            }
            assert(false);
        } else {
            assert(forall|j: int| 0 <= j < ts.len() ==> spec_type_name(#[trigger] ts[j]) is Some);
            lemma_min_rank_exists(ts, r);
            let i = choose|i: int| #[trigger] spec_min_rank_at(ts, r, i);
            assert(!spec_ready(ts, i));
            let n = choose|n: Seq<char>| #[trigger]
                spec_has_dep(ts[i], n) && spec_name_present(ts, n);
            assert(r[n] < r[spec_type_name(ts[i])->0]);
            let j = choose|j: int| 0 <= j < ts.len() && spec_type_name(#[trigger] ts[j]) == Some(n);
            assert(r[spec_type_name(ts[i])->0] <= r[spec_type_name(ts[j])->0]);
            assert(false);
        }
    }
}

proof fn lemma_remove_keeps_names(ts: Seq<CType>, idx: int)
    requires
        0 <= idx < ts.len(),
    ensures
        forall|j: int|
            0 <= j < ts.remove(idx).len() ==> #[trigger] ts.remove(idx)[j] == (if j < idx {
                ts[j]
            } else {
                ts[j + 1]
            }),
        forall|n: Seq<char>|
            #[trigger] spec_name_present(ts.remove(idx), n) ==> spec_name_present(ts, n),
        spec_acyclic(ts) ==> spec_acyclic(ts.remove(idx)),
{
    let rest = ts.remove(idx);
    assert(forall|j: int|
        0 <= j < rest.len() ==> #[trigger] rest[j] == (if j < idx {
            ts[j]
        } else {
            ts[j + 1]
        }));
    assert forall|n: Seq<char>| #[trigger]
        spec_name_present(rest, n) implies spec_name_present(ts, n) by {
        let j = choose|j: int| 0 <= j < rest.len() && spec_type_name(#[trigger] rest[j]) == Some(n);
        if j < idx {
            assert(spec_type_name(ts[j]) == Some(n));
        } else {
            assert(spec_type_name(ts[j + 1]) == Some(n));
        }
    }
    if spec_acyclic(ts) {
        let r = choose|r: Map<Seq<char>, int>| spec_respects_rank(ts, r);
        assert(spec_respects_rank(rest, r)) by {
            assert forall|i: int, n: Seq<char>|
                0 <= i < rest.len() && #[trigger] spec_has_dep(rest[i], n) && spec_name_present(
                    rest,
                    n,
                ) implies r[n] < r[spec_type_name(rest[i])->0] by {
                let orig_i: int = if i < idx {
                    i
                } else {
                    i + 1
                };
                assert(rest[i] == ts[orig_i]);
            }
        }
    }
}

/// Topological validity of the emission order: when the value-containment
/// graph of the type list is acyclic, every type that another type holds
/// by value is declared strictly earlier than its holder.
pub proof fn lemma_sort_topological(ts: Seq<CType>)
    requires
        spec_acyclic(ts),
    ensures
        forall|i: int, n: Seq<char>|
            0 <= i < spec_sort(ts).len() && #[trigger] spec_has_dep(spec_sort(ts)[i], n)
                && spec_name_present(ts, n) ==> (exists|j: int|
                0 <= j < i && spec_type_name(#[trigger] spec_sort(ts)[j]) == Some(n)),
    decreases ts.len(),
{
    if ts.len() == 0 {
    } else {
        lemma_acyclic_progress(ts);
        let idx = spec_first_ready_from(ts, 0);
        lemma_first_ready_from_bounds(ts, 0);
        let rest = ts.remove(idx);
        lemma_remove_keeps_names(ts, idx);
        lemma_sort_topological(rest);
        let out = spec_sort(ts);
        assert(out == seq![ts[idx]] + spec_sort(rest));
        assert forall|i: int, n: Seq<char>|
            0 <= i < out.len() && #[trigger] spec_has_dep(out[i], n) && spec_name_present(
                ts,
                n,
            ) implies (exists|j: int|
            0 <= j < i && spec_type_name(#[trigger] out[j]) == Some(n)) by {
            if i == 0 {
                assert(out[0] == ts[idx]);
                assert(spec_ready(ts, idx));
                assert(false);
            } else {
                assert(out[i] == spec_sort(rest)[i - 1]);
                if spec_name_present(rest, n) {
                    let j0 = choose|j0: int|
                        0 <= j0 < i - 1 && spec_type_name(#[trigger] spec_sort(rest)[j0]) == Some(
                            n,
                        );
                    assert(out[j0 + 1] == spec_sort(rest)[j0]);
                    assert(spec_type_name(out[j0 + 1]) == Some(n));
                } else {
                    let k = choose|k: int|
                        0 <= k < ts.len() && spec_type_name(#[trigger] ts[k]) == Some(n);
                    if k != idx {
                        let rest_k: int = if k < idx {
                            k
                        } else {
                            k - 1
                        };
                        assert(rest[rest_k] == ts[k]);
                        assert(spec_name_present(rest, n));
                        assert(false);
                    }
                    assert(spec_type_name(out[0]) == Some(n));
                }
            }
        }
    }
}

/// The emission order loses no type and invents none: it is a permutation
/// of the input list.
pub proof fn lemma_sort_permutes(ts: Seq<CType>)
    ensures
        spec_sort(ts).to_multiset() == ts.to_multiset(),
    decreases ts.len(),
{
    broadcast use vstd::seq_lib::group_to_multiset_ensures;

    if ts.len() == 0 {
        assert(spec_sort(ts).to_multiset() =~= ts.to_multiset());
    } else {
        let idx = spec_first_ready_from(ts, 0);
        if 0 <= idx < ts.len() {
            let rest = ts.remove(idx);
            lemma_sort_permutes(rest);
            assert(spec_sort(ts) == seq![ts[idx]] + spec_sort(rest));
            vstd::seq_lib::lemma_multiset_commutative(seq![ts[idx]], spec_sort(rest));
            assert(seq![ts[idx]] == Seq::empty().push(ts[idx]));
            assert(seq![ts[idx]].to_multiset() =~= Multiset::empty().insert(ts[idx]));
            assert(rest.to_multiset() =~= ts.to_multiset().remove(ts[idx]));
            assert(ts.to_multiset().contains(ts[idx]));
            assert(spec_sort(ts).to_multiset() =~= ts.to_multiset());
        }
    }
}

/// The types of `ts` that the index list `idx` picks, in that order.
pub open spec fn spec_pick(ts: Seq<CType>, idx: Seq<usize>) -> Seq<CType> {
    Seq::new(idx.len(), |k: int| ts[idx[k] as int])
}

/// Every entry of `idx` indexes into `ts`.
pub open spec fn spec_idx_in_range(ts: Seq<CType>, idx: Seq<usize>) -> bool {
    forall|k: int| 0 <= k < idx.len() ==> (#[trigger] idx[k]) < ts.len()
}

fn name_present(ts: &Vec<CType>, idx: &Vec<usize>, n: &String) -> (r: bool)
    requires
        spec_idx_in_range(ts@, idx@),
    ensures
        r == spec_name_present(spec_pick(ts@, idx@), n@),
{
    let ghost picked = spec_pick(ts@, idx@);
    let mut j: usize = 0;
    while j < idx.len()
        invariant
            j <= idx@.len(),
            spec_idx_in_range(ts@, idx@),
            picked == spec_pick(ts@, idx@),
            forall|j2: int| 0 <= j2 < j ==> spec_type_name(#[trigger] picked[j2]) != Some(n@),
        decreases idx@.len() - j,
    {
        let pos = idx[j];
        assert(ts@[pos as int] == picked[j as int]);
        match type_name_of(&ts[pos]) {
            Some(m) => {
                if m.eq(n) {
                    assert(spec_type_name(picked[j as int]) == Some(n@));
                    return true;
                }
            },
            None => {},
        }
        j = j + 1;
    }
    false
}

fn composite_unblocked(c: &CompositeType, ts: &Vec<CType>, idx: &Vec<usize>) -> (r: bool)
    requires
        spec_idx_in_range(ts@, idx@),
    ensures
        r == (forall|k: int|
            0 <= k < c.fields@.len() ==> !spec_field_blocked(
                spec_pick(ts@, idx@),
                #[trigger] c.fields@[k].the_type,
            )),
{
    let ghost picked = spec_pick(ts@, idx@);
    let mut k: usize = 0;
    while k < c.fields.len()
        invariant
            k <= c.fields@.len(),
            spec_idx_in_range(ts@, idx@),
            picked == spec_pick(ts@, idx@),
            forall|k2: int|
                0 <= k2 < k ==> !spec_field_blocked(picked, #[trigger] c.fields@[k2].the_type),
        decreases c.fields@.len() - k,
    {
        match type_name_of(&c.fields[k].the_type) {
            Some(nm) => {
                if name_present(ts, idx, nm) {
                    assert(spec_field_blocked(picked, c.fields@[k as int].the_type));
                    return false;
                }
            },
            None => {},
        }
        k = k + 1;
    }
    true
}

proof fn lemma_composite_ready_iff(ts: Seq<CType>, i: int, c: CompositeType)
    requires
        0 <= i < ts.len(),
        forall|n: Seq<char>| #[trigger] spec_has_dep(ts[i], n) == spec_composite_has_dep(c, n),
    ensures
        spec_ready(ts, i) <==> (forall|k: int|
            0 <= k < c.fields@.len() ==> !spec_field_blocked(ts, #[trigger] c.fields@[k].the_type)),
{
    if spec_ready(ts, i) {
        assert forall|k: int|
            0 <= k < c.fields@.len() implies !spec_field_blocked(
            ts,
            #[trigger] c.fields@[k].the_type,
        ) by {
            if spec_field_blocked(ts, c.fields@[k].the_type) {
                let n = spec_type_name(c.fields@[k].the_type)->0;
                assert(spec_composite_has_dep(c, n));
                assert(spec_has_dep(ts[i], n));
                assert(false);
            }
        }
    }
    if (forall|k: int|
        0 <= k < c.fields@.len() ==> !spec_field_blocked(ts, #[trigger] c.fields@[k].the_type)) {
        assert forall|n: Seq<char>| #[trigger]
            spec_has_dep(ts[i], n) implies !spec_name_present(ts, n) by {
            let k = choose|k: int|
                0 <= k < c.fields@.len() && spec_type_name(#[trigger] c.fields@[k].the_type)
                    == Some(n);
            assert(!spec_field_blocked(ts, c.fields@[k].the_type));
        }
    }
}

fn is_ready(ts: &Vec<CType>, idx: &Vec<usize>, i: usize) -> (r: bool)
    requires
        spec_idx_in_range(ts@, idx@),
        i < idx@.len(),
    ensures
        r == spec_ready(spec_pick(ts@, idx@), i as int),
{
    let ghost picked = spec_pick(ts@, idx@);
    let pos = idx[i];
    assert(ts@[pos as int] == picked[i as int]);
    match &ts[pos] {
        CType::Composite(c) => {
            let r = composite_unblocked(c, ts, idx);
            proof {
                lemma_composite_ready_iff(picked, i as int, *c);
            }
            r
        },
        CType::Pattern(TypePattern::Slice(c)) => {
            let r = composite_unblocked(c, ts, idx);
            proof {
                lemma_composite_ready_iff(picked, i as int, *c);
            }
            r
        },
        CType::Pattern(TypePattern::Optional(c)) => {
            let r = composite_unblocked(c, ts, idx);
            proof {
                lemma_composite_ready_iff(picked, i as int, *c);
            }
            r
        },
        _ => {
            proof {
                assert forall|n: Seq<char>| #[trigger]
                    spec_has_dep(picked[i as int], n) implies !spec_name_present(picked, n) by {}
            }
            true
        },
    }
}

fn find_first_ready(ts: &Vec<CType>, idx: &Vec<usize>) -> (r: Option<usize>)
    requires
        spec_idx_in_range(ts@, idx@),
    ensures
        match r {
            Some(i) => i < idx@.len() && spec_first_ready_from(spec_pick(ts@, idx@), 0) == i as int,
            None => spec_first_ready_from(spec_pick(ts@, idx@), 0) == -1,
        },
{
    let ghost picked = spec_pick(ts@, idx@);
    let mut i: usize = 0;
    while i < idx.len()
        invariant
            i <= idx@.len(),
            spec_idx_in_range(ts@, idx@),
            picked == spec_pick(ts@, idx@),
            spec_first_ready_from(picked, 0) == spec_first_ready_from(picked, i as nat),
        decreases idx@.len() - i,
    {
        if is_ready(ts, idx, i) {
            return Some(i);
        }
        i = i + 1;
    }
    None
}

/// Orders the reachable types for emission, as a permutation of positions
/// into the given list: every type that another type holds by value comes
/// out earlier than its holder whenever the input's value-containment
/// graph is acyclic, types with no pending need keep their input order,
/// and nothing is lost or duplicated.
pub fn sort_types_by_dependencies(ts: &Vec<CType>) -> (r: Vec<usize>)
    ensures
        spec_idx_in_range(ts@, r@),
        spec_pick(ts@, r@) == spec_sort(ts@),
{
    let n = ts.len();
    let mut rest: Vec<usize> = Vec::new();
    let mut i: usize = 0;
    while i < n
        invariant
            i <= n,
            n == ts@.len(),
            rest@.len() == i,
            forall|k: int| 0 <= k < i ==> rest@[k] == k,
        decreases n - i,
    {
        rest.push(i);
        i = i + 1;
    }
    assert(spec_pick(ts@, rest@) =~= ts@);
    let mut out: Vec<usize> = Vec::new();
    loop
        invariant
            spec_idx_in_range(ts@, rest@),
            spec_idx_in_range(ts@, out@),
            spec_sort(ts@) == spec_pick(ts@, out@) + spec_sort(spec_pick(ts@, rest@)),
        ensures
            spec_idx_in_range(ts@, rest@),
            spec_idx_in_range(ts@, out@),
            spec_sort(ts@) == spec_pick(ts@, out@) + spec_sort(spec_pick(ts@, rest@)),
            spec_sort(spec_pick(ts@, rest@)) == spec_pick(ts@, rest@),
        decreases rest@.len(),
    {
        if rest.len() == 0 {
            assert(spec_sort(spec_pick(ts@, rest@)) =~= spec_pick(ts@, rest@));
            break ;
        }
        match find_first_ready(ts, &rest) {
            Some(i) => {
                let ghost picked = spec_pick(ts@, rest@);
                proof {
                    assert(picked.len() == rest@.len() > 0);
                    assert(spec_sort(picked) == seq![picked[i as int]] + spec_sort(
                        picked.remove(i as int),
                    ));
                }
                let ghost prev_rest = rest@;
                let ghost prev_out = out@;
                let v = rest.remove(i);
                out.push(v);
                proof {
                    assert(spec_pick(ts@, rest@) =~= picked.remove(i as int));
                    assert(spec_pick(ts@, out@) =~= spec_pick(ts@, prev_out) + seq![picked[i as int]]);
                    assert(spec_pick(ts@, out@) + spec_sort(spec_pick(ts@, rest@)) =~= spec_pick(
                        ts@,
                        prev_out,
                    ) + (seq![picked[i as int]] + spec_sort(picked.remove(i as int))));
                }
            },
            None => {
                assert(spec_sort(spec_pick(ts@, rest@)) == spec_pick(ts@, rest@));
                break ;
            },
        }
    }
    let ghost rest_snap = rest@;
    let ghost out_snap = out@;
    while rest.len() > 0
        invariant
            spec_idx_in_range(ts@, rest@),
            spec_idx_in_range(ts@, out@),
            spec_pick(ts@, out@) + spec_pick(ts@, rest@) == spec_pick(ts@, out_snap) + spec_pick(
                ts@,
                rest_snap,
            ),
            spec_sort(ts@) == spec_pick(ts@, out_snap) + spec_sort(spec_pick(ts@, rest_snap)),
            spec_sort(spec_pick(ts@, rest_snap)) == spec_pick(ts@, rest_snap),
        decreases rest@.len(),
    {
        let ghost prev_rest = rest@;
        let ghost prev_out = out@;
        let v = rest.remove(0);
        out.push(v);
        proof {
            assert(spec_pick(ts@, out@) + spec_pick(ts@, rest@) =~= spec_pick(ts@, prev_out)
                + spec_pick(ts@, prev_rest));
        }
    }
    proof {
        assert(spec_pick(ts@, out@) =~= spec_pick(ts@, out@) + spec_pick(ts@, rest@));
        assert(spec_pick(ts@, out@) == spec_sort(ts@));
    }
    out
}

} // verus!
