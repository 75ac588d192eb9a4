use vstd::prelude::*;

use crate::text::str_eq;

verus! {

/// The text of each name and value of a sequence of pairs.
pub open spec fn pairs_view(v: Seq<(String, String)>) -> Seq<(Seq<char>, Seq<char>)> {
    v.map_values(|p: (String, String)| (p.0@, p.1@))
}

/// Whether no two pairs of `ps` share a name.
pub open spec fn names_distinct(ps: Seq<(Seq<char>, Seq<char>)>) -> bool {
    forall|i: int, j: int| 0 <= i < j < ps.len() ==> #[trigger] ps[i].0 != #[trigger] ps[j].0
}

/// Whether some pair of `ps` has the name `name`.
pub open spec fn has_name(ps: Seq<(Seq<char>, Seq<char>)>, name: Seq<char>) -> bool {
    exists|i: int| 0 <= i < ps.len() && #[trigger] ps[i].0 == name
}

/// `acc` after setting `p.0` to `p.1`: the pair with that name takes the
/// new value where there is one, else the pair is added at the end.
pub open spec fn insert_param(acc: Seq<(Seq<char>, Seq<char>)>, p: (Seq<char>, Seq<char>)) -> Seq<
    (Seq<char>, Seq<char>),
> {
    if has_name(acc, p.0) {
        acc.update(choose|i: int| 0 <= i < acc.len() && #[trigger] acc[i].0 == p.0, p)
    } else {
        acc.push(p)
    }
}

/// The parameters `ps` with one pair per name: each name where it first
/// occurs, with the value it was given last.
pub open spec fn merged_params(ps: Seq<(Seq<char>, Seq<char>)>) -> Seq<(Seq<char>, Seq<char>)>
    decreases ps.len(),
{
    if ps.len() == 0 {
        Seq::empty()
    } else {
        insert_param(merged_params(ps.drop_last()), ps.last())
    }
}

proof fn lemma_insert_param(acc: Seq<(Seq<char>, Seq<char>)>, p: (Seq<char>, Seq<char>))
    requires
        names_distinct(acc),
    ensures
        names_distinct(insert_param(acc, p)),
        has_name(insert_param(acc, p), p.0),
        forall|n: Seq<char>| #[trigger]
            has_name(insert_param(acc, p), n) <==> (has_name(acc, n) || n == p.0),
{
    let r = insert_param(acc, p);
    if has_name(acc, p.0) {
        let k = choose|i: int| 0 <= i < acc.len() && #[trigger] acc[i].0 == p.0;
        assert(r[k].0 == p.0);
        assert forall|n: Seq<char>| #[trigger] has_name(r, n) implies (has_name(acc, n) || n == p.0) by {
            let i = choose|i: int| 0 <= i < r.len() && #[trigger] r[i].0 == n;
            if i != k {
                assert(acc[i].0 == n);
            }
        }
        assert forall|n: Seq<char>| (has_name(acc, n) || n == p.0) implies #[trigger] has_name(
            r,
            n,
        ) by {
            if has_name(acc, n) {
                let i = choose|i: int| 0 <= i < acc.len() && #[trigger] acc[i].0 == n;
                assert(r[i].0 == n);
            }
        }
    } else {
        assert(r[acc.len() as int].0 == p.0);
        assert forall|n: Seq<char>| #[trigger] has_name(r, n) implies (has_name(acc, n) || n == p.0) by {
            let i = choose|i: int| 0 <= i < r.len() && #[trigger] r[i].0 == n;
            if i < acc.len() {
                assert(acc[i].0 == n);
            }
        }
        assert forall|n: Seq<char>| (has_name(acc, n) || n == p.0) implies #[trigger] has_name(
            r,
            n,
        ) by {
            if has_name(acc, n) {
                let i = choose|i: int| 0 <= i < acc.len() && #[trigger] acc[i].0 == n;
                assert(r[i].0 == n);
            }
        }
    }
}

/// The merged parameters name each name at most once, and name exactly the
/// names of the parameters.
pub proof fn law_merged_params_names(ps: Seq<(Seq<char>, Seq<char>)>)
    ensures
        names_distinct(merged_params(ps)),
        forall|n: Seq<char>| #[trigger] has_name(merged_params(ps), n) <==> has_name(ps, n),
    decreases ps.len(),
{
    if ps.len() > 0 {
        let init = ps.drop_last();
        law_merged_params_names(init);
        lemma_insert_param(merged_params(init), ps.last());
        assert forall|n: Seq<char>| #[trigger] has_name(ps, n) <==> (has_name(init, n) || n
            == ps.last().0) by {
            if has_name(ps, n) {
                let i = choose|i: int| 0 <= i < ps.len() && #[trigger] ps[i].0 == n;
                if i < init.len() {
                    assert(init[i].0 == n);
                }
            }
            if has_name(init, n) {
                let i = choose|i: int| 0 <= i < init.len() && #[trigger] init[i].0 == n;
                assert(ps[i].0 == n);
            }
            if n == ps.last().0 {
                assert(ps[ps.len() - 1].0 == n);
            }
        }
    }
}

/// A parameter added last wins: after it, the merged parameters hold its
/// name exactly once, with its value.
pub proof fn law_last_param_wins(ps: Seq<(Seq<char>, Seq<char>)>, name: Seq<char>, value: Seq<char>)
    ensures
        ({
            let m = merged_params(ps.push((name, value)));
            &&& has_name(m, name)
            &&& forall|i: int| 0 <= i < m.len() && #[trigger] m[i].0 == name ==> m[i].1 == value
        }),
{
    let qs = ps.push((name, value));
    assert(qs.drop_last() =~= ps);
    law_merged_params_names(ps);
    lemma_insert_param(merged_params(ps), (name, value));
    let m = merged_params(qs);
    assert forall|i: int| 0 <= i < m.len() && #[trigger] m[i].0 == name implies m[i].1 == value by {
        let acc = merged_params(ps);
        if has_name(acc, name) {
            let k = choose|j: int| 0 <= j < acc.len() && #[trigger] acc[j].0 == name;
            if i != k {
                assert(m[k].0 == name);
            }
        } else {
            if i != acc.len() {
                assert(acc[i].0 == name);
            }
        }
    }
}

/// The position of the pair named `name` in `acc`, if there is one.
fn find_name(acc: &Vec<(String, String)>, name: &str) -> (r: Option<usize>)
    ensures
        r is None ==> !has_name(pairs_view(acc@), name@),
        r matches Some(k) ==> k < acc@.len() && pairs_view(acc@)[k as int].0 == name@,
{
    let n = acc.len();
    let mut j: usize = 0;
    while j < n
        invariant
            n == acc@.len(),
            j <= n,
            forall|i: int| 0 <= i < j ==> #[trigger] pairs_view(acc@)[i].0 != name@,
        decreases n - j,
    {
        if str_eq(acc[j].0.as_str(), name) {
            return Some(j);
        }
        j = j + 1;
    }
    None
}

/// The parameters with one pair per name, as `merged_params` says.
pub fn merge_params(params: &Vec<(String, String)>) -> (r: Vec<(String, String)>)
    ensures
        pairs_view(r@) == merged_params(pairs_view(params@)),
{
    let ghost ps = pairs_view(params@);
    let mut acc: Vec<(String, String)> = Vec::new();
    let n = params.len();
    let mut i: usize = 0;
    assert(ps.take(0) =~= Seq::<(Seq<char>, Seq<char>)>::empty());
    assert(pairs_view(acc@) =~= merged_params(ps.take(0)));
    while i < n
        invariant
            n == params@.len(),
            ps == pairs_view(params@),
            i <= n,
            pairs_view(acc@) == merged_params(ps.take(i as int)),
        decreases n - i,
    {
        let ghost before = pairs_view(acc@);
        proof {
            law_merged_params_names(ps.take(i as int));
        }
        assert(ps.take(i + 1).drop_last() =~= ps.take(i as int));
        assert(ps.take(i + 1).last() == ps[i as int]);
        let name = params[i].0.clone();
        let value = params[i].1.clone();
        let p = (name, value);
        match find_name(&acc, params[i].0.as_str()) {
            Some(k) => {
                proof {
                    let w = choose|j: int| 0 <= j < before.len() && #[trigger] before[j].0 == ps[i as int].0;
                    assert(before[k as int].0 == ps[i as int].0);
                    if w != k {
                        if w < k {
                            assert(before[w].0 != before[k as int].0);
                        } else {
                            assert(before[k as int].0 != before[w].0);
                        }
                    }
                }
                acc.set(k, p);
                assert(pairs_view(acc@) =~= before.update(k as int, ps[i as int]));
            },
            None => {
                acc.push(p);
                assert(pairs_view(acc@) =~= before.push(ps[i as int]));
            },
        }
        i = i + 1;
    }
    assert(ps.take(n as int) =~= ps);
    acc
}

} // verus!
