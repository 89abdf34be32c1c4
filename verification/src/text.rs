//! String utilities: character-wise equality and lexicographic order with
//! executable comparisons, and sorted, deduplicated name lists.

use vstd::prelude::*;

verus! {

/// Character-by-character string equality, so that contracts can speak of
/// the views of the strings rather than of an opaque comparison.
pub fn str_eq(a: &str, b: &str) -> (r: bool)
    ensures
        r == (a@ == b@),
{
    let n = a.unicode_len();
    if n != b.unicode_len() {
        return false;
    }
    let mut i: usize = 0;
    while i < n
        invariant
            n == a@.len(),
            n == b@.len(),
            i <= n,
            forall|j: int| 0 <= j < i ==> a@[j] == b@[j],
        decreases n - i,
    {
        if a.get_char(i) != b.get_char(i) {
            return false;
        }
        i = i + 1;
    }
    proof {
        assert(a@ =~= b@);
    }
    true
}

/// Strict lexicographic order on character sequences, by code point.
pub open spec fn lex_lt(a: Seq<char>, b: Seq<char>) -> bool
    decreases a.len(),
{
    if b.len() == 0 {
        false
    } else if a.len() == 0 {
        true
    } else if (a[0] as int) < (b[0] as int) {
        true
    } else if (a[0] as int) > (b[0] as int) {
        false
    } else {
        lex_lt(a.drop_first(), b.drop_first())
    }
}

/// The order is total: two distinct sequences compare one way or the other.
pub proof fn lemma_lex_lt_total(a: Seq<char>, b: Seq<char>)
    ensures
        a == b || lex_lt(a, b) || lex_lt(b, a),
    decreases a.len(),
{
    if a.len() == 0 && b.len() == 0 {
        assert(a =~= b);
    } else if a.len() == 0 {
        assert(lex_lt(a, b));
    } else if b.len() == 0 {
        assert(lex_lt(b, a));
    } else {
        if (a[0] as int) < (b[0] as int) {
            assert(lex_lt(a, b));
        } else if (a[0] as int) > (b[0] as int) {
            assert(lex_lt(b, a));
        } else {
            lemma_lex_lt_total(a.drop_first(), b.drop_first());
            if a.drop_first() == b.drop_first() {
                assert(a.len() == b.len());
                assert forall|i: int| 0 <= i < a.len() implies a[i] == b[i] by {
                    if i > 0 {
                        assert(a[i] == a.drop_first()[i - 1]);
                        assert(b[i] == b.drop_first()[i - 1]);
                    }
                }
                assert(a =~= b);
            } else if lex_lt(a.drop_first(), b.drop_first()) {
                assert(lex_lt(a, b));
            } else {
                assert(lex_lt(b, a));
            }
        }
    }
}

/// The order is transitive.
pub proof fn lemma_lex_lt_transitive(a: Seq<char>, b: Seq<char>, c: Seq<char>)
    requires
        lex_lt(a, b),
        lex_lt(b, c),
    ensures
        lex_lt(a, c),
    decreases a.len(),
{
    assert(b.len() > 0);
    assert(c.len() > 0);
    if a.len() > 0 {
        let a0 = a[0] as int;
        let b0 = b[0] as int;
        let c0 = c[0] as int;
        if a0 < b0 {
            assert(b0 < c0 || b0 == c0);
            assert(lex_lt(a, c));
        } else {
            assert(a0 == b0);
            assert(lex_lt(a.drop_first(), b.drop_first()));
            if b0 < c0 {
                assert(a0 < c0);
                assert(lex_lt(a, c));
            } else {
                assert(b0 == c0);
                assert(lex_lt(b.drop_first(), c.drop_first()));
                lemma_lex_lt_transitive(a.drop_first(), b.drop_first(), c.drop_first());
                assert(lex_lt(a, c));
            }
        }
    }
}

/// Executable comparison deciding `lex_lt` on the views.
pub fn str_lt(a: &str, b: &str) -> (r: bool)
    ensures
        r == lex_lt(a@, b@),
{
    let n = a.unicode_len();
    let m = b.unicode_len();
    let mut i: usize = 0;
    proof {
        assert(a@.skip(0) =~= a@);
        assert(b@.skip(0) =~= b@);
    }
    while i < n && i < m
        invariant
            n == a@.len(),
            m == b@.len(),
            i <= n,
            i <= m,
            lex_lt(a@, b@) == lex_lt(a@.skip(i as int), b@.skip(i as int)),
        decreases n - i,
    {
        let ca = a.get_char(i);
        let cb = b.get_char(i);
        proof {
            assert(a@.skip(i as int)[0] == a@[i as int]);
            assert(b@.skip(i as int)[0] == b@[i as int]);
            assert(a@.skip(i as int).drop_first() =~= a@.skip(i as int + 1));
            assert(b@.skip(i as int).drop_first() =~= b@.skip(i as int + 1));
        }
        proof {
            assert(ca as int == ca as u32 as int);
            assert(cb as int == cb as u32 as int);
        }
        if (ca as u32) < (cb as u32) {
            return true;
        }
        if (ca as u32) > (cb as u32) {
            return false;
        }
        i = i + 1;
    }
    proof {
        if i >= n {
            assert(a@.skip(i as int).len() == 0);
        } else {
            assert(b@.skip(i as int).len() == 0);
        }
    }
    n < m
}

/// The views of a list of strings.
pub open spec fn views(s: Seq<String>) -> Seq<Seq<char>> {
    s.map_values(|x: String| x@)
}

/// Strictly increasing in lexicographic order: sorted with no duplicates.
pub open spec fn strictly_sorted(vs: Seq<Seq<char>>) -> bool {
    forall|i: int, j: int| 0 <= i < j < vs.len() ==> lex_lt(vs[i], vs[j])
}

/// Sorts a list of names lexicographically and drops duplicates: the result
/// is strictly sorted and holds exactly the names of the input.
pub fn sorted_dedup(v: Vec<String>) -> (r: Vec<String>)
    ensures
        strictly_sorted(views(r@)),
        views(r@).to_set() == views(v@).to_set(),
{
    let mut out: Vec<String> = Vec::new();
    let mut k: usize = 0;
    while k < v.len()
        invariant
            k <= v@.len(),
            strictly_sorted(views(out@)),
            views(out@).to_set() == views(v@.take(k as int)).to_set(),
        decreases v@.len() - k,
    {
        let ghost prev = out@;
        insert_name(&mut out, &v[k]);
        proof {
            assert(views(v@.take(k as int + 1)).drop_last() =~= views(v@.take(k as int)));
            assert(views(v@.take(k as int + 1)).last() == v@[k as int]@);
            lemma_to_set_push(views(v@.take(k as int + 1)).drop_last(), v@[k as int]@);
            assert(views(v@.take(k as int + 1)).drop_last().push(v@[k as int]@) =~= views(
                v@.take(k as int + 1),
            ));
        }
        k = k + 1;
    }
    proof {
        assert(v@.take(v@.len() as int) =~= v@);
    }
    out
}

proof fn lemma_to_set_push(s: Seq<Seq<char>>, x: Seq<char>)
    ensures
        s.push(x).to_set() == s.to_set().insert(x),
{
    assert forall|e: Seq<char>| s.push(x).to_set().contains(e) implies s.to_set().insert(
        x,
    ).contains(e) by {
        let i = choose|i: int| 0 <= i < s.push(x).len() && s.push(x)[i] == e;
        if i < s.len() {
            assert(s.to_set().contains(e));
        }
    }
    assert forall|e: Seq<char>| s.to_set().insert(x).contains(e) implies s.push(
        x,
    ).to_set().contains(e) by {
        if e == x {
            assert(s.push(x)[s.len() as int] == e);
        } else {
            let i = choose|i: int| 0 <= i < s.len() && s[i] == e;
            assert(s.push(x)[i] == e);
        }
    }
    assert(s.push(x).to_set() =~= s.to_set().insert(x));
}

/// Inserts a name into a strictly sorted list, keeping it strictly sorted;
/// a name already present is not inserted again.
fn insert_name(out: &mut Vec<String>, name: &String)
    requires
        strictly_sorted(views(old(out)@)),
    ensures
        strictly_sorted(views(final(out)@)),
        views(final(out)@).to_set() == views(old(out)@).to_set().insert(name@),
{
    let mut idx: usize = 0;
    while idx < out.len() && str_lt(out[idx].as_str(), name.as_str())
        invariant
            idx <= out@.len(),
            *out == *old(out),
            forall|j: int| 0 <= j < idx ==> lex_lt(views(out@)[j], name@),
        decreases out@.len() - idx,
    {
        idx = idx + 1;
    }
    if idx < out.len() && str_eq(out[idx].as_str(), name.as_str()) {
        proof {
            assert(views(out@)[idx as int] == name@);
            assert(views(out@).to_set().contains(name@));
            assert(views(out@).to_set() =~= views(out@).to_set().insert(name@));
        }
        return ;
    }
    proof {
        if idx < out@.len() {
            lemma_lex_lt_total(views(out@)[idx as int], name@);
        }
        assert forall|j: int| idx <= j < out@.len() implies lex_lt(name@, views(out@)[j]) by {
            if j > idx {
                lemma_lex_lt_transitive(name@, views(out@)[idx as int], views(out@)[j]);
            }
        }
    }
    let ghost prev = out@;
    out.insert(idx, name.clone());
    proof {
        let vs = views(out@);
        assert forall|i: int, j: int| 0 <= i < j < vs.len() implies lex_lt(vs[i], vs[j]) by {
            let pi = if i < idx {
                i
            } else {
                i - 1
            };
            let pj = if j < idx {
                j
            } else {
                j - 1
            };
            if i == idx {
                assert(vs[j] == views(prev)[pj]);
            } else if j == idx {
                assert(vs[i] == views(prev)[pi]);
            } else {
                assert(vs[i] == views(prev)[pi]);
                assert(vs[j] == views(prev)[pj]);
            }
        }
        assert forall|e: Seq<char>| views(out@).to_set().contains(e) implies views(
            prev,
        ).to_set().insert(name@).contains(e) by {
            let i = choose|i: int| 0 <= i < out@.len() && views(out@)[i] == e;
            if i != idx {
                let pi = if i < idx {
                    i
                } else {
                    i - 1
                };
                assert(views(prev)[pi] == e);
            }
        }
        assert forall|e: Seq<char>| views(prev).to_set().insert(name@).contains(e) implies views(
            out@,
        ).to_set().contains(e) by {
            if e == name@ {
                assert(views(out@)[idx as int] == e);
            } else {
                let i = choose|i: int| 0 <= i < prev.len() && views(prev)[i] == e;
                let ni = if i < idx {
                    i
                } else {
                    i + 1
                };
                assert(views(out@)[ni] == e);
            }
        }
        assert(views(out@).to_set() =~= views(prev).to_set().insert(name@));
    }
}

} // verus!


