//! The member list of a unit: sorted without duplicates, with the owner included.

use vstd::prelude::*;

use crate::models::strs;

verus! {

/// The order of `String`'s `Ord`: lexicographic on UTF-8 bytes, which is lexicographic on
/// code points.
pub open spec fn text_lt(a: Seq<char>, b: Seq<char>) -> bool
    decreases a.len(),
{
    if a.len() == 0 {
        b.len() > 0
    } else if b.len() == 0 {
        false
    } else if a[0] < b[0] {
        true
    } else if a[0] == b[0] {
        text_lt(a.drop_first(), b.drop_first())
    } else {
        false
    }
}

/// No text is before itself.
pub proof fn lemma_text_lt_irreflexive(a: Seq<char>)
    ensures
        !text_lt(a, a),
    decreases a.len(),
{
    if a.len() > 0 {
        lemma_text_lt_irreflexive(a.drop_first());
    }
}

/// Two different texts are ordered one way and not the other.
pub proof fn lemma_text_lt_total(a: Seq<char>, b: Seq<char>)
    ensures
        a != b ==> (text_lt(a, b) || text_lt(b, a)),
        !(text_lt(a, b) && text_lt(b, a)),
    decreases a.len(),
{
    if a.len() > 0 && b.len() > 0 {
        lemma_text_lt_total(a.drop_first(), b.drop_first());
        if a[0] == b[0] && a != b {
            assert(a.drop_first() != b.drop_first()) by {
                if a.drop_first() == b.drop_first() {
                    assert(a =~= seq![a[0]] + a.drop_first());
                    assert(b =~= seq![b[0]] + b.drop_first());
                }
            }
        }
    } else if a.len() == 0 && b.len() == 0 {
        assert(a =~= b);
    }
}

/// The order is transitive.
pub proof fn lemma_text_lt_transitive(a: Seq<char>, b: Seq<char>, c: Seq<char>)
    requires
        text_lt(a, b),
        text_lt(b, c),
    ensures
        text_lt(a, c),
    decreases a.len(),
{
    if a.len() > 0 && b.len() > 0 && c.len() > 0 && a[0] == b[0] && b[0] == c[0] {
        lemma_text_lt_transitive(a.drop_first(), b.drop_first(), c.drop_first());
    }
}

/// Each text is before every later one: sorted, without duplicates.
pub open spec fn strictly_sorted(s: Seq<Seq<char>>) -> bool {
    forall|i: int, j: int| 0 <= i < j < s.len() ==> text_lt(#[trigger] s[i], #[trigger] s[j])
}

/// Whether `a` comes before `b` in the order of `String`.
pub fn text_less(a: &str, b: &str) -> (r: bool)
    ensures
        r == text_lt(a@, b@),
{
    let na = a.unicode_len();
    let nb = b.unicode_len();
    let mut i: usize = 0;
    proof {
        assert(a@.skip(0) =~= a@);
        assert(b@.skip(0) =~= b@);
    }
    while i < na && i < nb
        invariant
            na == a@.len(),
            nb == b@.len(),
            i <= na,
            i <= nb,
            text_lt(a@, b@) == text_lt(a@.skip(i as int), b@.skip(i as int)),
        decreases na - i,
    {
        let ca = a.get_char(i);
        let cb = b.get_char(i);
        proof {
            assert(a@.skip(i as int)[0] == ca);
            assert(b@.skip(i as int)[0] == cb);
            assert(a@.skip(i as int).drop_first() =~= a@.skip(i + 1));
            assert(b@.skip(i as int).drop_first() =~= b@.skip(i + 1));
        }
        if ca < cb {
            return true;
        }
        if ca != cb {
            return false;
        }
        i += 1;
    }
    proof {
        assert(a@.skip(i as int).len() == na - i);
        assert(b@.skip(i as int).len() == nb - i);
    }
    i == na && i < nb
}

/// Whether two texts are equal.
fn text_eq(a: &String, b: &String) -> (r: bool)
    ensures
        r == (a@ == b@),
{
    *a == *b
}

/// Sorts a list of texts in the order of `String` and removes the duplicates, as
/// `sort` followed by `dedup` does: the result is strictly sorted and holds the same texts.
pub fn sort_dedup(v: &Vec<String>) -> (r: Vec<String>)
    ensures
        strictly_sorted(strs(r@)),
        strs(r@).to_set() == strs(v@).to_set(),
{
    let mut r: Vec<String> = Vec::new();
    let mut i: usize = 0;
    proof {
        assert(strs(r@).to_set() =~= strs(v@).take(0).to_set());
    }
    while i < v.len()
        invariant
            i <= v.len(),
            strictly_sorted(strs(r@)),
            strs(r@).to_set() == strs(v@).take(i as int).to_set(),
        decreases v.len() - i,
    {
        let x = &v[i];
        let ghost xs = x@;
        // The position of the first text that is not before `x`.
        let mut p: usize = 0;
        while p < r.len() && text_less(r[p].as_str(), x.as_str())
            invariant
                p <= r.len(),
                xs == x@,
                forall|k: int| 0 <= k < p ==> text_lt(#[trigger] strs(r@)[k], xs),
            decreases r.len() - p,
        {
            p += 1;
        }
        let ghost old_r = strs(r@);
        proof {
            assert(strs(v@).take(i + 1) =~= strs(v@).take(i as int).push(xs));
            strs(v@).take(i as int).lemma_push_to_set_commute(xs);
        }
        if p < r.len() && text_eq(&r[p], x) {
            proof {
                assert(old_r[p as int] == xs);
                assert(old_r.to_set().contains(xs));
                assert(old_r.to_set().insert(xs) =~= old_r.to_set());
            }
        } else {
            proof {
                if p < r.len() {
                    assert(!text_lt(old_r[p as int], xs));
                    lemma_text_lt_total(old_r[p as int], xs);
                    assert(text_lt(xs, old_r[p as int]));
                }
            }
            r.insert(p, x.clone());
            proof {
                let nr = strs(r@);
                assert(nr =~= old_r.insert(p as int, xs));
                assert forall|a: int, b: int| 0 <= a < b < nr.len() implies text_lt(
                    #[trigger] nr[a],
                    #[trigger] nr[b],
                ) by {
                    if a < p && b == p {
                    } else if a < p && b > p {
                        assert(nr[b] == old_r[b - 1]);
                        if b - 1 > p {
                            assert(text_lt(old_r[p as int], old_r[b - 1]));
                            lemma_text_lt_transitive(xs, old_r[p as int], old_r[b - 1]);
                        }
                        lemma_text_lt_transitive(old_r[a], xs, old_r[b - 1]);
                    } else if a == p {
                        assert(nr[b] == old_r[b - 1]);
                        if b - 1 > p {
                            assert(text_lt(old_r[p as int], old_r[b - 1]));
                            lemma_text_lt_transitive(xs, old_r[p as int], old_r[b - 1]);
                        }
                    } else if a > p {
                        assert(nr[a] == old_r[a - 1]);
                        assert(nr[b] == old_r[b - 1]);
                    }
                }
                assert(nr.to_set() =~= old_r.to_set().insert(xs)) by {
                    assert forall|t: Seq<char>| nr.to_set().contains(t) implies old_r.to_set().insert(
                        xs,
                    ).contains(t) by {
                        let k = choose|k: int| 0 <= k < nr.len() && nr[k] == t;
                        if k < p {
                            assert(old_r[k] == t);
                        } else if k > p {
                            assert(old_r[k - 1] == t);
                        }
                    }
                    assert forall|t: Seq<char>| old_r.to_set().insert(xs).contains(t) implies nr.to_set().contains(
                        t,
                    ) by {
                        if t == xs {
                            assert(nr[p as int] == xs);
                        } else {
                            let k = choose|k: int| 0 <= k < old_r.len() && old_r[k] == t;
                            if k < p {
                                assert(nr[k] == t);
                            } else {
                                assert(nr[k + 1] == t);
                            }
                        }
                    }
                }
            }
        }
        i += 1;
    }
    proof {
        assert(strs(v@).take(v.len() as int) =~= strs(v@));
    }
    r
}

/// The member list after a change: the sorted members, with the owner appended when it is
/// not one of them.
pub open spec fn with_owner(members: Seq<Seq<char>>, owner: Seq<char>) -> Seq<Seq<char>> {
    if members.contains(owner) {
        members
    } else {
        members.push(owner)
    }
}

/// Appends the owner to the members when it is not one of them.
pub fn add_owner(members: &mut Vec<String>, owner: &str)
    ensures
        strs(final(members)@) == with_owner(strs(old(members)@), owner@),
{
    let mut found = false;
    let mut i: usize = 0;
    let target = String::from_str(owner);
    while i < members.len()
        invariant
            i <= members.len(),
            target@ == owner@,
            members@ == old(members)@,
            found <==> exists|k: int| 0 <= k < i && (#[trigger] strs(members@)[k]) == owner@,
        decreases members.len() - i,
    {
        if members[i] == target {
            found = true;
            proof {
                assert(strs(members@)[i as int] == owner@);
            }
        }
        i += 1;
    }
    proof {
        if found {
            let k = choose|k: int| 0 <= k < i && (#[trigger] strs(members@)[k]) == owner@;
            assert(strs(members@).contains(owner@));
        } else {
            assert(!strs(members@).contains(owner@)) by {
                if strs(members@).contains(owner@) {
                    let k = choose|k: int| 0 <= k < strs(members@).len() && strs(members@)[k] == owner@;
                    assert(strs(members@)[k] == owner@);
                }
            }
        }
    }
    if !found {
        let ghost prev = members@;
        members.push(target);
        proof {
            assert(strs(members@) =~= strs(prev).push(owner@));
        }
    }
}

/// A member list after a change holds no text twice, and holds exactly the given members and
/// the owner.
pub proof fn lemma_members_with_owner(given: Seq<Seq<char>>, sorted: Seq<Seq<char>>, owner: Seq<char>)
    requires
        strictly_sorted(sorted),
        sorted.to_set() == given.to_set(),
    ensures
        with_owner(sorted, owner).no_duplicates(),
        with_owner(sorted, owner).to_set() == given.to_set().insert(owner),
        with_owner(sorted, owner).contains(owner),
{
    let r = with_owner(sorted, owner);
    assert forall|i: int, j: int| 0 <= i < sorted.len() && 0 <= j < sorted.len() && i != j implies sorted[i]
        != sorted[j] by {
        if i < j {
            assert(text_lt(sorted[i], sorted[j]));
        } else {
            assert(text_lt(sorted[j], sorted[i]));
        }
        lemma_text_lt_irreflexive(sorted[i]);
    }
    if sorted.contains(owner) {
        assert(sorted.to_set().insert(owner) =~= sorted.to_set());
    } else {
        assert(r[sorted.len() as int] == owner);
        assert(r.to_set() =~= sorted.to_set().insert(owner)) by {
            assert forall|t: Seq<char>| r.to_set().contains(t) implies sorted.to_set().insert(
                owner,
            ).contains(t) by {
                let k = choose|k: int| 0 <= k < r.len() && r[k] == t;
                if k < sorted.len() {
                    assert(sorted[k] == t);
                }
            }
            assert forall|t: Seq<char>| sorted.to_set().insert(owner).contains(t) implies r.to_set().contains(
                t,
            ) by {
                if t != owner {
                    let k = choose|k: int| 0 <= k < sorted.len() && sorted[k] == t;
                    assert(r[k] == t);
                }
            }
        }
        assert forall|i: int, j: int| 0 <= i < r.len() && 0 <= j < r.len() && i != j implies r[i]
            != r[j] by {
            if i < sorted.len() && j < sorted.len() {
                assert(sorted[i] != sorted[j]);
            } else if i < sorted.len() {
                assert(sorted.contains(sorted[i]));
            } else {
                assert(sorted.contains(sorted[j]));
            }
        }
    }
}

} // verus!
