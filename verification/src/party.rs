use vstd::prelude::*;

verus! {

/// An authenticated party identifier. Externally these are ledger-native
/// addresses; the engine treats them as opaque fixed-width tokens and only
/// ever compares them for equality.
#[derive(Clone, Copy, PartialEq, Eq, Structural, Debug)]
pub struct PartyId(pub u64);

/// Holds when a sequence of party identifiers contains no identifier twice.
pub open spec fn no_duplicates(s: Seq<PartyId>) -> bool {
    forall|i: int, j: int| 0 <= i < j < s.len() ==> s[i] != s[j]
}

/// Holds when `after` is `before` with one occurrence of `id` taken out and
/// the order of the remaining identifiers kept.
pub open spec fn removed_one(before: Seq<PartyId>, after: Seq<PartyId>, id: PartyId) -> bool {
    exists|i: int| 0 <= i < before.len() && before[i] == id && after == before.remove(i)
}

/// Whether `v` contains `id`, stated over the sequence view.
pub fn contains_party(v: &Vec<PartyId>, id: PartyId) -> (found: bool)
    ensures
        found == v@.contains(id),
{
    let mut i: usize = 0;
    while i < v.len()
        invariant
            0 <= i <= v@.len(),
            forall|k: int| 0 <= k < i ==> v@[k] != id,
        decreases v@.len() - i,
    {
        if v[i] == id {
            assert(v@.contains(id));
            return true;
        }
        i += 1;
    }
    false
}

/// Whether some identifier occurs twice in `v`.
pub fn has_duplicate(v: &Vec<PartyId>) -> (dup: bool)
    ensures
        dup == !no_duplicates(v@),
{
    let mut i: usize = 1;
    while i < v.len()
        invariant
            1 <= i,
            forall|p: int, q: int| 0 <= p < q < i ==> v@[p] != v@[q],
        decreases v@.len() - i,
    {
        let mut j: usize = 0;
        while j < i
            invariant
                0 <= j <= i < v@.len(),
                forall|k: int| 0 <= k < j ==> v@[k] != v@[i as int],
                forall|p: int, q: int| 0 <= p < q < i ==> v@[p] != v@[q],
            decreases i - j,
        {
            if v[j] == v[i] {
                return true;
            }
            j += 1;
        }
        i += 1;
    }
    false
}

/// Appends `id`, which must not already be present, keeping the sequence
/// duplicate-free.
pub fn push_party(v: &mut Vec<PartyId>, id: PartyId)
    requires
        no_duplicates(old(v)@),
        !old(v)@.contains(id),
    ensures
        final(v)@ == old(v)@.push(id),
        no_duplicates(final(v)@),
{
    v.push(id);
    proof {
        let s = old(v)@;
        assert forall|a: int, b: int| 0 <= a < b < v@.len() implies v@[a] != v@[b] by {
            if b < s.len() {
                assert(s[a] != s[b]);
            } else {
                if s[a] == id {
                    assert(s.contains(id));
                }
            }
        }
    }
}

/// Removes the occurrence of `id` from `v`, if there is one; the order of the
/// other identifiers is kept.
pub fn remove_party(v: &mut Vec<PartyId>, id: PartyId)
    requires
        no_duplicates(old(v)@),
    ensures
        no_duplicates(final(v)@),
        !final(v)@.contains(id),
        forall|p: PartyId| p != id ==> final(v)@.contains(p) == old(v)@.contains(p),
        old(v)@.contains(id) ==> final(v)@.len() == old(v)@.len() - 1 && removed_one(
            old(v)@,
            final(v)@,
            id,
        ),
        !old(v)@.contains(id) ==> final(v)@ == old(v)@,
{
    let mut i: usize = 0;
    while i < v.len()
        invariant
            no_duplicates(old(v)@),
            v@ == old(v)@,
            0 <= i <= v@.len(),
            forall|k: int| 0 <= k < i ==> v@[k] != id,
        decreases v@.len() - i,
    {
        if v[i] == id {
            let ghost s = v@;
            let ghost n = s.len() as int;
            v.remove(i);
            proof {
                let t = v@;
                s.remove_ensures(i as int);
                assert(s.contains(id));
                assert forall|k: int| 0 <= k < n && k != i implies s[k] != id by {
                    if k > i {
                        assert(s[i as int] != s[k]);
                    }
                }
                assert forall|j: int| 0 <= j < t.len() implies t[j] != id by {
                    if j < i {
                        assert(t[j] == s[j]);
                    } else {
                        assert(t[j] == s[j + 1]);
                    }
                }
                assert(!t.contains(id));
                assert forall|p: PartyId| p != id implies t.contains(p) == s.contains(p) by {
                    if t.contains(p) {
                        let j = choose|j: int| 0 <= j < t.len() && t[j] == p;
                        if j < i {
                            assert(s[j] == p);
                        } else {
                            assert(s[j + 1] == p);
                        }
                        assert(s.contains(p));
                    }
                    if s.contains(p) {
                        let k = choose|k: int| 0 <= k < s.len() && s[k] == p;
                        if k < i {
                            assert(t[k] == p);
                        } else {
                            assert(t[k - 1] == p);
                        }
                        assert(t.contains(p));
                    }
                }
                assert forall|a: int, b: int| 0 <= a < b < t.len() implies t[a] != t[b] by {
                    let a2 = if a < i { a } else { a + 1 };
                    let b2 = if b < i { b } else { b + 1 };
                    assert(t[a] == s[a2]);
                    assert(t[b] == s[b2]);
                    assert(s[a2] != s[b2]);
                }
                assert(0 <= i < s.len() && s[i as int] == id && t == s.remove(i as int));
                assert(removed_one(s, t, id));
            }
            return;
        }
        i += 1;
    }
}

/// A fresh vector with the same identifiers in the same order.
pub fn copy_parties(v: &Vec<PartyId>) -> (out: Vec<PartyId>)
    ensures
        out@ == v@,
{
    let mut out: Vec<PartyId> = Vec::new();
    let mut i: usize = 0;
    while i < v.len()
        invariant
            0 <= i <= v@.len(),
            out@ == v@.subrange(0, i as int),
        decreases v@.len() - i,
    {
        out.push(v[i]);
        proof {
            assert(out@ =~= v@.subrange(0, i + 1));
        }
        i += 1;
    }
    proof {
        assert(out@ =~= v@);
    }
    out
}

} // verus!
