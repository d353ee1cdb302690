//! Which canonical descriptions of a batch still lack stored metadata.
use vstd::prelude::*;

verus! {

/// The character content of each string, in order.
pub open spec fn texts(s: Seq<String>) -> Seq<Seq<char>> {
    s.map_values(|x: String| x@)
}

/// Descriptions of `current` that `stored` does not hold, as a set.
pub open spec fn reconciled(current: Seq<String>, stored: Seq<String>) -> Set<Seq<char>> {
    texts(current).to_set().difference(texts(stored).to_set())
}

proof fn lemma_push_contains(s: Seq<Seq<char>>, a: Seq<char>, x: Seq<char>)
    ensures
        s.push(a).contains(x) <==> (s.contains(x) || x == a),
{
    if s.contains(x) {
        let j = choose|j: int| 0 <= j < s.len() && s[j] == x;
        assert(s.push(a)[j] == x);
    }
    if x == a {
        assert(s.push(a)[s.len() as int] == x);
    }
    if s.push(a).contains(x) {
        let j = choose|j: int| 0 <= j < s.push(a).len() && s.push(a)[j] == x;
        if j < s.len() {
            assert(s[j] == x);
        }
    }
}

fn holds(v: &Vec<String>, x: &String) -> (r: bool)
    ensures
        r == texts(v@).contains(x@),
{
    let mut i: usize = 0;
    while i < v.len()
        invariant
            0 <= i <= v@.len(),
            forall|j: int| 0 <= j < i ==> v@[j]@ != x@,
        decreases v@.len() - i,
    {
        if v[i] == *x {
            assert(texts(v@)[i as int] == x@);
            return true;
        }
        i = i + 1;
    }
    assert forall|j: int| 0 <= j < texts(v@).len() implies texts(v@)[j] != x@ by {
        assert(v@[j]@ != x@);
    }
    false
}

/// The descriptions of the current batch that have no stored metadata, each
/// once, in the order of their first appearance in `current`.
pub fn reconcile(current: &Vec<String>, stored: &Vec<String>) -> (r: Vec<String>)
    ensures
        texts(r@).to_set() == reconciled(current@, stored@),
        texts(r@).no_duplicates(),
{
    let mut out: Vec<String> = Vec::new();
    let mut i: usize = 0;
    while i < current.len()
        invariant
            0 <= i <= current@.len(),
            texts(out@).no_duplicates(),
            forall|x: Seq<char>|
                texts(out@).contains(x) <==> (texts(current@.take(i as int)).contains(x) && !texts(
                    stored@,
                ).contains(x)),
        decreases current@.len() - i,
    {
        let c = &current[i];
        let ghost before = out@;
        if !holds(stored, c) && !holds(&out, c) {
            out.push(c.clone());
            assert(texts(out@) =~= texts(before).push(c@));
        }
        proof {
            let tc = texts(current@.take(i as int));
            assert(texts(current@.take(i + 1)) =~= tc.push(c@));
            assert forall|x: Seq<char>|
                texts(out@).contains(x) <==> (tc.push(c@).contains(x) && !texts(stored@).contains(
                    x,
                )) by {
                lemma_push_contains(tc, c@, x);
                lemma_push_contains(texts(before), c@, x);
            }
        }
        i = i + 1;
    }
    assert(current@.take(i as int) =~= current@);
    assert(texts(out@).to_set() =~= reconciled(current@, stored@));
    out
}

/// Reconciling a batch against itself leaves nothing to collect.
pub proof fn lemma_reconcile_self(s: Seq<String>)
    ensures
        reconciled(s, s) == Set::<Seq<char>>::empty(),
{
    assert(reconciled(s, s) =~= Set::<Seq<char>>::empty());
}

/// Reconciling a batch against empty storage leaves every description of it.
pub proof fn lemma_reconcile_nothing_stored(s: Seq<String>)
    ensures
        reconciled(s, Seq::empty()) == texts(s).to_set(),
{
    assert(texts(Seq::<String>::empty()) =~= Seq::<Seq<char>>::empty());
    assert(reconciled(s, Seq::empty()) =~= texts(s).to_set());
}

} // verus!
