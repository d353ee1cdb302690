//! Description normalisation: a raw vendor description is lower-cased and
//! mapped to the label of the first table prefix it starts with.
use vstd::prelude::*;
use crate::text::{is_prefix, lower_of, lowercase, starts_with};

verus! {

/// Label chosen for `s` by the entries of `t` from index `i` on: the label of
/// the first entry whose prefix starts `s`, or `s` itself when none does.
pub open spec fn canonical_from(t: Seq<(Seq<char>, Seq<char>)>, s: Seq<char>, i: int) -> Seq<char>
    decreases t.len() - i,
{
    if i < 0 || i >= t.len() {
        s
    } else if is_prefix(t[i].0, s) {
        t[i].1
    } else {
        canonical_from(t, s, i + 1)
    }
}

/// Canonical form of an already lower-cased description under table `t`.
pub open spec fn canonical_of(t: Seq<(Seq<char>, Seq<char>)>, s: Seq<char>) -> Seq<char> {
    canonical_from(t, s, 0)
}

/// Every label of `t` is its own canonical form.
pub open spec fn lookup_stable(t: Seq<(Seq<char>, Seq<char>)>) -> bool {
    forall|k: int| 0 <= k < t.len() ==> canonical_of(t, #[trigger] t[k].1) == t[k].1
}

/// Every label of `t` is its own lower-cased form and its own canonical form.
pub open spec fn table_stable(t: Seq<(Seq<char>, Seq<char>)>) -> bool {
    &&& lookup_stable(t)
    &&& forall|k: int| 0 <= k < t.len() ==> lower_of(#[trigger] t[k].1) == t[k].1
}

/// An ordered table of (prefix, label) entries; earlier entries win.
pub struct DescriptionTable {
    prefixes: Vec<String>,
    labels: Vec<String>,
}

impl View for DescriptionTable {
    type V = Seq<(Seq<char>, Seq<char>)>;

    closed spec fn view(&self) -> Seq<(Seq<char>, Seq<char>)> {
        Seq::new(self.prefixes@.len(), |i: int| (self.prefixes@[i]@, self.labels@[i]@))
    }
}

impl DescriptionTable {
    pub closed spec fn wf(&self) -> bool {
        self.prefixes@.len() == self.labels@.len()
    }

    /// A table with no entries.
    pub fn new() -> (r: Self)
        ensures
            r.wf(),
            r@ == Seq::<(Seq<char>, Seq<char>)>::empty(),
    {
        let r = DescriptionTable { prefixes: Vec::new(), labels: Vec::new() };
        assert(r@ =~= Seq::<(Seq<char>, Seq<char>)>::empty());
        r
    }

    /// Appends an entry after all existing ones.
    pub fn push(&mut self, prefix: &str, label: &str)
        requires
            old(self).wf(),
        ensures
            final(self).wf(),
            final(self)@ == old(self)@.push((prefix@, label@)),
    {
        self.prefixes.push(prefix.to_string());
        self.labels.push(label.to_string());
        assert(self@ =~= old(self)@.push((prefix@, label@)));
    }

    /// Number of entries.
    pub fn len(&self) -> (r: usize)
        requires
            self.wf(),
        ensures
            r == self@.len(),
    {
        self.prefixes.len()
    }

    /// Label for a description that is already lower-cased: the label of the
    /// first entry whose prefix starts it, else the description itself.
    pub fn standardize(&self, lowered: &str) -> (r: String)
        requires
            self.wf(),
        ensures
            r@ == canonical_of(self@, lowered@),
    {
        let n = self.prefixes.len();
        let mut i: usize = 0;
        while i < n
            invariant
                self.wf(),
                n == self@.len(),
                0 <= i <= n,
                canonical_of(self@, lowered@) == canonical_from(self@, lowered@, i as int),
            decreases n - i,
        {
            if starts_with(lowered, self.prefixes[i].as_str()) {
                return self.labels[i].clone();
            }
            i = i + 1;
        }
        lowered.to_string()
    }

    /// Canonical label of a raw description: lower-cased, then looked up.
    pub fn normalize(&self, description: &str) -> (r: String)
        requires
            self.wf(),
        ensures
            r@ == canonical_of(self@, lower_of(description@)),
    {
        let lowered = lowercase(description);
        self.standardize(lowered.as_str())
    }

    /// Whether every label is unchanged by lower-casing and by lookup.
    pub fn is_stable(&self) -> (r: bool)
        requires
            self.wf(),
        ensures
            r == table_stable(self@),
    {
        let n = self.labels.len();
        let mut i: usize = 0;
        while i < n
            invariant
                self.wf(),
                n == self@.len(),
                0 <= i <= n,
                forall|k: int|
                    0 <= k < i ==> lower_of(#[trigger] self@[k].1) == self@[k].1 && canonical_of(
                        self@,
                        self@[k].1,
                    ) == self@[k].1,
            decreases n - i,
        {
            let label = &self.labels[i];
            let lowered = lowercase(label.as_str());
            let found = self.standardize(label.as_str());
            if !(lowered == *label) || !(found == *label) {
                assert(self@[i as int].1 == label@);
                return false;
            }
            i = i + 1;
        }
        true
    }
}

} // verus!

verus! {

/// The lookup from index `i` on yields either the description itself or the
/// label of an entry at or after `i`.
proof fn lemma_canonical_from_cases(t: Seq<(Seq<char>, Seq<char>)>, s: Seq<char>, i: int)
    requires
        0 <= i,
    ensures
        canonical_from(t, s, i) == s || exists|k: int|
            i <= k < t.len() && canonical_from(t, s, i) == #[trigger] t[k].1,
    decreases t.len() - i,
{
    if i < t.len() && !is_prefix(t[i].0, s) {
        lemma_canonical_from_cases(t, s, i + 1);
    }
}

/// When no entry from `i` on before `k` matches and entry `k` does, the lookup
/// from `i` yields the label of entry `k`.
proof fn lemma_canonical_from_hit(t: Seq<(Seq<char>, Seq<char>)>, s: Seq<char>, i: int, k: int)
    requires
        0 <= i <= k < t.len(),
        is_prefix(t[k].0, s),
        forall|j: int| i <= j < k ==> !is_prefix(#[trigger] t[j].0, s),
    ensures
        canonical_from(t, s, i) == t[k].1,
    decreases k - i,
{
    if i < k {
        lemma_canonical_from_hit(t, s, i + 1, k);
    }
}

/// When no entry from `i` on matches, the lookup from `i` yields the description.
proof fn lemma_canonical_from_miss(t: Seq<(Seq<char>, Seq<char>)>, s: Seq<char>, i: int)
    requires
        0 <= i,
        forall|j: int| i <= j < t.len() ==> !is_prefix(#[trigger] t[j].0, s),
    ensures
        canonical_from(t, s, i) == s,
    decreases t.len() - i,
{
    if i < t.len() {
        lemma_canonical_from_miss(t, s, i + 1);
    }
}

/// A description that starts with exactly one prefix of the table, once
/// lower-cased, is mapped to that prefix's label, whatever follows the prefix.
pub proof fn lemma_single_prefix_gives_label(t: Seq<(Seq<char>, Seq<char>)>, description: Seq<char>, k: int)
    requires
        0 <= k < t.len(),
        is_prefix(t[k].0, lower_of(description)),
        forall|j: int| 0 <= j < t.len() && j != k ==> !is_prefix(#[trigger] t[j].0, lower_of(description)),
    ensures
        canonical_of(t, lower_of(description)) == t[k].1,
{
    lemma_canonical_from_hit(t, lower_of(description), 0, k);
}

/// A description whose lower-cased form starts with no prefix of the table is
/// mapped to that lower-cased form.
pub proof fn lemma_no_prefix_gives_lowered(t: Seq<(Seq<char>, Seq<char>)>, description: Seq<char>)
    requires
        forall|j: int| 0 <= j < t.len() ==> !is_prefix(#[trigger] t[j].0, lower_of(description)),
    ensures
        canonical_of(t, lower_of(description)) == lower_of(description),
{
    lemma_canonical_from_miss(t, lower_of(description), 0);
}

/// When every label is its own canonical form, looking up an already
/// lower-cased description twice gives what looking it up once gives.
pub proof fn lemma_standardize_idempotent(t: Seq<(Seq<char>, Seq<char>)>, lowered: Seq<char>)
    requires
        lookup_stable(t),
    ensures
        canonical_of(t, canonical_of(t, lowered)) == canonical_of(t, lowered),
{
    lemma_canonical_from_cases(t, lowered, 0);
    if canonical_of(t, lowered) != lowered {
        let k = choose|k: int| 0 <= k < t.len() && canonical_of(t, lowered) == #[trigger] t[k].1;
        assert(canonical_of(t, t[k].1) == t[k].1);
    }
}

/// When every label is its own canonical form, normalising a normalised
/// description changes nothing, for every description whose normalised form
/// is unchanged by lower-casing (as every label of a stable table is).
pub proof fn lemma_normalize_idempotent(t: Seq<(Seq<char>, Seq<char>)>, description: Seq<char>)
    requires
        lookup_stable(t),
        lower_of(canonical_of(t, lower_of(description))) == canonical_of(t, lower_of(description)),
    ensures
        canonical_of(t, lower_of(canonical_of(t, lower_of(description)))) == canonical_of(
            t,
            lower_of(description),
        ),
{
    lemma_standardize_idempotent(t, lower_of(description));
}

} // verus!
