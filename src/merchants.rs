//! The built-in merchant table and the proof that each of its labels is
//! its own canonical form.
use vstd::prelude::*;
use crate::normalize::{
    canonical_from, canonical_of, lemma_normalize_idempotent, lemma_standardize_idempotent, lookup_stable,
    DescriptionTable,
};
use crate::text::lower_of;

verus! {

/// The built-in merchant table, in lookup order.
pub open spec fn standard_entries() -> Seq<(Seq<char>, Seq<char>)> {
    seq![
        // Online stores
        ("amazon"@, "amazon"@),
        ("amzn"@, "amazon"@),
        ("prime video"@, "tv"@),
        ("amc"@, "amc"@),
        ("petsmart"@, "petsmart"@),
        // In-person stores
        ("target"@, "target"@),
        ("the home depot"@, "home depot"@),
        ("rei"@, "rei"@),
        ("barnes & noble"@, "barnes & noble"@),
        ("autozone"@, "autozone"@),
        ("crate & barrel"@, "crate & barrel"@),
        ("vca animal hosp"@, "vca veterinarian"@),
        ("laz parking"@, "laz parking"@),
        ("spothero"@, "spothero"@),
        ("walgreens"@, "walgreens"@),
        ("831 bowlero"@, "bowlero"@),
        // Airlines and travel
        ("united"@, "united airlines"@),
        ("delta"@, "delta airlines"@),
        ("hilton"@, "hilton"@),
        ("airbnb"@, "airbnb"@),
        // Restaurants
        ("ihop"@, "ihop"@),
        ("bonefish"@, "bonefish"@),
        ("chick-fil-a"@, "chick-fil-a"@),
        ("chipotle"@, "chipotle"@),
        ("mad greens"@, "mad greens"@),
        ("domino's"@, "dominos"@),
        ("dunkin"@, "dunkin donuts"@),
        ("panda express"@, "panda express"@),
        ("noodles & co"@, "noodles & co"@),
        ("olive garden"@, "olive garden"@),
        ("oracl*waffle house"@, "waffle house"@),
        ("bop & gogi"@, "bop & gogi"@),
        ("paypal *domino's"@, "dominos"@),
        // Fuel
        ("safeway fuel"@, "safeway fuel"@),
        ("king soopers fuel"@, "king soopers fuel"@),
        ("conoco"@, "conoco"@),
        ("phillips 66"@, "phillips 66"@),
        ("stop 4 gas"@, "stop 4 gas"@),
        ("circle k"@, "circle k"@),
        ("shell"@, "shell"@),
        ("7-eleven"@, "7-eleven"@),
        ("qt"@, "quicktrip"@),
        ("chevron"@, "chevron"@),
        ("kum&go"@, "kum&go"@),
        // Groceries
        ("trader joe s"@, "trader joe's"@),
        ("publix"@, "publix"@),
        ("safeway #"@, "safeway"@),
        ("king soopers #"@, "king soopers"@),
    ]
}

impl DescriptionTable {
    /// The built-in merchant table.
    #[verifier::rlimit(100)]
    pub fn standard() -> (r: Self)
        ensures
            r.wf(),
            r@ == standard_entries(),
    {
        let mut t = DescriptionTable::new();
        // Online stores
        t.push("amazon", "amazon");
        t.push("amzn", "amazon");
        t.push("prime video", "tv");
        t.push("amc", "amc");
        t.push("petsmart", "petsmart");
        // In-person stores
        t.push("target", "target");
        t.push("the home depot", "home depot");
        t.push("rei", "rei");
        t.push("barnes & noble", "barnes & noble");
        t.push("autozone", "autozone");
        t.push("crate & barrel", "crate & barrel");
        t.push("vca animal hosp", "vca veterinarian");
        t.push("laz parking", "laz parking");
        t.push("spothero", "spothero");
        t.push("walgreens", "walgreens");
        t.push("831 bowlero", "bowlero");
        // Airlines and travel
        t.push("united", "united airlines");
        t.push("delta", "delta airlines");
        t.push("hilton", "hilton");
        t.push("airbnb", "airbnb");
        // Restaurants
        t.push("ihop", "ihop");
        t.push("bonefish", "bonefish");
        t.push("chick-fil-a", "chick-fil-a");
        t.push("chipotle", "chipotle");
        t.push("mad greens", "mad greens");
        t.push("domino's", "dominos");
        t.push("dunkin", "dunkin donuts");
        t.push("panda express", "panda express");
        t.push("noodles & co", "noodles & co");
        t.push("olive garden", "olive garden");
        t.push("oracl*waffle house", "waffle house");
        t.push("bop & gogi", "bop & gogi");
        t.push("paypal *domino's", "dominos");
        // Fuel
        t.push("safeway fuel", "safeway fuel");
        t.push("king soopers fuel", "king soopers fuel");
        t.push("conoco", "conoco");
        t.push("phillips 66", "phillips 66");
        t.push("stop 4 gas", "stop 4 gas");
        t.push("circle k", "circle k");
        t.push("shell", "shell");
        t.push("7-eleven", "7-eleven");
        t.push("qt", "quicktrip");
        t.push("chevron", "chevron");
        t.push("kum&go", "kum&go");
        // Groceries
        t.push("trader joe s", "trader joe's");
        t.push("publix", "publix");
        t.push("safeway #", "safeway");
        t.push("king soopers #", "king soopers");
        t
    }
}

/// Canonical label of a raw description under the built-in merchant table.
pub fn standardize_description(description: &str) -> (r: String)
    ensures
        r@ == canonical_of(standard_entries(), lower_of(description@)),
{
    DescriptionTable::standard().normalize(description)
}

/// An entry whose prefix differs from `v` at index `d`, or is longer than
/// `v` when `d` is `v`'s length, is passed over by the lookup.
proof fn lemma_skip_entry(t: Seq<(Seq<char>, Seq<char>)>, v: Seq<char>, j: int, d: int)
    requires
        0 <= j < t.len(),
        0 <= d < t[j].0.len(),
        d == v.len() || (d < v.len() && t[j].0[d] != v[d]),
    ensures
        canonical_from(t, v, j) == canonical_from(t, v, j + 1),
{
    if t[j].0.len() <= v.len() {
        assert(v.subrange(0, t[j].0.len() as int)[d] == v[d]);
    }
}

/// Every label of the built-in table is its own canonical form.
#[verifier::rlimit(100)]
pub proof fn lemma_standard_lookup_stable()
    ensures
        lookup_stable(standard_entries()),
{
    let t = standard_entries();
    reveal_strlit("7-eleven");
    reveal_strlit("831 bowlero");
    reveal_strlit("airbnb");
    reveal_strlit("amazon");
    reveal_strlit("amc");
    reveal_strlit("amzn");
    reveal_strlit("autozone");
    reveal_strlit("barnes & noble");
    reveal_strlit("bonefish");
    reveal_strlit("bop & gogi");
    reveal_strlit("bowlero");
    reveal_strlit("chevron");
    reveal_strlit("chick-fil-a");
    reveal_strlit("chipotle");
    reveal_strlit("circle k");
    reveal_strlit("conoco");
    reveal_strlit("crate & barrel");
    reveal_strlit("delta");
    reveal_strlit("delta airlines");
    reveal_strlit("domino's");
    reveal_strlit("dominos");
    reveal_strlit("dunkin");
    reveal_strlit("dunkin donuts");
    reveal_strlit("hilton");
    reveal_strlit("home depot");
    reveal_strlit("ihop");
    reveal_strlit("king soopers");
    reveal_strlit("king soopers #");
    reveal_strlit("king soopers fuel");
    reveal_strlit("kum&go");
    reveal_strlit("laz parking");
    reveal_strlit("mad greens");
    reveal_strlit("noodles & co");
    reveal_strlit("olive garden");
    reveal_strlit("oracl*waffle house");
    reveal_strlit("panda express");
    reveal_strlit("paypal *domino's");
    reveal_strlit("petsmart");
    reveal_strlit("phillips 66");
    reveal_strlit("prime video");
    reveal_strlit("publix");
    reveal_strlit("qt");
    reveal_strlit("quicktrip");
    reveal_strlit("rei");
    reveal_strlit("safeway");
    reveal_strlit("safeway #");
    reveal_strlit("safeway fuel");
    reveal_strlit("shell");
    reveal_strlit("spothero");
    reveal_strlit("stop 4 gas");
    reveal_strlit("target");
    reveal_strlit("the home depot");
    reveal_strlit("trader joe s");
    reveal_strlit("trader joe's");
    reveal_strlit("tv");
    reveal_strlit("united");
    reveal_strlit("united airlines");
    reveal_strlit("vca animal hosp");
    reveal_strlit("vca veterinarian");
    reveal_strlit("waffle house");
    reveal_strlit("walgreens");
    assert forall|k: int| 0 <= k < t.len() implies canonical_of(t, #[trigger] t[k].1) == t[k].1 by {
        if k == 0 {
            assert(t[k].1.subrange(0, t[0].0.len() as int) =~= t[0].0);
        } else if k == 1 {
            assert(t[k].1.subrange(0, t[0].0.len() as int) =~= t[0].0);
        } else if k == 2 {
            lemma_skip_entry(t, t[k].1, 0, 2);
            lemma_skip_entry(t, t[k].1, 1, 2);
            lemma_skip_entry(t, t[k].1, 2, 2);
            lemma_skip_entry(t, t[k].1, 3, 2);
            lemma_skip_entry(t, t[k].1, 4, 2);
            lemma_skip_entry(t, t[k].1, 5, 2);
            lemma_skip_entry(t, t[k].1, 6, 2);
            lemma_skip_entry(t, t[k].1, 7, 2);
            lemma_skip_entry(t, t[k].1, 8, 2);
            lemma_skip_entry(t, t[k].1, 9, 2);
            lemma_skip_entry(t, t[k].1, 10, 2);
            lemma_skip_entry(t, t[k].1, 11, 2);
            lemma_skip_entry(t, t[k].1, 12, 2);
            lemma_skip_entry(t, t[k].1, 13, 2);
            lemma_skip_entry(t, t[k].1, 14, 2);
            lemma_skip_entry(t, t[k].1, 15, 2);
            lemma_skip_entry(t, t[k].1, 16, 2);
            lemma_skip_entry(t, t[k].1, 17, 2);
            lemma_skip_entry(t, t[k].1, 18, 2);
            lemma_skip_entry(t, t[k].1, 19, 2);
            lemma_skip_entry(t, t[k].1, 20, 2);
            lemma_skip_entry(t, t[k].1, 21, 2);
            lemma_skip_entry(t, t[k].1, 22, 2);
            lemma_skip_entry(t, t[k].1, 23, 2);
            lemma_skip_entry(t, t[k].1, 24, 2);
            lemma_skip_entry(t, t[k].1, 25, 2);
            lemma_skip_entry(t, t[k].1, 26, 2);
            lemma_skip_entry(t, t[k].1, 27, 2);
            lemma_skip_entry(t, t[k].1, 28, 2);
            lemma_skip_entry(t, t[k].1, 29, 2);
            lemma_skip_entry(t, t[k].1, 30, 2);
            lemma_skip_entry(t, t[k].1, 31, 2);
            lemma_skip_entry(t, t[k].1, 32, 2);
            lemma_skip_entry(t, t[k].1, 33, 2);
            lemma_skip_entry(t, t[k].1, 34, 2);
            lemma_skip_entry(t, t[k].1, 35, 2);
            lemma_skip_entry(t, t[k].1, 36, 2);
            lemma_skip_entry(t, t[k].1, 37, 2);
            lemma_skip_entry(t, t[k].1, 38, 2);
            lemma_skip_entry(t, t[k].1, 39, 2);
            lemma_skip_entry(t, t[k].1, 40, 2);
            lemma_skip_entry(t, t[k].1, 41, 0);
            lemma_skip_entry(t, t[k].1, 42, 2);
            lemma_skip_entry(t, t[k].1, 43, 2);
            lemma_skip_entry(t, t[k].1, 44, 2);
            lemma_skip_entry(t, t[k].1, 45, 2);
            lemma_skip_entry(t, t[k].1, 46, 2);
            lemma_skip_entry(t, t[k].1, 47, 2);
        } else if k == 3 {
            lemma_skip_entry(t, t[k].1, 0, 3);
            lemma_skip_entry(t, t[k].1, 1, 3);
            lemma_skip_entry(t, t[k].1, 2, 3);
            assert(t[k].1.subrange(0, t[3].0.len() as int) =~= t[3].0);
        } else if k == 4 {
            lemma_skip_entry(t, t[k].1, 0, 0);
            lemma_skip_entry(t, t[k].1, 1, 0);
            lemma_skip_entry(t, t[k].1, 2, 8);
            lemma_skip_entry(t, t[k].1, 3, 0);
            assert(t[k].1.subrange(0, t[4].0.len() as int) =~= t[4].0);
        } else if k == 5 {
            lemma_skip_entry(t, t[k].1, 0, 0);
            lemma_skip_entry(t, t[k].1, 1, 0);
            lemma_skip_entry(t, t[k].1, 2, 6);
            lemma_skip_entry(t, t[k].1, 3, 0);
            lemma_skip_entry(t, t[k].1, 4, 6);
            assert(t[k].1.subrange(0, t[5].0.len() as int) =~= t[5].0);
        } else if k == 6 {
            lemma_skip_entry(t, t[k].1, 0, 0);
            lemma_skip_entry(t, t[k].1, 1, 0);
            lemma_skip_entry(t, t[k].1, 2, 10);
            lemma_skip_entry(t, t[k].1, 3, 0);
            lemma_skip_entry(t, t[k].1, 4, 0);
            lemma_skip_entry(t, t[k].1, 5, 0);
            lemma_skip_entry(t, t[k].1, 6, 10);
            lemma_skip_entry(t, t[k].1, 7, 0);
            lemma_skip_entry(t, t[k].1, 8, 10);
            lemma_skip_entry(t, t[k].1, 9, 0);
            lemma_skip_entry(t, t[k].1, 10, 10);
            lemma_skip_entry(t, t[k].1, 11, 10);
            lemma_skip_entry(t, t[k].1, 12, 10);
            lemma_skip_entry(t, t[k].1, 13, 0);
            lemma_skip_entry(t, t[k].1, 14, 0);
            lemma_skip_entry(t, t[k].1, 15, 10);
            lemma_skip_entry(t, t[k].1, 16, 0);
            lemma_skip_entry(t, t[k].1, 17, 0);
            lemma_skip_entry(t, t[k].1, 18, 1);
            lemma_skip_entry(t, t[k].1, 19, 0);
            lemma_skip_entry(t, t[k].1, 20, 0);
            lemma_skip_entry(t, t[k].1, 21, 0);
            lemma_skip_entry(t, t[k].1, 22, 10);
            lemma_skip_entry(t, t[k].1, 23, 0);
            lemma_skip_entry(t, t[k].1, 24, 0);
            lemma_skip_entry(t, t[k].1, 25, 0);
            lemma_skip_entry(t, t[k].1, 26, 0);
            lemma_skip_entry(t, t[k].1, 27, 10);
            lemma_skip_entry(t, t[k].1, 28, 10);
            lemma_skip_entry(t, t[k].1, 29, 10);
            lemma_skip_entry(t, t[k].1, 30, 10);
            lemma_skip_entry(t, t[k].1, 31, 0);
            lemma_skip_entry(t, t[k].1, 32, 10);
            lemma_skip_entry(t, t[k].1, 33, 10);
            lemma_skip_entry(t, t[k].1, 34, 10);
            lemma_skip_entry(t, t[k].1, 35, 0);
            lemma_skip_entry(t, t[k].1, 36, 10);
            lemma_skip_entry(t, t[k].1, 37, 0);
            lemma_skip_entry(t, t[k].1, 38, 0);
            lemma_skip_entry(t, t[k].1, 39, 0);
            lemma_skip_entry(t, t[k].1, 40, 0);
            lemma_skip_entry(t, t[k].1, 41, 0);
            lemma_skip_entry(t, t[k].1, 42, 0);
            lemma_skip_entry(t, t[k].1, 43, 0);
            lemma_skip_entry(t, t[k].1, 44, 10);
            lemma_skip_entry(t, t[k].1, 45, 0);
            lemma_skip_entry(t, t[k].1, 46, 0);
            lemma_skip_entry(t, t[k].1, 47, 10);
        } else if k == 7 {
            lemma_skip_entry(t, t[k].1, 0, 3);
            lemma_skip_entry(t, t[k].1, 1, 3);
            lemma_skip_entry(t, t[k].1, 2, 3);
            lemma_skip_entry(t, t[k].1, 3, 0);
            lemma_skip_entry(t, t[k].1, 4, 3);
            lemma_skip_entry(t, t[k].1, 5, 3);
            lemma_skip_entry(t, t[k].1, 6, 3);
            assert(t[k].1.subrange(0, t[7].0.len() as int) =~= t[7].0);
        } else if k == 8 {
            lemma_skip_entry(t, t[k].1, 0, 0);
            lemma_skip_entry(t, t[k].1, 1, 0);
            lemma_skip_entry(t, t[k].1, 2, 0);
            lemma_skip_entry(t, t[k].1, 3, 0);
            lemma_skip_entry(t, t[k].1, 4, 0);
            lemma_skip_entry(t, t[k].1, 5, 0);
            lemma_skip_entry(t, t[k].1, 6, 0);
            lemma_skip_entry(t, t[k].1, 7, 0);
            assert(t[k].1.subrange(0, t[8].0.len() as int) =~= t[8].0);
        } else if k == 9 {
            lemma_skip_entry(t, t[k].1, 0, 1);
            lemma_skip_entry(t, t[k].1, 1, 1);
            lemma_skip_entry(t, t[k].1, 2, 8);
            lemma_skip_entry(t, t[k].1, 3, 1);
            lemma_skip_entry(t, t[k].1, 4, 0);
            lemma_skip_entry(t, t[k].1, 5, 0);
            lemma_skip_entry(t, t[k].1, 6, 8);
            lemma_skip_entry(t, t[k].1, 7, 0);
            lemma_skip_entry(t, t[k].1, 8, 8);
            assert(t[k].1.subrange(0, t[9].0.len() as int) =~= t[9].0);
        } else if k == 10 {
            lemma_skip_entry(t, t[k].1, 0, 0);
            lemma_skip_entry(t, t[k].1, 1, 0);
            lemma_skip_entry(t, t[k].1, 2, 0);
            lemma_skip_entry(t, t[k].1, 3, 0);
            lemma_skip_entry(t, t[k].1, 4, 0);
            lemma_skip_entry(t, t[k].1, 5, 0);
            lemma_skip_entry(t, t[k].1, 6, 0);
            lemma_skip_entry(t, t[k].1, 7, 0);
            lemma_skip_entry(t, t[k].1, 8, 0);
            lemma_skip_entry(t, t[k].1, 9, 0);
            assert(t[k].1.subrange(0, t[10].0.len() as int) =~= t[10].0);
        } else if k == 11 {
            lemma_skip_entry(t, t[k].1, 0, 0);
            lemma_skip_entry(t, t[k].1, 1, 0);
            lemma_skip_entry(t, t[k].1, 2, 0);
            lemma_skip_entry(t, t[k].1, 3, 0);
            lemma_skip_entry(t, t[k].1, 4, 0);
            lemma_skip_entry(t, t[k].1, 5, 0);
            lemma_skip_entry(t, t[k].1, 6, 0);
            lemma_skip_entry(t, t[k].1, 7, 0);
            lemma_skip_entry(t, t[k].1, 8, 0);
            lemma_skip_entry(t, t[k].1, 9, 0);
            lemma_skip_entry(t, t[k].1, 10, 0);
            lemma_skip_entry(t, t[k].1, 11, 4);
            lemma_skip_entry(t, t[k].1, 12, 0);
            lemma_skip_entry(t, t[k].1, 13, 0);
            lemma_skip_entry(t, t[k].1, 14, 0);
            lemma_skip_entry(t, t[k].1, 15, 0);
            lemma_skip_entry(t, t[k].1, 16, 0);
            lemma_skip_entry(t, t[k].1, 17, 0);
            lemma_skip_entry(t, t[k].1, 18, 0);
            lemma_skip_entry(t, t[k].1, 19, 0);
            lemma_skip_entry(t, t[k].1, 20, 0);
            lemma_skip_entry(t, t[k].1, 21, 0);
            lemma_skip_entry(t, t[k].1, 22, 0);
            lemma_skip_entry(t, t[k].1, 23, 0);
            lemma_skip_entry(t, t[k].1, 24, 0);
            lemma_skip_entry(t, t[k].1, 25, 0);
            lemma_skip_entry(t, t[k].1, 26, 0);
            lemma_skip_entry(t, t[k].1, 27, 0);
            lemma_skip_entry(t, t[k].1, 28, 0);
            lemma_skip_entry(t, t[k].1, 29, 0);
            lemma_skip_entry(t, t[k].1, 30, 16);
            lemma_skip_entry(t, t[k].1, 31, 0);
            lemma_skip_entry(t, t[k].1, 32, 0);
            lemma_skip_entry(t, t[k].1, 33, 0);
            lemma_skip_entry(t, t[k].1, 34, 16);
            lemma_skip_entry(t, t[k].1, 35, 0);
            lemma_skip_entry(t, t[k].1, 36, 0);
            lemma_skip_entry(t, t[k].1, 37, 0);
            lemma_skip_entry(t, t[k].1, 38, 0);
            lemma_skip_entry(t, t[k].1, 39, 0);
            lemma_skip_entry(t, t[k].1, 40, 0);
            lemma_skip_entry(t, t[k].1, 41, 0);
            lemma_skip_entry(t, t[k].1, 42, 0);
            lemma_skip_entry(t, t[k].1, 43, 0);
            lemma_skip_entry(t, t[k].1, 44, 0);
            lemma_skip_entry(t, t[k].1, 45, 0);
            lemma_skip_entry(t, t[k].1, 46, 0);
            lemma_skip_entry(t, t[k].1, 47, 0);
        } else if k == 12 {
            lemma_skip_entry(t, t[k].1, 0, 0);
            lemma_skip_entry(t, t[k].1, 1, 0);
            lemma_skip_entry(t, t[k].1, 2, 0);
            lemma_skip_entry(t, t[k].1, 3, 0);
            lemma_skip_entry(t, t[k].1, 4, 0);
            lemma_skip_entry(t, t[k].1, 5, 0);
            lemma_skip_entry(t, t[k].1, 6, 11);
            lemma_skip_entry(t, t[k].1, 7, 0);
            lemma_skip_entry(t, t[k].1, 8, 11);
            lemma_skip_entry(t, t[k].1, 9, 0);
            lemma_skip_entry(t, t[k].1, 10, 11);
            lemma_skip_entry(t, t[k].1, 11, 11);
            assert(t[k].1.subrange(0, t[12].0.len() as int) =~= t[12].0);
        } else if k == 13 {
            lemma_skip_entry(t, t[k].1, 0, 0);
            lemma_skip_entry(t, t[k].1, 1, 0);
            lemma_skip_entry(t, t[k].1, 2, 8);
            lemma_skip_entry(t, t[k].1, 3, 0);
            lemma_skip_entry(t, t[k].1, 4, 0);
            lemma_skip_entry(t, t[k].1, 5, 0);
            lemma_skip_entry(t, t[k].1, 6, 8);
            lemma_skip_entry(t, t[k].1, 7, 0);
            lemma_skip_entry(t, t[k].1, 8, 8);
            lemma_skip_entry(t, t[k].1, 9, 0);
            lemma_skip_entry(t, t[k].1, 10, 8);
            lemma_skip_entry(t, t[k].1, 11, 8);
            lemma_skip_entry(t, t[k].1, 12, 8);
            assert(t[k].1.subrange(0, t[13].0.len() as int) =~= t[13].0);
        } else if k == 14 {
            lemma_skip_entry(t, t[k].1, 0, 0);
            lemma_skip_entry(t, t[k].1, 1, 0);
            lemma_skip_entry(t, t[k].1, 2, 9);
            lemma_skip_entry(t, t[k].1, 3, 0);
            lemma_skip_entry(t, t[k].1, 4, 0);
            lemma_skip_entry(t, t[k].1, 5, 0);
            lemma_skip_entry(t, t[k].1, 6, 9);
            lemma_skip_entry(t, t[k].1, 7, 0);
            lemma_skip_entry(t, t[k].1, 8, 9);
            lemma_skip_entry(t, t[k].1, 9, 0);
            lemma_skip_entry(t, t[k].1, 10, 9);
            lemma_skip_entry(t, t[k].1, 11, 9);
            lemma_skip_entry(t, t[k].1, 12, 9);
            lemma_skip_entry(t, t[k].1, 13, 0);
            assert(t[k].1.subrange(0, t[14].0.len() as int) =~= t[14].0);
        } else if k == 15 {
            lemma_skip_entry(t, t[k].1, 0, 0);
            lemma_skip_entry(t, t[k].1, 1, 0);
            lemma_skip_entry(t, t[k].1, 2, 7);
            lemma_skip_entry(t, t[k].1, 3, 0);
            lemma_skip_entry(t, t[k].1, 4, 7);
            lemma_skip_entry(t, t[k].1, 5, 0);
            lemma_skip_entry(t, t[k].1, 6, 7);
            lemma_skip_entry(t, t[k].1, 7, 0);
            lemma_skip_entry(t, t[k].1, 8, 7);
            lemma_skip_entry(t, t[k].1, 9, 7);
            lemma_skip_entry(t, t[k].1, 10, 7);
            lemma_skip_entry(t, t[k].1, 11, 7);
            lemma_skip_entry(t, t[k].1, 12, 7);
            lemma_skip_entry(t, t[k].1, 13, 7);
            lemma_skip_entry(t, t[k].1, 14, 7);
            lemma_skip_entry(t, t[k].1, 15, 7);
            lemma_skip_entry(t, t[k].1, 16, 0);
            lemma_skip_entry(t, t[k].1, 17, 0);
            lemma_skip_entry(t, t[k].1, 18, 0);
            lemma_skip_entry(t, t[k].1, 19, 0);
            lemma_skip_entry(t, t[k].1, 20, 0);
            lemma_skip_entry(t, t[k].1, 21, 7);
            lemma_skip_entry(t, t[k].1, 22, 7);
            lemma_skip_entry(t, t[k].1, 23, 7);
            lemma_skip_entry(t, t[k].1, 24, 7);
            lemma_skip_entry(t, t[k].1, 25, 7);
            lemma_skip_entry(t, t[k].1, 26, 0);
            lemma_skip_entry(t, t[k].1, 27, 7);
            lemma_skip_entry(t, t[k].1, 28, 7);
            lemma_skip_entry(t, t[k].1, 29, 7);
            lemma_skip_entry(t, t[k].1, 30, 7);
            lemma_skip_entry(t, t[k].1, 31, 7);
            lemma_skip_entry(t, t[k].1, 32, 7);
            lemma_skip_entry(t, t[k].1, 33, 7);
            lemma_skip_entry(t, t[k].1, 34, 7);
            lemma_skip_entry(t, t[k].1, 35, 0);
            lemma_skip_entry(t, t[k].1, 36, 7);
            lemma_skip_entry(t, t[k].1, 37, 7);
            lemma_skip_entry(t, t[k].1, 38, 7);
            lemma_skip_entry(t, t[k].1, 39, 0);
            lemma_skip_entry(t, t[k].1, 40, 7);
            lemma_skip_entry(t, t[k].1, 41, 0);
            lemma_skip_entry(t, t[k].1, 42, 0);
            lemma_skip_entry(t, t[k].1, 43, 0);
            lemma_skip_entry(t, t[k].1, 44, 7);
            lemma_skip_entry(t, t[k].1, 45, 0);
            lemma_skip_entry(t, t[k].1, 46, 7);
            lemma_skip_entry(t, t[k].1, 47, 7);
        } else if k == 16 {
            lemma_skip_entry(t, t[k].1, 0, 0);
            lemma_skip_entry(t, t[k].1, 1, 0);
            lemma_skip_entry(t, t[k].1, 2, 0);
            lemma_skip_entry(t, t[k].1, 3, 0);
            lemma_skip_entry(t, t[k].1, 4, 0);
            lemma_skip_entry(t, t[k].1, 5, 0);
            lemma_skip_entry(t, t[k].1, 6, 0);
            lemma_skip_entry(t, t[k].1, 7, 0);
            lemma_skip_entry(t, t[k].1, 8, 0);
            lemma_skip_entry(t, t[k].1, 9, 0);
            lemma_skip_entry(t, t[k].1, 10, 0);
            lemma_skip_entry(t, t[k].1, 11, 0);
            lemma_skip_entry(t, t[k].1, 12, 0);
            lemma_skip_entry(t, t[k].1, 13, 0);
            lemma_skip_entry(t, t[k].1, 14, 0);
            lemma_skip_entry(t, t[k].1, 15, 0);
            assert(t[k].1.subrange(0, t[16].0.len() as int) =~= t[16].0);
        } else if k == 17 {
            lemma_skip_entry(t, t[k].1, 0, 0);
            lemma_skip_entry(t, t[k].1, 1, 0);
            lemma_skip_entry(t, t[k].1, 2, 0);
            lemma_skip_entry(t, t[k].1, 3, 0);
            lemma_skip_entry(t, t[k].1, 4, 0);
            lemma_skip_entry(t, t[k].1, 5, 0);
            lemma_skip_entry(t, t[k].1, 6, 0);
            lemma_skip_entry(t, t[k].1, 7, 0);
            lemma_skip_entry(t, t[k].1, 8, 0);
            lemma_skip_entry(t, t[k].1, 9, 0);
            lemma_skip_entry(t, t[k].1, 10, 0);
            lemma_skip_entry(t, t[k].1, 11, 14);
            lemma_skip_entry(t, t[k].1, 12, 0);
            lemma_skip_entry(t, t[k].1, 13, 0);
            lemma_skip_entry(t, t[k].1, 14, 0);
            lemma_skip_entry(t, t[k].1, 15, 0);
            lemma_skip_entry(t, t[k].1, 16, 0);
            assert(t[k].1.subrange(0, t[17].0.len() as int) =~= t[17].0);
        } else if k == 18 {
            lemma_skip_entry(t, t[k].1, 0, 0);
            lemma_skip_entry(t, t[k].1, 1, 0);
            lemma_skip_entry(t, t[k].1, 2, 6);
            lemma_skip_entry(t, t[k].1, 3, 0);
            lemma_skip_entry(t, t[k].1, 4, 6);
            lemma_skip_entry(t, t[k].1, 5, 0);
            lemma_skip_entry(t, t[k].1, 6, 6);
            lemma_skip_entry(t, t[k].1, 7, 0);
            lemma_skip_entry(t, t[k].1, 8, 6);
            lemma_skip_entry(t, t[k].1, 9, 6);
            lemma_skip_entry(t, t[k].1, 10, 6);
            lemma_skip_entry(t, t[k].1, 11, 6);
            lemma_skip_entry(t, t[k].1, 12, 6);
            lemma_skip_entry(t, t[k].1, 13, 6);
            lemma_skip_entry(t, t[k].1, 14, 6);
            lemma_skip_entry(t, t[k].1, 15, 6);
            lemma_skip_entry(t, t[k].1, 16, 0);
            lemma_skip_entry(t, t[k].1, 17, 0);
            assert(t[k].1.subrange(0, t[18].0.len() as int) =~= t[18].0);
        } else if k == 19 {
            lemma_skip_entry(t, t[k].1, 0, 1);
            lemma_skip_entry(t, t[k].1, 1, 1);
            lemma_skip_entry(t, t[k].1, 2, 6);
            lemma_skip_entry(t, t[k].1, 3, 1);
            lemma_skip_entry(t, t[k].1, 4, 6);
            lemma_skip_entry(t, t[k].1, 5, 0);
            lemma_skip_entry(t, t[k].1, 6, 6);
            lemma_skip_entry(t, t[k].1, 7, 0);
            lemma_skip_entry(t, t[k].1, 8, 6);
            lemma_skip_entry(t, t[k].1, 9, 6);
            lemma_skip_entry(t, t[k].1, 10, 6);
            lemma_skip_entry(t, t[k].1, 11, 6);
            lemma_skip_entry(t, t[k].1, 12, 6);
            lemma_skip_entry(t, t[k].1, 13, 6);
            lemma_skip_entry(t, t[k].1, 14, 6);
            lemma_skip_entry(t, t[k].1, 15, 6);
            lemma_skip_entry(t, t[k].1, 16, 0);
            lemma_skip_entry(t, t[k].1, 17, 0);
            lemma_skip_entry(t, t[k].1, 18, 0);
            assert(t[k].1.subrange(0, t[19].0.len() as int) =~= t[19].0);
        } else if k == 20 {
            lemma_skip_entry(t, t[k].1, 0, 4);
            lemma_skip_entry(t, t[k].1, 1, 0);
            lemma_skip_entry(t, t[k].1, 2, 4);
            lemma_skip_entry(t, t[k].1, 3, 0);
            lemma_skip_entry(t, t[k].1, 4, 4);
            lemma_skip_entry(t, t[k].1, 5, 4);
            lemma_skip_entry(t, t[k].1, 6, 4);
            lemma_skip_entry(t, t[k].1, 7, 0);
            lemma_skip_entry(t, t[k].1, 8, 4);
            lemma_skip_entry(t, t[k].1, 9, 4);
            lemma_skip_entry(t, t[k].1, 10, 4);
            lemma_skip_entry(t, t[k].1, 11, 4);
            lemma_skip_entry(t, t[k].1, 12, 4);
            lemma_skip_entry(t, t[k].1, 13, 4);
            lemma_skip_entry(t, t[k].1, 14, 4);
            lemma_skip_entry(t, t[k].1, 15, 4);
            lemma_skip_entry(t, t[k].1, 16, 4);
            lemma_skip_entry(t, t[k].1, 17, 4);
            lemma_skip_entry(t, t[k].1, 18, 4);
            lemma_skip_entry(t, t[k].1, 19, 4);
            assert(t[k].1.subrange(0, t[20].0.len() as int) =~= t[20].0);
        } else if k == 21 {
            lemma_skip_entry(t, t[k].1, 0, 0);
            lemma_skip_entry(t, t[k].1, 1, 0);
            lemma_skip_entry(t, t[k].1, 2, 8);
            lemma_skip_entry(t, t[k].1, 3, 0);
            lemma_skip_entry(t, t[k].1, 4, 0);
            lemma_skip_entry(t, t[k].1, 5, 0);
            lemma_skip_entry(t, t[k].1, 6, 8);
            lemma_skip_entry(t, t[k].1, 7, 0);
            lemma_skip_entry(t, t[k].1, 8, 8);
            lemma_skip_entry(t, t[k].1, 9, 0);
            lemma_skip_entry(t, t[k].1, 10, 8);
            lemma_skip_entry(t, t[k].1, 11, 8);
            lemma_skip_entry(t, t[k].1, 12, 8);
            lemma_skip_entry(t, t[k].1, 13, 0);
            lemma_skip_entry(t, t[k].1, 14, 8);
            lemma_skip_entry(t, t[k].1, 15, 8);
            lemma_skip_entry(t, t[k].1, 16, 0);
            lemma_skip_entry(t, t[k].1, 17, 0);
            lemma_skip_entry(t, t[k].1, 18, 0);
            lemma_skip_entry(t, t[k].1, 19, 0);
            lemma_skip_entry(t, t[k].1, 20, 0);
            assert(t[k].1.subrange(0, t[21].0.len() as int) =~= t[21].0);
        } else if k == 22 {
            lemma_skip_entry(t, t[k].1, 0, 0);
            lemma_skip_entry(t, t[k].1, 1, 0);
            lemma_skip_entry(t, t[k].1, 2, 0);
            lemma_skip_entry(t, t[k].1, 3, 0);
            lemma_skip_entry(t, t[k].1, 4, 0);
            lemma_skip_entry(t, t[k].1, 5, 0);
            lemma_skip_entry(t, t[k].1, 6, 11);
            lemma_skip_entry(t, t[k].1, 7, 0);
            lemma_skip_entry(t, t[k].1, 8, 11);
            lemma_skip_entry(t, t[k].1, 9, 0);
            lemma_skip_entry(t, t[k].1, 10, 11);
            lemma_skip_entry(t, t[k].1, 11, 11);
            lemma_skip_entry(t, t[k].1, 12, 0);
            lemma_skip_entry(t, t[k].1, 13, 0);
            lemma_skip_entry(t, t[k].1, 14, 0);
            lemma_skip_entry(t, t[k].1, 15, 0);
            lemma_skip_entry(t, t[k].1, 16, 0);
            lemma_skip_entry(t, t[k].1, 17, 0);
            lemma_skip_entry(t, t[k].1, 18, 0);
            lemma_skip_entry(t, t[k].1, 19, 0);
            lemma_skip_entry(t, t[k].1, 20, 0);
            lemma_skip_entry(t, t[k].1, 21, 0);
            assert(t[k].1.subrange(0, t[22].0.len() as int) =~= t[22].0);
        } else if k == 23 {
            lemma_skip_entry(t, t[k].1, 0, 0);
            lemma_skip_entry(t, t[k].1, 1, 0);
            lemma_skip_entry(t, t[k].1, 2, 8);
            lemma_skip_entry(t, t[k].1, 3, 0);
            lemma_skip_entry(t, t[k].1, 4, 0);
            lemma_skip_entry(t, t[k].1, 5, 0);
            lemma_skip_entry(t, t[k].1, 6, 8);
            lemma_skip_entry(t, t[k].1, 7, 0);
            lemma_skip_entry(t, t[k].1, 8, 8);
            lemma_skip_entry(t, t[k].1, 9, 0);
            lemma_skip_entry(t, t[k].1, 10, 8);
            lemma_skip_entry(t, t[k].1, 11, 8);
            lemma_skip_entry(t, t[k].1, 12, 8);
            lemma_skip_entry(t, t[k].1, 13, 0);
            lemma_skip_entry(t, t[k].1, 14, 8);
            lemma_skip_entry(t, t[k].1, 15, 8);
            lemma_skip_entry(t, t[k].1, 16, 0);
            lemma_skip_entry(t, t[k].1, 17, 0);
            lemma_skip_entry(t, t[k].1, 18, 0);
            lemma_skip_entry(t, t[k].1, 19, 0);
            lemma_skip_entry(t, t[k].1, 20, 0);
            lemma_skip_entry(t, t[k].1, 21, 0);
            lemma_skip_entry(t, t[k].1, 22, 8);
            assert(t[k].1.subrange(0, t[23].0.len() as int) =~= t[23].0);
        } else if k == 24 {
            lemma_skip_entry(t, t[k].1, 0, 0);
            lemma_skip_entry(t, t[k].1, 1, 0);
            lemma_skip_entry(t, t[k].1, 2, 10);
            lemma_skip_entry(t, t[k].1, 3, 0);
            lemma_skip_entry(t, t[k].1, 4, 0);
            lemma_skip_entry(t, t[k].1, 5, 0);
            lemma_skip_entry(t, t[k].1, 6, 10);
            lemma_skip_entry(t, t[k].1, 7, 0);
            lemma_skip_entry(t, t[k].1, 8, 10);
            lemma_skip_entry(t, t[k].1, 9, 0);
            lemma_skip_entry(t, t[k].1, 10, 10);
            lemma_skip_entry(t, t[k].1, 11, 10);
            lemma_skip_entry(t, t[k].1, 12, 10);
            lemma_skip_entry(t, t[k].1, 13, 0);
            lemma_skip_entry(t, t[k].1, 14, 0);
            lemma_skip_entry(t, t[k].1, 15, 10);
            lemma_skip_entry(t, t[k].1, 16, 0);
            lemma_skip_entry(t, t[k].1, 17, 0);
            lemma_skip_entry(t, t[k].1, 18, 0);
            lemma_skip_entry(t, t[k].1, 19, 0);
            lemma_skip_entry(t, t[k].1, 20, 0);
            lemma_skip_entry(t, t[k].1, 21, 0);
            lemma_skip_entry(t, t[k].1, 22, 10);
            lemma_skip_entry(t, t[k].1, 23, 0);
            assert(t[k].1.subrange(0, t[24].0.len() as int) =~= t[24].0);
        } else if k == 25 {
            lemma_skip_entry(t, t[k].1, 0, 0);
            lemma_skip_entry(t, t[k].1, 1, 0);
            lemma_skip_entry(t, t[k].1, 2, 7);
            lemma_skip_entry(t, t[k].1, 3, 0);
            lemma_skip_entry(t, t[k].1, 4, 7);
            lemma_skip_entry(t, t[k].1, 5, 0);
            lemma_skip_entry(t, t[k].1, 6, 7);
            lemma_skip_entry(t, t[k].1, 7, 0);
            lemma_skip_entry(t, t[k].1, 8, 7);
            lemma_skip_entry(t, t[k].1, 9, 7);
            lemma_skip_entry(t, t[k].1, 10, 7);
            lemma_skip_entry(t, t[k].1, 11, 7);
            lemma_skip_entry(t, t[k].1, 12, 7);
            lemma_skip_entry(t, t[k].1, 13, 7);
            lemma_skip_entry(t, t[k].1, 14, 7);
            lemma_skip_entry(t, t[k].1, 15, 7);
            lemma_skip_entry(t, t[k].1, 16, 0);
            lemma_skip_entry(t, t[k].1, 17, 1);
            lemma_skip_entry(t, t[k].1, 18, 0);
            lemma_skip_entry(t, t[k].1, 19, 0);
            lemma_skip_entry(t, t[k].1, 20, 0);
            lemma_skip_entry(t, t[k].1, 21, 7);
            lemma_skip_entry(t, t[k].1, 22, 7);
            lemma_skip_entry(t, t[k].1, 23, 7);
            lemma_skip_entry(t, t[k].1, 24, 7);
            lemma_skip_entry(t, t[k].1, 25, 7);
            lemma_skip_entry(t, t[k].1, 26, 1);
            lemma_skip_entry(t, t[k].1, 27, 7);
            lemma_skip_entry(t, t[k].1, 28, 7);
            lemma_skip_entry(t, t[k].1, 29, 7);
            lemma_skip_entry(t, t[k].1, 30, 7);
            lemma_skip_entry(t, t[k].1, 31, 7);
            lemma_skip_entry(t, t[k].1, 32, 7);
            lemma_skip_entry(t, t[k].1, 33, 7);
            lemma_skip_entry(t, t[k].1, 34, 7);
            lemma_skip_entry(t, t[k].1, 35, 0);
            lemma_skip_entry(t, t[k].1, 36, 7);
            lemma_skip_entry(t, t[k].1, 37, 7);
            lemma_skip_entry(t, t[k].1, 38, 7);
            lemma_skip_entry(t, t[k].1, 39, 0);
            lemma_skip_entry(t, t[k].1, 40, 7);
            lemma_skip_entry(t, t[k].1, 41, 0);
            lemma_skip_entry(t, t[k].1, 42, 0);
            lemma_skip_entry(t, t[k].1, 43, 0);
            lemma_skip_entry(t, t[k].1, 44, 7);
            lemma_skip_entry(t, t[k].1, 45, 0);
            lemma_skip_entry(t, t[k].1, 46, 7);
            lemma_skip_entry(t, t[k].1, 47, 7);
        } else if k == 26 {
            lemma_skip_entry(t, t[k].1, 0, 0);
            lemma_skip_entry(t, t[k].1, 1, 0);
            lemma_skip_entry(t, t[k].1, 2, 0);
            lemma_skip_entry(t, t[k].1, 3, 0);
            lemma_skip_entry(t, t[k].1, 4, 0);
            lemma_skip_entry(t, t[k].1, 5, 0);
            lemma_skip_entry(t, t[k].1, 6, 13);
            lemma_skip_entry(t, t[k].1, 7, 0);
            lemma_skip_entry(t, t[k].1, 8, 13);
            lemma_skip_entry(t, t[k].1, 9, 0);
            lemma_skip_entry(t, t[k].1, 10, 13);
            lemma_skip_entry(t, t[k].1, 11, 13);
            lemma_skip_entry(t, t[k].1, 12, 0);
            lemma_skip_entry(t, t[k].1, 13, 0);
            lemma_skip_entry(t, t[k].1, 14, 0);
            lemma_skip_entry(t, t[k].1, 15, 0);
            lemma_skip_entry(t, t[k].1, 16, 0);
            lemma_skip_entry(t, t[k].1, 17, 1);
            lemma_skip_entry(t, t[k].1, 18, 0);
            lemma_skip_entry(t, t[k].1, 19, 0);
            lemma_skip_entry(t, t[k].1, 20, 0);
            lemma_skip_entry(t, t[k].1, 21, 0);
            lemma_skip_entry(t, t[k].1, 22, 0);
            lemma_skip_entry(t, t[k].1, 23, 0);
            lemma_skip_entry(t, t[k].1, 24, 0);
            lemma_skip_entry(t, t[k].1, 25, 1);
            assert(t[k].1.subrange(0, t[26].0.len() as int) =~= t[26].0);
        } else if k == 27 {
            lemma_skip_entry(t, t[k].1, 0, 0);
            lemma_skip_entry(t, t[k].1, 1, 0);
            lemma_skip_entry(t, t[k].1, 2, 1);
            lemma_skip_entry(t, t[k].1, 3, 0);
            lemma_skip_entry(t, t[k].1, 4, 1);
            lemma_skip_entry(t, t[k].1, 5, 0);
            lemma_skip_entry(t, t[k].1, 6, 13);
            lemma_skip_entry(t, t[k].1, 7, 0);
            lemma_skip_entry(t, t[k].1, 8, 13);
            lemma_skip_entry(t, t[k].1, 9, 0);
            lemma_skip_entry(t, t[k].1, 10, 13);
            lemma_skip_entry(t, t[k].1, 11, 13);
            lemma_skip_entry(t, t[k].1, 12, 0);
            lemma_skip_entry(t, t[k].1, 13, 0);
            lemma_skip_entry(t, t[k].1, 14, 0);
            lemma_skip_entry(t, t[k].1, 15, 0);
            lemma_skip_entry(t, t[k].1, 16, 0);
            lemma_skip_entry(t, t[k].1, 17, 0);
            lemma_skip_entry(t, t[k].1, 18, 0);
            lemma_skip_entry(t, t[k].1, 19, 0);
            lemma_skip_entry(t, t[k].1, 20, 0);
            lemma_skip_entry(t, t[k].1, 21, 0);
            lemma_skip_entry(t, t[k].1, 22, 0);
            lemma_skip_entry(t, t[k].1, 23, 0);
            lemma_skip_entry(t, t[k].1, 24, 0);
            lemma_skip_entry(t, t[k].1, 25, 0);
            lemma_skip_entry(t, t[k].1, 26, 0);
            assert(t[k].1.subrange(0, t[27].0.len() as int) =~= t[27].0);
        } else if k == 28 {
            lemma_skip_entry(t, t[k].1, 0, 0);
            lemma_skip_entry(t, t[k].1, 1, 0);
            lemma_skip_entry(t, t[k].1, 2, 0);
            lemma_skip_entry(t, t[k].1, 3, 0);
            lemma_skip_entry(t, t[k].1, 4, 0);
            lemma_skip_entry(t, t[k].1, 5, 0);
            lemma_skip_entry(t, t[k].1, 6, 12);
            lemma_skip_entry(t, t[k].1, 7, 0);
            lemma_skip_entry(t, t[k].1, 8, 12);
            lemma_skip_entry(t, t[k].1, 9, 0);
            lemma_skip_entry(t, t[k].1, 10, 12);
            lemma_skip_entry(t, t[k].1, 11, 12);
            lemma_skip_entry(t, t[k].1, 12, 0);
            lemma_skip_entry(t, t[k].1, 13, 0);
            lemma_skip_entry(t, t[k].1, 14, 0);
            lemma_skip_entry(t, t[k].1, 15, 0);
            lemma_skip_entry(t, t[k].1, 16, 0);
            lemma_skip_entry(t, t[k].1, 17, 0);
            lemma_skip_entry(t, t[k].1, 18, 0);
            lemma_skip_entry(t, t[k].1, 19, 0);
            lemma_skip_entry(t, t[k].1, 20, 0);
            lemma_skip_entry(t, t[k].1, 21, 0);
            lemma_skip_entry(t, t[k].1, 22, 0);
            lemma_skip_entry(t, t[k].1, 23, 0);
            lemma_skip_entry(t, t[k].1, 24, 0);
            lemma_skip_entry(t, t[k].1, 25, 0);
            lemma_skip_entry(t, t[k].1, 26, 0);
            lemma_skip_entry(t, t[k].1, 27, 12);
            assert(t[k].1.subrange(0, t[28].0.len() as int) =~= t[28].0);
        } else if k == 29 {
            lemma_skip_entry(t, t[k].1, 0, 0);
            lemma_skip_entry(t, t[k].1, 1, 0);
            lemma_skip_entry(t, t[k].1, 2, 0);
            lemma_skip_entry(t, t[k].1, 3, 0);
            lemma_skip_entry(t, t[k].1, 4, 0);
            lemma_skip_entry(t, t[k].1, 5, 0);
            lemma_skip_entry(t, t[k].1, 6, 12);
            lemma_skip_entry(t, t[k].1, 7, 0);
            lemma_skip_entry(t, t[k].1, 8, 12);
            lemma_skip_entry(t, t[k].1, 9, 0);
            lemma_skip_entry(t, t[k].1, 10, 12);
            lemma_skip_entry(t, t[k].1, 11, 12);
            lemma_skip_entry(t, t[k].1, 12, 0);
            lemma_skip_entry(t, t[k].1, 13, 0);
            lemma_skip_entry(t, t[k].1, 14, 0);
            lemma_skip_entry(t, t[k].1, 15, 0);
            lemma_skip_entry(t, t[k].1, 16, 0);
            lemma_skip_entry(t, t[k].1, 17, 0);
            lemma_skip_entry(t, t[k].1, 18, 0);
            lemma_skip_entry(t, t[k].1, 19, 0);
            lemma_skip_entry(t, t[k].1, 20, 0);
            lemma_skip_entry(t, t[k].1, 21, 0);
            lemma_skip_entry(t, t[k].1, 22, 0);
            lemma_skip_entry(t, t[k].1, 23, 0);
            lemma_skip_entry(t, t[k].1, 24, 0);
            lemma_skip_entry(t, t[k].1, 25, 0);
            lemma_skip_entry(t, t[k].1, 26, 0);
            lemma_skip_entry(t, t[k].1, 27, 12);
            lemma_skip_entry(t, t[k].1, 28, 0);
            assert(t[k].1.subrange(0, t[29].0.len() as int) =~= t[29].0);
        } else if k == 30 {
            lemma_skip_entry(t, t[k].1, 0, 0);
            lemma_skip_entry(t, t[k].1, 1, 0);
            lemma_skip_entry(t, t[k].1, 2, 0);
            lemma_skip_entry(t, t[k].1, 3, 0);
            lemma_skip_entry(t, t[k].1, 4, 0);
            lemma_skip_entry(t, t[k].1, 5, 0);
            lemma_skip_entry(t, t[k].1, 6, 12);
            lemma_skip_entry(t, t[k].1, 7, 0);
            lemma_skip_entry(t, t[k].1, 8, 12);
            lemma_skip_entry(t, t[k].1, 9, 0);
            lemma_skip_entry(t, t[k].1, 10, 12);
            lemma_skip_entry(t, t[k].1, 11, 12);
            lemma_skip_entry(t, t[k].1, 12, 0);
            lemma_skip_entry(t, t[k].1, 13, 0);
            lemma_skip_entry(t, t[k].1, 14, 2);
            lemma_skip_entry(t, t[k].1, 15, 0);
            lemma_skip_entry(t, t[k].1, 16, 0);
            lemma_skip_entry(t, t[k].1, 17, 0);
            lemma_skip_entry(t, t[k].1, 18, 0);
            lemma_skip_entry(t, t[k].1, 19, 0);
            lemma_skip_entry(t, t[k].1, 20, 0);
            lemma_skip_entry(t, t[k].1, 21, 0);
            lemma_skip_entry(t, t[k].1, 22, 0);
            lemma_skip_entry(t, t[k].1, 23, 0);
            lemma_skip_entry(t, t[k].1, 24, 0);
            lemma_skip_entry(t, t[k].1, 25, 0);
            lemma_skip_entry(t, t[k].1, 26, 0);
            lemma_skip_entry(t, t[k].1, 27, 12);
            lemma_skip_entry(t, t[k].1, 28, 0);
            lemma_skip_entry(t, t[k].1, 29, 0);
            lemma_skip_entry(t, t[k].1, 30, 12);
            lemma_skip_entry(t, t[k].1, 31, 0);
            lemma_skip_entry(t, t[k].1, 32, 12);
            lemma_skip_entry(t, t[k].1, 33, 0);
            lemma_skip_entry(t, t[k].1, 34, 12);
            lemma_skip_entry(t, t[k].1, 35, 0);
            lemma_skip_entry(t, t[k].1, 36, 0);
            lemma_skip_entry(t, t[k].1, 37, 0);
            lemma_skip_entry(t, t[k].1, 38, 0);
            lemma_skip_entry(t, t[k].1, 39, 0);
            lemma_skip_entry(t, t[k].1, 40, 0);
            lemma_skip_entry(t, t[k].1, 41, 0);
            lemma_skip_entry(t, t[k].1, 42, 0);
            lemma_skip_entry(t, t[k].1, 43, 0);
            lemma_skip_entry(t, t[k].1, 44, 0);
            lemma_skip_entry(t, t[k].1, 45, 0);
            lemma_skip_entry(t, t[k].1, 46, 0);
            lemma_skip_entry(t, t[k].1, 47, 12);
        } else if k == 31 {
            lemma_skip_entry(t, t[k].1, 0, 0);
            lemma_skip_entry(t, t[k].1, 1, 0);
            lemma_skip_entry(t, t[k].1, 2, 10);
            lemma_skip_entry(t, t[k].1, 3, 0);
            lemma_skip_entry(t, t[k].1, 4, 0);
            lemma_skip_entry(t, t[k].1, 5, 0);
            lemma_skip_entry(t, t[k].1, 6, 10);
            lemma_skip_entry(t, t[k].1, 7, 0);
            lemma_skip_entry(t, t[k].1, 8, 10);
            lemma_skip_entry(t, t[k].1, 9, 0);
            lemma_skip_entry(t, t[k].1, 10, 10);
            lemma_skip_entry(t, t[k].1, 11, 10);
            lemma_skip_entry(t, t[k].1, 12, 10);
            lemma_skip_entry(t, t[k].1, 13, 0);
            lemma_skip_entry(t, t[k].1, 14, 0);
            lemma_skip_entry(t, t[k].1, 15, 10);
            lemma_skip_entry(t, t[k].1, 16, 0);
            lemma_skip_entry(t, t[k].1, 17, 0);
            lemma_skip_entry(t, t[k].1, 18, 0);
            lemma_skip_entry(t, t[k].1, 19, 0);
            lemma_skip_entry(t, t[k].1, 20, 0);
            lemma_skip_entry(t, t[k].1, 21, 2);
            lemma_skip_entry(t, t[k].1, 22, 10);
            lemma_skip_entry(t, t[k].1, 23, 0);
            lemma_skip_entry(t, t[k].1, 24, 0);
            lemma_skip_entry(t, t[k].1, 25, 0);
            lemma_skip_entry(t, t[k].1, 26, 0);
            lemma_skip_entry(t, t[k].1, 27, 10);
            lemma_skip_entry(t, t[k].1, 28, 10);
            lemma_skip_entry(t, t[k].1, 29, 10);
            lemma_skip_entry(t, t[k].1, 30, 10);
            assert(t[k].1.subrange(0, t[31].0.len() as int) =~= t[31].0);
        } else if k == 32 {
            lemma_skip_entry(t, t[k].1, 0, 0);
            lemma_skip_entry(t, t[k].1, 1, 0);
            lemma_skip_entry(t, t[k].1, 2, 7);
            lemma_skip_entry(t, t[k].1, 3, 0);
            lemma_skip_entry(t, t[k].1, 4, 7);
            lemma_skip_entry(t, t[k].1, 5, 0);
            lemma_skip_entry(t, t[k].1, 6, 7);
            lemma_skip_entry(t, t[k].1, 7, 0);
            lemma_skip_entry(t, t[k].1, 8, 7);
            lemma_skip_entry(t, t[k].1, 9, 7);
            lemma_skip_entry(t, t[k].1, 10, 7);
            lemma_skip_entry(t, t[k].1, 11, 7);
            lemma_skip_entry(t, t[k].1, 12, 7);
            lemma_skip_entry(t, t[k].1, 13, 7);
            lemma_skip_entry(t, t[k].1, 14, 7);
            lemma_skip_entry(t, t[k].1, 15, 7);
            lemma_skip_entry(t, t[k].1, 16, 0);
            lemma_skip_entry(t, t[k].1, 17, 1);
            lemma_skip_entry(t, t[k].1, 18, 0);
            lemma_skip_entry(t, t[k].1, 19, 0);
            lemma_skip_entry(t, t[k].1, 20, 0);
            lemma_skip_entry(t, t[k].1, 21, 7);
            lemma_skip_entry(t, t[k].1, 22, 7);
            lemma_skip_entry(t, t[k].1, 23, 7);
            lemma_skip_entry(t, t[k].1, 24, 7);
            lemma_skip_entry(t, t[k].1, 25, 7);
            lemma_skip_entry(t, t[k].1, 26, 1);
            lemma_skip_entry(t, t[k].1, 27, 7);
            lemma_skip_entry(t, t[k].1, 28, 7);
            lemma_skip_entry(t, t[k].1, 29, 7);
            lemma_skip_entry(t, t[k].1, 30, 7);
            lemma_skip_entry(t, t[k].1, 31, 7);
            lemma_skip_entry(t, t[k].1, 32, 7);
            lemma_skip_entry(t, t[k].1, 33, 7);
            lemma_skip_entry(t, t[k].1, 34, 7);
            lemma_skip_entry(t, t[k].1, 35, 0);
            lemma_skip_entry(t, t[k].1, 36, 7);
            lemma_skip_entry(t, t[k].1, 37, 7);
            lemma_skip_entry(t, t[k].1, 38, 7);
            lemma_skip_entry(t, t[k].1, 39, 0);
            lemma_skip_entry(t, t[k].1, 40, 7);
            lemma_skip_entry(t, t[k].1, 41, 0);
            lemma_skip_entry(t, t[k].1, 42, 0);
            lemma_skip_entry(t, t[k].1, 43, 0);
            lemma_skip_entry(t, t[k].1, 44, 7);
            lemma_skip_entry(t, t[k].1, 45, 0);
            lemma_skip_entry(t, t[k].1, 46, 7);
            lemma_skip_entry(t, t[k].1, 47, 7);
        } else if k == 33 {
            lemma_skip_entry(t, t[k].1, 0, 0);
            lemma_skip_entry(t, t[k].1, 1, 0);
            lemma_skip_entry(t, t[k].1, 2, 0);
            lemma_skip_entry(t, t[k].1, 3, 0);
            lemma_skip_entry(t, t[k].1, 4, 0);
            lemma_skip_entry(t, t[k].1, 5, 0);
            lemma_skip_entry(t, t[k].1, 6, 12);
            lemma_skip_entry(t, t[k].1, 7, 0);
            lemma_skip_entry(t, t[k].1, 8, 12);
            lemma_skip_entry(t, t[k].1, 9, 0);
            lemma_skip_entry(t, t[k].1, 10, 12);
            lemma_skip_entry(t, t[k].1, 11, 12);
            lemma_skip_entry(t, t[k].1, 12, 0);
            lemma_skip_entry(t, t[k].1, 13, 1);
            lemma_skip_entry(t, t[k].1, 14, 0);
            lemma_skip_entry(t, t[k].1, 15, 0);
            lemma_skip_entry(t, t[k].1, 16, 0);
            lemma_skip_entry(t, t[k].1, 17, 0);
            lemma_skip_entry(t, t[k].1, 18, 0);
            lemma_skip_entry(t, t[k].1, 19, 0);
            lemma_skip_entry(t, t[k].1, 20, 0);
            lemma_skip_entry(t, t[k].1, 21, 0);
            lemma_skip_entry(t, t[k].1, 22, 0);
            lemma_skip_entry(t, t[k].1, 23, 0);
            lemma_skip_entry(t, t[k].1, 24, 0);
            lemma_skip_entry(t, t[k].1, 25, 0);
            lemma_skip_entry(t, t[k].1, 26, 0);
            lemma_skip_entry(t, t[k].1, 27, 12);
            lemma_skip_entry(t, t[k].1, 28, 0);
            lemma_skip_entry(t, t[k].1, 29, 0);
            lemma_skip_entry(t, t[k].1, 30, 12);
            lemma_skip_entry(t, t[k].1, 31, 0);
            lemma_skip_entry(t, t[k].1, 32, 12);
            assert(t[k].1.subrange(0, t[33].0.len() as int) =~= t[33].0);
        } else if k == 34 {
            lemma_skip_entry(t, t[k].1, 0, 0);
            lemma_skip_entry(t, t[k].1, 1, 0);
            lemma_skip_entry(t, t[k].1, 2, 0);
            lemma_skip_entry(t, t[k].1, 3, 0);
            lemma_skip_entry(t, t[k].1, 4, 0);
            lemma_skip_entry(t, t[k].1, 5, 0);
            lemma_skip_entry(t, t[k].1, 6, 0);
            lemma_skip_entry(t, t[k].1, 7, 0);
            lemma_skip_entry(t, t[k].1, 8, 0);
            lemma_skip_entry(t, t[k].1, 9, 0);
            lemma_skip_entry(t, t[k].1, 10, 0);
            lemma_skip_entry(t, t[k].1, 11, 0);
            lemma_skip_entry(t, t[k].1, 12, 0);
            lemma_skip_entry(t, t[k].1, 13, 0);
            lemma_skip_entry(t, t[k].1, 14, 0);
            lemma_skip_entry(t, t[k].1, 15, 0);
            lemma_skip_entry(t, t[k].1, 16, 0);
            lemma_skip_entry(t, t[k].1, 17, 0);
            lemma_skip_entry(t, t[k].1, 18, 0);
            lemma_skip_entry(t, t[k].1, 19, 0);
            lemma_skip_entry(t, t[k].1, 20, 0);
            lemma_skip_entry(t, t[k].1, 21, 0);
            lemma_skip_entry(t, t[k].1, 22, 0);
            lemma_skip_entry(t, t[k].1, 23, 0);
            lemma_skip_entry(t, t[k].1, 24, 0);
            lemma_skip_entry(t, t[k].1, 25, 0);
            lemma_skip_entry(t, t[k].1, 26, 0);
            lemma_skip_entry(t, t[k].1, 27, 0);
            lemma_skip_entry(t, t[k].1, 28, 0);
            lemma_skip_entry(t, t[k].1, 29, 0);
            lemma_skip_entry(t, t[k].1, 30, 17);
            lemma_skip_entry(t, t[k].1, 31, 0);
            lemma_skip_entry(t, t[k].1, 32, 0);
            lemma_skip_entry(t, t[k].1, 33, 0);
            assert(t[k].1.subrange(0, t[34].0.len() as int) =~= t[34].0);
        } else if k == 35 {
            lemma_skip_entry(t, t[k].1, 0, 0);
            lemma_skip_entry(t, t[k].1, 1, 0);
            lemma_skip_entry(t, t[k].1, 2, 6);
            lemma_skip_entry(t, t[k].1, 3, 0);
            lemma_skip_entry(t, t[k].1, 4, 6);
            lemma_skip_entry(t, t[k].1, 5, 0);
            lemma_skip_entry(t, t[k].1, 6, 6);
            lemma_skip_entry(t, t[k].1, 7, 0);
            lemma_skip_entry(t, t[k].1, 8, 6);
            lemma_skip_entry(t, t[k].1, 9, 6);
            lemma_skip_entry(t, t[k].1, 10, 6);
            lemma_skip_entry(t, t[k].1, 11, 6);
            lemma_skip_entry(t, t[k].1, 12, 6);
            lemma_skip_entry(t, t[k].1, 13, 6);
            lemma_skip_entry(t, t[k].1, 14, 6);
            lemma_skip_entry(t, t[k].1, 15, 6);
            lemma_skip_entry(t, t[k].1, 16, 0);
            lemma_skip_entry(t, t[k].1, 17, 0);
            lemma_skip_entry(t, t[k].1, 18, 0);
            lemma_skip_entry(t, t[k].1, 19, 0);
            lemma_skip_entry(t, t[k].1, 20, 0);
            lemma_skip_entry(t, t[k].1, 21, 6);
            lemma_skip_entry(t, t[k].1, 22, 6);
            lemma_skip_entry(t, t[k].1, 23, 6);
            lemma_skip_entry(t, t[k].1, 24, 6);
            lemma_skip_entry(t, t[k].1, 25, 6);
            lemma_skip_entry(t, t[k].1, 26, 0);
            lemma_skip_entry(t, t[k].1, 27, 6);
            lemma_skip_entry(t, t[k].1, 28, 6);
            lemma_skip_entry(t, t[k].1, 29, 6);
            lemma_skip_entry(t, t[k].1, 30, 6);
            lemma_skip_entry(t, t[k].1, 31, 6);
            lemma_skip_entry(t, t[k].1, 32, 6);
            lemma_skip_entry(t, t[k].1, 33, 6);
            lemma_skip_entry(t, t[k].1, 34, 6);
            assert(t[k].1.subrange(0, t[35].0.len() as int) =~= t[35].0);
        } else if k == 36 {
            lemma_skip_entry(t, t[k].1, 0, 0);
            lemma_skip_entry(t, t[k].1, 1, 0);
            lemma_skip_entry(t, t[k].1, 2, 1);
            lemma_skip_entry(t, t[k].1, 3, 0);
            lemma_skip_entry(t, t[k].1, 4, 1);
            lemma_skip_entry(t, t[k].1, 5, 0);
            lemma_skip_entry(t, t[k].1, 6, 11);
            lemma_skip_entry(t, t[k].1, 7, 0);
            lemma_skip_entry(t, t[k].1, 8, 11);
            lemma_skip_entry(t, t[k].1, 9, 0);
            lemma_skip_entry(t, t[k].1, 10, 11);
            lemma_skip_entry(t, t[k].1, 11, 11);
            lemma_skip_entry(t, t[k].1, 12, 0);
            lemma_skip_entry(t, t[k].1, 13, 0);
            lemma_skip_entry(t, t[k].1, 14, 0);
            lemma_skip_entry(t, t[k].1, 15, 0);
            lemma_skip_entry(t, t[k].1, 16, 0);
            lemma_skip_entry(t, t[k].1, 17, 0);
            lemma_skip_entry(t, t[k].1, 18, 0);
            lemma_skip_entry(t, t[k].1, 19, 0);
            lemma_skip_entry(t, t[k].1, 20, 0);
            lemma_skip_entry(t, t[k].1, 21, 0);
            lemma_skip_entry(t, t[k].1, 22, 0);
            lemma_skip_entry(t, t[k].1, 23, 0);
            lemma_skip_entry(t, t[k].1, 24, 0);
            lemma_skip_entry(t, t[k].1, 25, 0);
            lemma_skip_entry(t, t[k].1, 26, 0);
            lemma_skip_entry(t, t[k].1, 27, 11);
            lemma_skip_entry(t, t[k].1, 28, 11);
            lemma_skip_entry(t, t[k].1, 29, 11);
            lemma_skip_entry(t, t[k].1, 30, 11);
            lemma_skip_entry(t, t[k].1, 31, 0);
            lemma_skip_entry(t, t[k].1, 32, 11);
            lemma_skip_entry(t, t[k].1, 33, 11);
            lemma_skip_entry(t, t[k].1, 34, 11);
            lemma_skip_entry(t, t[k].1, 35, 0);
            assert(t[k].1.subrange(0, t[36].0.len() as int) =~= t[36].0);
        } else if k == 37 {
            lemma_skip_entry(t, t[k].1, 0, 0);
            lemma_skip_entry(t, t[k].1, 1, 0);
            lemma_skip_entry(t, t[k].1, 2, 10);
            lemma_skip_entry(t, t[k].1, 3, 0);
            lemma_skip_entry(t, t[k].1, 4, 0);
            lemma_skip_entry(t, t[k].1, 5, 0);
            lemma_skip_entry(t, t[k].1, 6, 10);
            lemma_skip_entry(t, t[k].1, 7, 0);
            lemma_skip_entry(t, t[k].1, 8, 10);
            lemma_skip_entry(t, t[k].1, 9, 0);
            lemma_skip_entry(t, t[k].1, 10, 10);
            lemma_skip_entry(t, t[k].1, 11, 10);
            lemma_skip_entry(t, t[k].1, 12, 10);
            lemma_skip_entry(t, t[k].1, 13, 1);
            lemma_skip_entry(t, t[k].1, 14, 0);
            lemma_skip_entry(t, t[k].1, 15, 10);
            lemma_skip_entry(t, t[k].1, 16, 0);
            lemma_skip_entry(t, t[k].1, 17, 0);
            lemma_skip_entry(t, t[k].1, 18, 0);
            lemma_skip_entry(t, t[k].1, 19, 0);
            lemma_skip_entry(t, t[k].1, 20, 0);
            lemma_skip_entry(t, t[k].1, 21, 0);
            lemma_skip_entry(t, t[k].1, 22, 10);
            lemma_skip_entry(t, t[k].1, 23, 0);
            lemma_skip_entry(t, t[k].1, 24, 0);
            lemma_skip_entry(t, t[k].1, 25, 0);
            lemma_skip_entry(t, t[k].1, 26, 0);
            lemma_skip_entry(t, t[k].1, 27, 10);
            lemma_skip_entry(t, t[k].1, 28, 10);
            lemma_skip_entry(t, t[k].1, 29, 10);
            lemma_skip_entry(t, t[k].1, 30, 10);
            lemma_skip_entry(t, t[k].1, 31, 0);
            lemma_skip_entry(t, t[k].1, 32, 10);
            lemma_skip_entry(t, t[k].1, 33, 10);
            lemma_skip_entry(t, t[k].1, 34, 10);
            lemma_skip_entry(t, t[k].1, 35, 0);
            lemma_skip_entry(t, t[k].1, 36, 10);
            assert(t[k].1.subrange(0, t[37].0.len() as int) =~= t[37].0);
        } else if k == 38 {
            lemma_skip_entry(t, t[k].1, 0, 0);
            lemma_skip_entry(t, t[k].1, 1, 0);
            lemma_skip_entry(t, t[k].1, 2, 8);
            lemma_skip_entry(t, t[k].1, 3, 0);
            lemma_skip_entry(t, t[k].1, 4, 0);
            lemma_skip_entry(t, t[k].1, 5, 0);
            lemma_skip_entry(t, t[k].1, 6, 8);
            lemma_skip_entry(t, t[k].1, 7, 0);
            lemma_skip_entry(t, t[k].1, 8, 8);
            lemma_skip_entry(t, t[k].1, 9, 0);
            lemma_skip_entry(t, t[k].1, 10, 8);
            lemma_skip_entry(t, t[k].1, 11, 8);
            lemma_skip_entry(t, t[k].1, 12, 8);
            lemma_skip_entry(t, t[k].1, 13, 0);
            lemma_skip_entry(t, t[k].1, 14, 8);
            lemma_skip_entry(t, t[k].1, 15, 8);
            lemma_skip_entry(t, t[k].1, 16, 0);
            lemma_skip_entry(t, t[k].1, 17, 0);
            lemma_skip_entry(t, t[k].1, 18, 0);
            lemma_skip_entry(t, t[k].1, 19, 0);
            lemma_skip_entry(t, t[k].1, 20, 0);
            lemma_skip_entry(t, t[k].1, 21, 0);
            lemma_skip_entry(t, t[k].1, 22, 8);
            lemma_skip_entry(t, t[k].1, 23, 1);
            lemma_skip_entry(t, t[k].1, 24, 8);
            lemma_skip_entry(t, t[k].1, 25, 0);
            lemma_skip_entry(t, t[k].1, 26, 0);
            lemma_skip_entry(t, t[k].1, 27, 8);
            lemma_skip_entry(t, t[k].1, 28, 8);
            lemma_skip_entry(t, t[k].1, 29, 8);
            lemma_skip_entry(t, t[k].1, 30, 8);
            lemma_skip_entry(t, t[k].1, 31, 8);
            lemma_skip_entry(t, t[k].1, 32, 8);
            lemma_skip_entry(t, t[k].1, 33, 8);
            lemma_skip_entry(t, t[k].1, 34, 8);
            lemma_skip_entry(t, t[k].1, 35, 1);
            lemma_skip_entry(t, t[k].1, 36, 8);
            lemma_skip_entry(t, t[k].1, 37, 8);
            assert(t[k].1.subrange(0, t[38].0.len() as int) =~= t[38].0);
        } else if k == 39 {
            lemma_skip_entry(t, t[k].1, 0, 5);
            lemma_skip_entry(t, t[k].1, 1, 0);
            lemma_skip_entry(t, t[k].1, 2, 5);
            lemma_skip_entry(t, t[k].1, 3, 0);
            lemma_skip_entry(t, t[k].1, 4, 5);
            lemma_skip_entry(t, t[k].1, 5, 5);
            lemma_skip_entry(t, t[k].1, 6, 5);
            lemma_skip_entry(t, t[k].1, 7, 0);
            lemma_skip_entry(t, t[k].1, 8, 5);
            lemma_skip_entry(t, t[k].1, 9, 5);
            lemma_skip_entry(t, t[k].1, 10, 5);
            lemma_skip_entry(t, t[k].1, 11, 5);
            lemma_skip_entry(t, t[k].1, 12, 5);
            lemma_skip_entry(t, t[k].1, 13, 5);
            lemma_skip_entry(t, t[k].1, 14, 5);
            lemma_skip_entry(t, t[k].1, 15, 5);
            lemma_skip_entry(t, t[k].1, 16, 5);
            lemma_skip_entry(t, t[k].1, 17, 0);
            lemma_skip_entry(t, t[k].1, 18, 5);
            lemma_skip_entry(t, t[k].1, 19, 5);
            lemma_skip_entry(t, t[k].1, 20, 0);
            lemma_skip_entry(t, t[k].1, 21, 5);
            lemma_skip_entry(t, t[k].1, 22, 5);
            lemma_skip_entry(t, t[k].1, 23, 5);
            lemma_skip_entry(t, t[k].1, 24, 5);
            lemma_skip_entry(t, t[k].1, 25, 5);
            lemma_skip_entry(t, t[k].1, 26, 5);
            lemma_skip_entry(t, t[k].1, 27, 5);
            lemma_skip_entry(t, t[k].1, 28, 5);
            lemma_skip_entry(t, t[k].1, 29, 5);
            lemma_skip_entry(t, t[k].1, 30, 5);
            lemma_skip_entry(t, t[k].1, 31, 5);
            lemma_skip_entry(t, t[k].1, 32, 5);
            lemma_skip_entry(t, t[k].1, 33, 5);
            lemma_skip_entry(t, t[k].1, 34, 5);
            lemma_skip_entry(t, t[k].1, 35, 5);
            lemma_skip_entry(t, t[k].1, 36, 5);
            lemma_skip_entry(t, t[k].1, 37, 5);
            lemma_skip_entry(t, t[k].1, 38, 5);
            assert(t[k].1.subrange(0, t[39].0.len() as int) =~= t[39].0);
        } else if k == 40 {
            lemma_skip_entry(t, t[k].1, 0, 0);
            lemma_skip_entry(t, t[k].1, 1, 0);
            lemma_skip_entry(t, t[k].1, 2, 8);
            lemma_skip_entry(t, t[k].1, 3, 0);
            lemma_skip_entry(t, t[k].1, 4, 0);
            lemma_skip_entry(t, t[k].1, 5, 0);
            lemma_skip_entry(t, t[k].1, 6, 8);
            lemma_skip_entry(t, t[k].1, 7, 0);
            lemma_skip_entry(t, t[k].1, 8, 8);
            lemma_skip_entry(t, t[k].1, 9, 0);
            lemma_skip_entry(t, t[k].1, 10, 8);
            lemma_skip_entry(t, t[k].1, 11, 8);
            lemma_skip_entry(t, t[k].1, 12, 8);
            lemma_skip_entry(t, t[k].1, 13, 0);
            lemma_skip_entry(t, t[k].1, 14, 8);
            lemma_skip_entry(t, t[k].1, 15, 8);
            lemma_skip_entry(t, t[k].1, 16, 0);
            lemma_skip_entry(t, t[k].1, 17, 0);
            lemma_skip_entry(t, t[k].1, 18, 0);
            lemma_skip_entry(t, t[k].1, 19, 0);
            lemma_skip_entry(t, t[k].1, 20, 0);
            lemma_skip_entry(t, t[k].1, 21, 0);
            lemma_skip_entry(t, t[k].1, 22, 8);
            lemma_skip_entry(t, t[k].1, 23, 0);
            lemma_skip_entry(t, t[k].1, 24, 8);
            lemma_skip_entry(t, t[k].1, 25, 0);
            lemma_skip_entry(t, t[k].1, 26, 0);
            lemma_skip_entry(t, t[k].1, 27, 8);
            lemma_skip_entry(t, t[k].1, 28, 8);
            lemma_skip_entry(t, t[k].1, 29, 8);
            lemma_skip_entry(t, t[k].1, 30, 8);
            lemma_skip_entry(t, t[k].1, 31, 8);
            lemma_skip_entry(t, t[k].1, 32, 8);
            lemma_skip_entry(t, t[k].1, 33, 8);
            lemma_skip_entry(t, t[k].1, 34, 8);
            lemma_skip_entry(t, t[k].1, 35, 0);
            lemma_skip_entry(t, t[k].1, 36, 8);
            lemma_skip_entry(t, t[k].1, 37, 8);
            lemma_skip_entry(t, t[k].1, 38, 0);
            lemma_skip_entry(t, t[k].1, 39, 0);
            assert(t[k].1.subrange(0, t[40].0.len() as int) =~= t[40].0);
        } else if k == 41 {
            lemma_skip_entry(t, t[k].1, 0, 0);
            lemma_skip_entry(t, t[k].1, 1, 0);
            lemma_skip_entry(t, t[k].1, 2, 9);
            lemma_skip_entry(t, t[k].1, 3, 0);
            lemma_skip_entry(t, t[k].1, 4, 0);
            lemma_skip_entry(t, t[k].1, 5, 0);
            lemma_skip_entry(t, t[k].1, 6, 9);
            lemma_skip_entry(t, t[k].1, 7, 0);
            lemma_skip_entry(t, t[k].1, 8, 9);
            lemma_skip_entry(t, t[k].1, 9, 0);
            lemma_skip_entry(t, t[k].1, 10, 9);
            lemma_skip_entry(t, t[k].1, 11, 9);
            lemma_skip_entry(t, t[k].1, 12, 9);
            lemma_skip_entry(t, t[k].1, 13, 0);
            lemma_skip_entry(t, t[k].1, 14, 0);
            lemma_skip_entry(t, t[k].1, 15, 9);
            lemma_skip_entry(t, t[k].1, 16, 0);
            lemma_skip_entry(t, t[k].1, 17, 0);
            lemma_skip_entry(t, t[k].1, 18, 0);
            lemma_skip_entry(t, t[k].1, 19, 0);
            lemma_skip_entry(t, t[k].1, 20, 0);
            lemma_skip_entry(t, t[k].1, 21, 0);
            lemma_skip_entry(t, t[k].1, 22, 9);
            lemma_skip_entry(t, t[k].1, 23, 0);
            lemma_skip_entry(t, t[k].1, 24, 9);
            lemma_skip_entry(t, t[k].1, 25, 0);
            lemma_skip_entry(t, t[k].1, 26, 0);
            lemma_skip_entry(t, t[k].1, 27, 9);
            lemma_skip_entry(t, t[k].1, 28, 9);
            lemma_skip_entry(t, t[k].1, 29, 9);
            lemma_skip_entry(t, t[k].1, 30, 9);
            lemma_skip_entry(t, t[k].1, 31, 9);
            lemma_skip_entry(t, t[k].1, 32, 9);
            lemma_skip_entry(t, t[k].1, 33, 9);
            lemma_skip_entry(t, t[k].1, 34, 9);
            lemma_skip_entry(t, t[k].1, 35, 0);
            lemma_skip_entry(t, t[k].1, 36, 9);
            lemma_skip_entry(t, t[k].1, 37, 9);
            lemma_skip_entry(t, t[k].1, 38, 0);
            lemma_skip_entry(t, t[k].1, 39, 0);
            lemma_skip_entry(t, t[k].1, 40, 0);
            lemma_skip_entry(t, t[k].1, 41, 1);
            lemma_skip_entry(t, t[k].1, 42, 0);
            lemma_skip_entry(t, t[k].1, 43, 0);
            lemma_skip_entry(t, t[k].1, 44, 9);
            lemma_skip_entry(t, t[k].1, 45, 0);
            lemma_skip_entry(t, t[k].1, 46, 0);
            lemma_skip_entry(t, t[k].1, 47, 9);
        } else if k == 42 {
            lemma_skip_entry(t, t[k].1, 0, 0);
            lemma_skip_entry(t, t[k].1, 1, 0);
            lemma_skip_entry(t, t[k].1, 2, 7);
            lemma_skip_entry(t, t[k].1, 3, 0);
            lemma_skip_entry(t, t[k].1, 4, 7);
            lemma_skip_entry(t, t[k].1, 5, 0);
            lemma_skip_entry(t, t[k].1, 6, 7);
            lemma_skip_entry(t, t[k].1, 7, 0);
            lemma_skip_entry(t, t[k].1, 8, 7);
            lemma_skip_entry(t, t[k].1, 9, 7);
            lemma_skip_entry(t, t[k].1, 10, 7);
            lemma_skip_entry(t, t[k].1, 11, 7);
            lemma_skip_entry(t, t[k].1, 12, 7);
            lemma_skip_entry(t, t[k].1, 13, 7);
            lemma_skip_entry(t, t[k].1, 14, 7);
            lemma_skip_entry(t, t[k].1, 15, 7);
            lemma_skip_entry(t, t[k].1, 16, 0);
            lemma_skip_entry(t, t[k].1, 17, 0);
            lemma_skip_entry(t, t[k].1, 18, 0);
            lemma_skip_entry(t, t[k].1, 19, 0);
            lemma_skip_entry(t, t[k].1, 20, 0);
            lemma_skip_entry(t, t[k].1, 21, 7);
            lemma_skip_entry(t, t[k].1, 22, 7);
            lemma_skip_entry(t, t[k].1, 23, 7);
            lemma_skip_entry(t, t[k].1, 24, 7);
            lemma_skip_entry(t, t[k].1, 25, 7);
            lemma_skip_entry(t, t[k].1, 26, 0);
            lemma_skip_entry(t, t[k].1, 27, 7);
            lemma_skip_entry(t, t[k].1, 28, 7);
            lemma_skip_entry(t, t[k].1, 29, 7);
            lemma_skip_entry(t, t[k].1, 30, 7);
            lemma_skip_entry(t, t[k].1, 31, 7);
            lemma_skip_entry(t, t[k].1, 32, 7);
            lemma_skip_entry(t, t[k].1, 33, 7);
            lemma_skip_entry(t, t[k].1, 34, 7);
            lemma_skip_entry(t, t[k].1, 35, 1);
            lemma_skip_entry(t, t[k].1, 36, 7);
            lemma_skip_entry(t, t[k].1, 37, 7);
            lemma_skip_entry(t, t[k].1, 38, 7);
            lemma_skip_entry(t, t[k].1, 39, 0);
            lemma_skip_entry(t, t[k].1, 40, 7);
            lemma_skip_entry(t, t[k].1, 41, 0);
            assert(t[k].1.subrange(0, t[42].0.len() as int) =~= t[42].0);
        } else if k == 43 {
            lemma_skip_entry(t, t[k].1, 0, 0);
            lemma_skip_entry(t, t[k].1, 1, 0);
            lemma_skip_entry(t, t[k].1, 2, 6);
            lemma_skip_entry(t, t[k].1, 3, 0);
            lemma_skip_entry(t, t[k].1, 4, 6);
            lemma_skip_entry(t, t[k].1, 5, 0);
            lemma_skip_entry(t, t[k].1, 6, 6);
            lemma_skip_entry(t, t[k].1, 7, 0);
            lemma_skip_entry(t, t[k].1, 8, 6);
            lemma_skip_entry(t, t[k].1, 9, 6);
            lemma_skip_entry(t, t[k].1, 10, 6);
            lemma_skip_entry(t, t[k].1, 11, 6);
            lemma_skip_entry(t, t[k].1, 12, 6);
            lemma_skip_entry(t, t[k].1, 13, 6);
            lemma_skip_entry(t, t[k].1, 14, 6);
            lemma_skip_entry(t, t[k].1, 15, 6);
            lemma_skip_entry(t, t[k].1, 16, 0);
            lemma_skip_entry(t, t[k].1, 17, 0);
            lemma_skip_entry(t, t[k].1, 18, 0);
            lemma_skip_entry(t, t[k].1, 19, 0);
            lemma_skip_entry(t, t[k].1, 20, 0);
            lemma_skip_entry(t, t[k].1, 21, 6);
            lemma_skip_entry(t, t[k].1, 22, 6);
            lemma_skip_entry(t, t[k].1, 23, 6);
            lemma_skip_entry(t, t[k].1, 24, 6);
            lemma_skip_entry(t, t[k].1, 25, 6);
            lemma_skip_entry(t, t[k].1, 26, 0);
            lemma_skip_entry(t, t[k].1, 27, 6);
            lemma_skip_entry(t, t[k].1, 28, 6);
            lemma_skip_entry(t, t[k].1, 29, 6);
            lemma_skip_entry(t, t[k].1, 30, 6);
            lemma_skip_entry(t, t[k].1, 31, 6);
            lemma_skip_entry(t, t[k].1, 32, 6);
            lemma_skip_entry(t, t[k].1, 33, 6);
            lemma_skip_entry(t, t[k].1, 34, 6);
            lemma_skip_entry(t, t[k].1, 35, 0);
            lemma_skip_entry(t, t[k].1, 36, 6);
            lemma_skip_entry(t, t[k].1, 37, 6);
            lemma_skip_entry(t, t[k].1, 38, 6);
            lemma_skip_entry(t, t[k].1, 39, 0);
            lemma_skip_entry(t, t[k].1, 40, 6);
            lemma_skip_entry(t, t[k].1, 41, 0);
            lemma_skip_entry(t, t[k].1, 42, 6);
            assert(t[k].1.subrange(0, t[43].0.len() as int) =~= t[43].0);
        } else if k == 44 {
            lemma_skip_entry(t, t[k].1, 0, 0);
            lemma_skip_entry(t, t[k].1, 1, 0);
            lemma_skip_entry(t, t[k].1, 2, 0);
            lemma_skip_entry(t, t[k].1, 3, 0);
            lemma_skip_entry(t, t[k].1, 4, 0);
            lemma_skip_entry(t, t[k].1, 5, 1);
            lemma_skip_entry(t, t[k].1, 6, 12);
            lemma_skip_entry(t, t[k].1, 7, 0);
            lemma_skip_entry(t, t[k].1, 8, 12);
            lemma_skip_entry(t, t[k].1, 9, 0);
            lemma_skip_entry(t, t[k].1, 10, 12);
            lemma_skip_entry(t, t[k].1, 11, 12);
            lemma_skip_entry(t, t[k].1, 12, 0);
            lemma_skip_entry(t, t[k].1, 13, 0);
            lemma_skip_entry(t, t[k].1, 14, 0);
            lemma_skip_entry(t, t[k].1, 15, 0);
            lemma_skip_entry(t, t[k].1, 16, 0);
            lemma_skip_entry(t, t[k].1, 17, 0);
            lemma_skip_entry(t, t[k].1, 18, 0);
            lemma_skip_entry(t, t[k].1, 19, 0);
            lemma_skip_entry(t, t[k].1, 20, 0);
            lemma_skip_entry(t, t[k].1, 21, 0);
            lemma_skip_entry(t, t[k].1, 22, 0);
            lemma_skip_entry(t, t[k].1, 23, 0);
            lemma_skip_entry(t, t[k].1, 24, 0);
            lemma_skip_entry(t, t[k].1, 25, 0);
            lemma_skip_entry(t, t[k].1, 26, 0);
            lemma_skip_entry(t, t[k].1, 27, 12);
            lemma_skip_entry(t, t[k].1, 28, 0);
            lemma_skip_entry(t, t[k].1, 29, 0);
            lemma_skip_entry(t, t[k].1, 30, 12);
            lemma_skip_entry(t, t[k].1, 31, 0);
            lemma_skip_entry(t, t[k].1, 32, 12);
            lemma_skip_entry(t, t[k].1, 33, 0);
            lemma_skip_entry(t, t[k].1, 34, 12);
            lemma_skip_entry(t, t[k].1, 35, 0);
            lemma_skip_entry(t, t[k].1, 36, 0);
            lemma_skip_entry(t, t[k].1, 37, 0);
            lemma_skip_entry(t, t[k].1, 38, 0);
            lemma_skip_entry(t, t[k].1, 39, 0);
            lemma_skip_entry(t, t[k].1, 40, 0);
            lemma_skip_entry(t, t[k].1, 41, 0);
            lemma_skip_entry(t, t[k].1, 42, 0);
            lemma_skip_entry(t, t[k].1, 43, 0);
            lemma_skip_entry(t, t[k].1, 44, 10);
            lemma_skip_entry(t, t[k].1, 45, 0);
            lemma_skip_entry(t, t[k].1, 46, 0);
            lemma_skip_entry(t, t[k].1, 47, 12);
        } else if k == 45 {
            lemma_skip_entry(t, t[k].1, 0, 0);
            lemma_skip_entry(t, t[k].1, 1, 0);
            lemma_skip_entry(t, t[k].1, 2, 6);
            lemma_skip_entry(t, t[k].1, 3, 0);
            lemma_skip_entry(t, t[k].1, 4, 6);
            lemma_skip_entry(t, t[k].1, 5, 0);
            lemma_skip_entry(t, t[k].1, 6, 6);
            lemma_skip_entry(t, t[k].1, 7, 0);
            lemma_skip_entry(t, t[k].1, 8, 6);
            lemma_skip_entry(t, t[k].1, 9, 6);
            lemma_skip_entry(t, t[k].1, 10, 6);
            lemma_skip_entry(t, t[k].1, 11, 6);
            lemma_skip_entry(t, t[k].1, 12, 6);
            lemma_skip_entry(t, t[k].1, 13, 6);
            lemma_skip_entry(t, t[k].1, 14, 6);
            lemma_skip_entry(t, t[k].1, 15, 6);
            lemma_skip_entry(t, t[k].1, 16, 0);
            lemma_skip_entry(t, t[k].1, 17, 0);
            lemma_skip_entry(t, t[k].1, 18, 0);
            lemma_skip_entry(t, t[k].1, 19, 0);
            lemma_skip_entry(t, t[k].1, 20, 0);
            lemma_skip_entry(t, t[k].1, 21, 6);
            lemma_skip_entry(t, t[k].1, 22, 6);
            lemma_skip_entry(t, t[k].1, 23, 6);
            lemma_skip_entry(t, t[k].1, 24, 6);
            lemma_skip_entry(t, t[k].1, 25, 6);
            lemma_skip_entry(t, t[k].1, 26, 0);
            lemma_skip_entry(t, t[k].1, 27, 6);
            lemma_skip_entry(t, t[k].1, 28, 6);
            lemma_skip_entry(t, t[k].1, 29, 6);
            lemma_skip_entry(t, t[k].1, 30, 6);
            lemma_skip_entry(t, t[k].1, 31, 6);
            lemma_skip_entry(t, t[k].1, 32, 6);
            lemma_skip_entry(t, t[k].1, 33, 6);
            lemma_skip_entry(t, t[k].1, 34, 6);
            lemma_skip_entry(t, t[k].1, 35, 0);
            lemma_skip_entry(t, t[k].1, 36, 6);
            lemma_skip_entry(t, t[k].1, 37, 6);
            lemma_skip_entry(t, t[k].1, 38, 6);
            lemma_skip_entry(t, t[k].1, 39, 0);
            lemma_skip_entry(t, t[k].1, 40, 6);
            lemma_skip_entry(t, t[k].1, 41, 0);
            lemma_skip_entry(t, t[k].1, 42, 6);
            lemma_skip_entry(t, t[k].1, 43, 0);
            lemma_skip_entry(t, t[k].1, 44, 6);
            assert(t[k].1.subrange(0, t[45].0.len() as int) =~= t[45].0);
        } else if k == 46 {
            lemma_skip_entry(t, t[k].1, 0, 0);
            lemma_skip_entry(t, t[k].1, 1, 0);
            lemma_skip_entry(t, t[k].1, 2, 7);
            lemma_skip_entry(t, t[k].1, 3, 0);
            lemma_skip_entry(t, t[k].1, 4, 7);
            lemma_skip_entry(t, t[k].1, 5, 0);
            lemma_skip_entry(t, t[k].1, 6, 7);
            lemma_skip_entry(t, t[k].1, 7, 0);
            lemma_skip_entry(t, t[k].1, 8, 7);
            lemma_skip_entry(t, t[k].1, 9, 7);
            lemma_skip_entry(t, t[k].1, 10, 7);
            lemma_skip_entry(t, t[k].1, 11, 7);
            lemma_skip_entry(t, t[k].1, 12, 7);
            lemma_skip_entry(t, t[k].1, 13, 7);
            lemma_skip_entry(t, t[k].1, 14, 7);
            lemma_skip_entry(t, t[k].1, 15, 7);
            lemma_skip_entry(t, t[k].1, 16, 0);
            lemma_skip_entry(t, t[k].1, 17, 0);
            lemma_skip_entry(t, t[k].1, 18, 0);
            lemma_skip_entry(t, t[k].1, 19, 0);
            lemma_skip_entry(t, t[k].1, 20, 0);
            lemma_skip_entry(t, t[k].1, 21, 7);
            lemma_skip_entry(t, t[k].1, 22, 7);
            lemma_skip_entry(t, t[k].1, 23, 7);
            lemma_skip_entry(t, t[k].1, 24, 7);
            lemma_skip_entry(t, t[k].1, 25, 7);
            lemma_skip_entry(t, t[k].1, 26, 0);
            lemma_skip_entry(t, t[k].1, 27, 7);
            lemma_skip_entry(t, t[k].1, 28, 7);
            lemma_skip_entry(t, t[k].1, 29, 7);
            lemma_skip_entry(t, t[k].1, 30, 7);
            lemma_skip_entry(t, t[k].1, 31, 7);
            lemma_skip_entry(t, t[k].1, 32, 7);
            lemma_skip_entry(t, t[k].1, 33, 7);
            lemma_skip_entry(t, t[k].1, 34, 7);
            lemma_skip_entry(t, t[k].1, 35, 0);
            lemma_skip_entry(t, t[k].1, 36, 7);
            lemma_skip_entry(t, t[k].1, 37, 7);
            lemma_skip_entry(t, t[k].1, 38, 7);
            lemma_skip_entry(t, t[k].1, 39, 1);
            lemma_skip_entry(t, t[k].1, 40, 7);
            lemma_skip_entry(t, t[k].1, 41, 0);
            lemma_skip_entry(t, t[k].1, 42, 0);
            lemma_skip_entry(t, t[k].1, 43, 0);
            lemma_skip_entry(t, t[k].1, 44, 7);
            lemma_skip_entry(t, t[k].1, 45, 0);
            lemma_skip_entry(t, t[k].1, 46, 7);
            lemma_skip_entry(t, t[k].1, 47, 7);
        } else if k == 47 {
            lemma_skip_entry(t, t[k].1, 0, 0);
            lemma_skip_entry(t, t[k].1, 1, 0);
            lemma_skip_entry(t, t[k].1, 2, 0);
            lemma_skip_entry(t, t[k].1, 3, 0);
            lemma_skip_entry(t, t[k].1, 4, 0);
            lemma_skip_entry(t, t[k].1, 5, 0);
            lemma_skip_entry(t, t[k].1, 6, 12);
            lemma_skip_entry(t, t[k].1, 7, 0);
            lemma_skip_entry(t, t[k].1, 8, 12);
            lemma_skip_entry(t, t[k].1, 9, 0);
            lemma_skip_entry(t, t[k].1, 10, 12);
            lemma_skip_entry(t, t[k].1, 11, 12);
            lemma_skip_entry(t, t[k].1, 12, 0);
            lemma_skip_entry(t, t[k].1, 13, 0);
            lemma_skip_entry(t, t[k].1, 14, 0);
            lemma_skip_entry(t, t[k].1, 15, 0);
            lemma_skip_entry(t, t[k].1, 16, 0);
            lemma_skip_entry(t, t[k].1, 17, 0);
            lemma_skip_entry(t, t[k].1, 18, 0);
            lemma_skip_entry(t, t[k].1, 19, 0);
            lemma_skip_entry(t, t[k].1, 20, 0);
            lemma_skip_entry(t, t[k].1, 21, 0);
            lemma_skip_entry(t, t[k].1, 22, 0);
            lemma_skip_entry(t, t[k].1, 23, 0);
            lemma_skip_entry(t, t[k].1, 24, 0);
            lemma_skip_entry(t, t[k].1, 25, 0);
            lemma_skip_entry(t, t[k].1, 26, 0);
            lemma_skip_entry(t, t[k].1, 27, 12);
            lemma_skip_entry(t, t[k].1, 28, 0);
            lemma_skip_entry(t, t[k].1, 29, 0);
            lemma_skip_entry(t, t[k].1, 30, 12);
            lemma_skip_entry(t, t[k].1, 31, 0);
            lemma_skip_entry(t, t[k].1, 32, 12);
            lemma_skip_entry(t, t[k].1, 33, 0);
            lemma_skip_entry(t, t[k].1, 34, 12);
            lemma_skip_entry(t, t[k].1, 35, 0);
            lemma_skip_entry(t, t[k].1, 36, 0);
            lemma_skip_entry(t, t[k].1, 37, 0);
            lemma_skip_entry(t, t[k].1, 38, 0);
            lemma_skip_entry(t, t[k].1, 39, 0);
            lemma_skip_entry(t, t[k].1, 40, 0);
            lemma_skip_entry(t, t[k].1, 41, 0);
            lemma_skip_entry(t, t[k].1, 42, 0);
            lemma_skip_entry(t, t[k].1, 43, 1);
            lemma_skip_entry(t, t[k].1, 44, 0);
            lemma_skip_entry(t, t[k].1, 45, 0);
            lemma_skip_entry(t, t[k].1, 46, 0);
            lemma_skip_entry(t, t[k].1, 47, 12);
        }
    }
}

/// Looking up a lower-cased description twice in the built-in table gives
/// what looking it up once gives.
pub proof fn lemma_standard_lookup_idempotent(lowered: Seq<char>)
    ensures
        canonical_of(standard_entries(), canonical_of(standard_entries(), lowered)) == canonical_of(
            standard_entries(),
            lowered,
        ),
{
    lemma_standard_lookup_stable();
    lemma_standardize_idempotent(standard_entries(), lowered);
}

/// `standardize_description` gives back what it is handed when handed its own
/// result, for every description whose result is unchanged by lower-casing.
pub proof fn lemma_standardize_description_idempotent(description: Seq<char>)
    requires
        lower_of(canonical_of(standard_entries(), lower_of(description))) == canonical_of(
            standard_entries(),
            lower_of(description),
        ),
    ensures
        canonical_of(standard_entries(), lower_of(canonical_of(standard_entries(), lower_of(description))))
            == canonical_of(standard_entries(), lower_of(description)),
{
    lemma_standard_lookup_stable();
    lemma_normalize_idempotent(standard_entries(), description);
}

} // verus!
