//! Income and spending totals of a batch of records, in cents.
use vstd::prelude::*;
use crate::record::BudgetRecord;

verus! {

/// Sum of the negative amounts.
pub open spec fn spending_sum(s: Seq<BudgetRecord>) -> int
    decreases s.len(),
{
    if s.len() == 0 {
        0
    } else {
        spending_sum(s.drop_last()) + if s.last().amount < 0 { s.last().amount as int } else { 0 }
    }
}

/// Sum of the amounts that are not negative.
pub open spec fn income_sum(s: Seq<BudgetRecord>) -> int
    decreases s.len(),
{
    if s.len() == 0 {
        0
    } else {
        income_sum(s.drop_last()) + if s.last().amount >= 0 { s.last().amount as int } else { 0 }
    }
}

/// Totals of a batch, in cents.
#[derive(Clone, Copy, Debug, PartialEq, Eq, Structural)]
pub struct Totals {
    /// Sum of the negative amounts.
    pub spending: i128,
    /// Sum of the amounts that are not negative.
    pub income: i128,
    /// Income plus spending.
    pub net: i128,
}

/// Splits the amounts by sign and sums each side; `net` is their sum.
pub fn aggregate(records: &Vec<BudgetRecord>) -> (r: Totals)
    ensures
        r.spending == spending_sum(records@),
        r.income == income_sum(records@),
        r.net == spending_sum(records@) + income_sum(records@),
{
    let mut spending: i128 = 0;
    let mut income: i128 = 0;
    let mut i: usize = 0;
    let n = records.len();
    while i < n
        invariant
            0 <= i <= n,
            n == records@.len(),
            spending == spending_sum(records@.take(i as int)),
            income == income_sum(records@.take(i as int)),
            -9223372036854775808 * (i as int) <= spending <= 0,
            0 <= income <= 9223372036854775807 * (i as int),
        decreases records@.len() - i,
    {
        proof {
            assert(records@.take(i + 1).drop_last() =~= records@.take(i as int));
        }
        let a = records[i].amount;
        if a < 0 {
            spending = spending + a as i128;
        } else {
            income = income + a as i128;
        }
        i = i + 1;
    }
    assert(records@.take(i as int) =~= records@);
    Totals { spending, income, net: spending + income }
}

} // verus!
