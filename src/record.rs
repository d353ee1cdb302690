//! Bank export rows: recognising which bank a file comes from, and turning
//! each row into a transaction record with spend negative and income positive.
use vstd::prelude::*;
use crate::amount::{cents_value, parse_cents};
use crate::date::{iso_date, parse_iso_date, Date};
use crate::normalize::{canonical_of, DescriptionTable};
use crate::text::{contains, contains_run, lower_of, lowercase, same_text};

verus! {

/// The bank a file of transactions comes from.
#[derive(Clone, Copy, Debug, PartialEq, Eq, Structural)]
pub enum Origin {
    /// Checking account export: `Date,Description,Original Description,Category,Amount,Status`.
    Usaa,
    /// Credit card export: `Transaction Date,Posted Date,Card No.,Description,Category,Debit,Credit`.
    CapitalOne,
}

/// Card label stored with each record of an origin.
pub open spec fn origin_label(o: Origin) -> Seq<char> {
    match o {
        Origin::Usaa => "USAA"@,
        Origin::CapitalOne => "CapitalOne"@,
    }
}

impl Origin {
    /// The card label stored with records of this origin.
    pub fn label(&self) -> (r: &'static str)
        ensures
            r@ == origin_label(*self),
    {
        match self {
            Origin::Usaa => "USAA",
            Origin::CapitalOne => "CapitalOne",
        }
    }
}

/// Why a row could not be read.
#[derive(Clone, Copy, Debug, PartialEq, Eq, Structural)]
pub enum ParseError {
    /// The row has fewer fields than the origin reads.
    MissingField,
    /// The amount field is not a decimal amount.
    BadAmount,
    /// The date field is not a `YYYY-MM-DD` date.
    BadDate,
}

/// One transaction; `amount` is in cents, negative for spending.
#[derive(Clone, Debug, PartialEq, Eq)]
pub struct BudgetRecord {
    pub amount: i64,
    pub date: Date,
    pub card: Origin,
    pub description: String,
}

/// The mathematical content of a record.
pub struct RecordView {
    pub amount: int,
    pub date: Date,
    pub card: Origin,
    pub description: Seq<char>,
}

impl View for BudgetRecord {
    type V = RecordView;

    open spec fn view(&self) -> RecordView {
        RecordView {
            amount: self.amount as int,
            date: self.date,
            card: self.card,
            description: self.description@,
        }
    }
}

pub open spec fn records_view(s: Seq<BudgetRecord>) -> Seq<RecordView> {
    s.map_values(|r: BudgetRecord| r@)
}

/// Origin named by a lower-cased first header field.
pub open spec fn header_origin(first: Seq<char>) -> Option<Origin> {
    if first == "date"@ {
        Some(Origin::Usaa)
    } else if first == "transaction date"@ {
        Some(Origin::CapitalOne)
    } else {
        None
    }
}

/// Origin of a file with this header row, compared without regard to case.
pub open spec fn classify(headers: Seq<String>) -> Option<Origin> {
    if headers.len() == 0 {
        None
    } else {
        header_origin(lower_of(headers[0]@))
    }
}

/// Text in a checking account description that marks a card payment.
pub open spec fn card_payment_marker() -> Seq<char> {
    "Capital One"@
}

/// Credit card category of a cash back reward.
pub open spec fn cash_back_category() -> Seq<char> {
    "CREDIT-CASH BACK REWARD"@
}

pub open spec fn negated(a: Option<int>) -> Option<int> {
    match a {
        Some(v) => Some(-v),
        None => None,
    }
}

/// Record made of a parsed amount and the row's date and description fields.
pub open spec fn assemble(
    t: Seq<(Seq<char>, Seq<char>)>,
    amount: Option<int>,
    date: Seq<char>,
    description: Seq<char>,
    card: Origin,
) -> Result<Option<RecordView>, ParseError> {
    match amount {
        None => Err(ParseError::BadAmount),
        Some(a) => match iso_date(date) {
            None => Err(ParseError::BadDate),
            Some(d) => Ok(
                Some(
                    RecordView {
                        amount: a,
                        date: d,
                        card,
                        description: canonical_of(t, lower_of(description)),
                    },
                ),
            ),
        },
    }
}

/// What a row yields: a record, `None` for a row that is deliberately left
/// out, or an error.
pub open spec fn row_result(t: Seq<(Seq<char>, Seq<char>)>, origin: Origin, row: Seq<String>) -> Result<
    Option<RecordView>,
    ParseError,
> {
    match origin {
        Origin::Usaa => if row.len() < 5 {
            Err(ParseError::MissingField)
        } else if contains_run(row[1]@, card_payment_marker()) {
            Ok(None)
        } else {
            assemble(t, cents_value(row[4]@), row[0]@, row[1]@, Origin::Usaa)
        },
        Origin::CapitalOne => if row.len() < 7 {
            Err(ParseError::MissingField)
        } else if row[6]@.len() > 0 {
            if row[3]@ == cash_back_category() {
                assemble(t, cents_value(row[6]@), row[0]@, row[3]@, Origin::CapitalOne)
            } else {
                Ok(None)
            }
        } else {
            assemble(t, negated(cents_value(row[5]@)), row[0]@, row[3]@, Origin::CapitalOne)
        },
    }
}

/// Origin named by a first header field that is already lower-cased.
pub fn origin_of_lowered(first: &str) -> (r: Option<Origin>)
    ensures
        r == header_origin(first@),
{
    if same_text(first, "date") {
        Some(Origin::Usaa)
    } else if same_text(first, "transaction date") {
        Some(Origin::CapitalOne)
    } else {
        None
    }
}

/// Recognises the origin of a file from its header row; `None` for a file
/// of no known origin.
pub fn classify_header(headers: &Vec<String>) -> (r: Option<Origin>)
    ensures
        r == classify(headers@),
{
    if headers.len() == 0 {
        return None;
    }
    let first = lowercase(headers[0].as_str());
    origin_of_lowered(first.as_str())
}

fn build_record(
    table: &DescriptionTable,
    amount: Option<i64>,
    date: &str,
    description: &str,
    card: Origin,
) -> (r: Result<Option<BudgetRecord>, ParseError>)
    requires
        table.wf(),
    ensures
        match assemble(
            table@,
            match amount {
                Some(a) => Some(a as int),
                None => None,
            },
            date@,
            description@,
            card,
        ) {
            Ok(Some(v)) => r is Ok && r->Ok_0 is Some && r->Ok_0->0@ == v && r->Ok_0->0.date.wf(),
            Ok(None) => r == Ok::<Option<BudgetRecord>, ParseError>(None),
            Err(e) => r == Err::<Option<BudgetRecord>, ParseError>(e),
        },
{
    let amount = match amount {
        Some(a) => a,
        None => {
            return Err(ParseError::BadAmount);
        },
    };
    let date = match parse_iso_date(date) {
        Some(d) => d,
        None => {
            return Err(ParseError::BadDate);
        },
    };
    let description = table.normalize(description);
    Ok(Some(BudgetRecord { amount, date, card, description }))
}

/// Reads one row of a file of the given origin.
///
/// A checking account row whose description mentions the card issuer is a
/// card payment and yields `Ok(None)`; so does a credit card row with a
/// credit that is not a cash back reward. A credit card debit is negated so
/// that spending is negative.
pub fn parse_record(table: &DescriptionTable, row: &Vec<String>, origin: Origin) -> (r: Result<
    Option<BudgetRecord>,
    ParseError,
>)
    requires
        table.wf(),
    ensures
        match row_result(table@, origin, row@) {
            Ok(Some(v)) => r is Ok && r->Ok_0 is Some && r->Ok_0->0@ == v && r->Ok_0->0.date.wf(),
            Ok(None) => r == Ok::<Option<BudgetRecord>, ParseError>(None),
            Err(e) => r == Err::<Option<BudgetRecord>, ParseError>(e),
        },
{
    match origin {
        Origin::Usaa => {
            if row.len() < 5 {
                return Err(ParseError::MissingField);
            }
            if contains(row[1].as_str(), "Capital One") {
                return Ok(None);
            }
            let amount = parse_cents(row[4].as_str());
            build_record(table, amount, row[0].as_str(), row[1].as_str(), Origin::Usaa)
        },
        Origin::CapitalOne => {
            if row.len() < 7 {
                return Err(ParseError::MissingField);
            }
            let amount = if !row[6].as_str().is_empty() {
                if same_text(row[3].as_str(), "CREDIT-CASH BACK REWARD") {
                    parse_cents(row[6].as_str())
                } else {
                    return Ok(None);
                }
            } else {
                match parse_cents(row[5].as_str()) {
                    Some(d) => Some(-d),
                    None => None,
                }
            };
            build_record(table, amount, row[0].as_str(), row[3].as_str(), Origin::CapitalOne)
        },
    }
}

} // verus!

verus! {

/// Records that a file's rows yield, in row order, or the error of the first
/// row that cannot be read.
pub open spec fn rows_result(t: Seq<(Seq<char>, Seq<char>)>, origin: Origin, rows: Seq<Vec<String>>) -> Result<
    Seq<RecordView>,
    ParseError,
>
    decreases rows.len(),
{
    if rows.len() == 0 {
        Ok(Seq::empty())
    } else {
        match rows_result(t, origin, rows.drop_last()) {
            Err(e) => Err(e),
            Ok(done) => match row_result(t, origin, rows.last()@) {
                Err(e) => Err(e),
                Ok(None) => Ok(done),
                Ok(Some(v)) => Ok(done.push(v)),
            },
        }
    }
}

/// Records of a file with this header row; none for a file of no known origin.
pub open spec fn file_result(t: Seq<(Seq<char>, Seq<char>)>, headers: Seq<String>, rows: Seq<Vec<String>>) -> Result<
    Seq<RecordView>,
    ParseError,
> {
    match classify(headers) {
        Some(origin) => rows_result(t, origin, rows),
        None => Ok(Seq::empty()),
    }
}

/// Reads every row of a file of the given origin; stops at the first row
/// that cannot be read.
pub fn parse_rows(table: &DescriptionTable, origin: Origin, rows: &Vec<Vec<String>>) -> (r: Result<
    Vec<BudgetRecord>,
    ParseError,
>)
    requires
        table.wf(),
    ensures
        match rows_result(table@, origin, rows@) {
            Ok(v) => r is Ok && records_view(r->Ok_0@) == v,
            Err(e) => r == Err::<Vec<BudgetRecord>, ParseError>(e),
        },
{
    let mut out: Vec<BudgetRecord> = Vec::new();
    let mut i: usize = 0;
    assert(rows@.take(0) =~= Seq::<Vec<String>>::empty());
    assert(records_view(out@) =~= Seq::<RecordView>::empty());
    while i < rows.len()
        invariant
            table.wf(),
            0 <= i <= rows@.len(),
            rows_result(table@, origin, rows@.take(i as int)) == Ok::<Seq<RecordView>, ParseError>(
                records_view(out@),
            ),
        decreases rows@.len() - i,
    {
        proof {
            assert(rows@.take(i + 1).drop_last() =~= rows@.take(i as int));
        }
        match parse_record(table, &rows[i], origin) {
            Err(e) => {
                proof {
                    lemma_rows_result_stops(table@, origin, rows@, i as int + 1);
                }
                return Err(e);
            },
            Ok(None) => {},
            Ok(Some(rec)) => {
                let ghost before = out@;
                let ghost v = rec@;
                out.push(rec);
                proof {
                    assert(records_view(out@) =~= records_view(before).push(v));
                }
            },
        }
        i = i + 1;
    }
    proof {
        assert(rows@.take(i as int) =~= rows@);
    }
    Ok(out)
}

/// Once a prefix of the rows fails, every longer prefix fails the same way.
proof fn lemma_rows_result_stops(t: Seq<(Seq<char>, Seq<char>)>, origin: Origin, rows: Seq<Vec<String>>, k: int)
    requires
        0 <= k <= rows.len(),
        rows_result(t, origin, rows.take(k)) is Err,
    ensures
        rows_result(t, origin, rows) == rows_result(t, origin, rows.take(k)),
    decreases rows.len() - k,
{
    if k < rows.len() {
        assert(rows.take(k + 1).drop_last() =~= rows.take(k));
        lemma_rows_result_stops(t, origin, rows, k + 1);
    } else {
        assert(rows.take(k) =~= rows);
    }
}

/// Reads a whole file from its header row and its data rows. A file whose
/// header names no known origin yields no records.
pub fn parse_file(table: &DescriptionTable, headers: &Vec<String>, rows: &Vec<Vec<String>>) -> (r: Result<
    Vec<BudgetRecord>,
    ParseError,
>)
    requires
        table.wf(),
    ensures
        match file_result(table@, headers@, rows@) {
            Ok(v) => r is Ok && records_view(r->Ok_0@) == v,
            Err(e) => r == Err::<Vec<BudgetRecord>, ParseError>(e),
        },
{
    match classify_header(headers) {
        Some(origin) => parse_rows(table, origin, rows),
        None => {
            let empty: Vec<BudgetRecord> = Vec::new();
            assert(records_view(empty@) =~= Seq::<RecordView>::empty());
            Ok(empty)
        },
    }
}

} // verus!

verus! {

/// A checking account row whose description mentions the card issuer yields no record.
pub proof fn lemma_card_payment_row_skipped(t: Seq<(Seq<char>, Seq<char>)>, row: Seq<String>)
    requires
        row.len() >= 5,
        contains_run(row[1]@, card_payment_marker()),
    ensures
        row_result(t, Origin::Usaa, row) == Ok::<Option<RecordView>, ParseError>(None),
{
}

/// A well-formed checking account row that does not mention the card issuer
/// yields a record with the amount exactly as written and the checking account's card.
pub proof fn lemma_checking_row_kept(t: Seq<(Seq<char>, Seq<char>)>, row: Seq<String>)
    requires
        row.len() >= 5,
        !contains_run(row[1]@, card_payment_marker()),
        cents_value(row[4]@) is Some,
        iso_date(row[0]@) is Some,
    ensures
        row_result(t, Origin::Usaa, row) is Ok,
        row_result(t, Origin::Usaa, row)->Ok_0 is Some,
        row_result(t, Origin::Usaa, row)->Ok_0->0.amount == cents_value(row[4]@)->0,
        row_result(t, Origin::Usaa, row)->Ok_0->0.card == Origin::Usaa,
{
}

/// A well-formed credit card row with a cash back reward credit yields a
/// record whose amount is the credit.
pub proof fn lemma_cash_back_row_kept(t: Seq<(Seq<char>, Seq<char>)>, row: Seq<String>)
    requires
        row.len() >= 7,
        row[6]@.len() > 0,
        row[3]@ == cash_back_category(),
        cents_value(row[6]@) is Some,
        iso_date(row[0]@) is Some,
    ensures
        row_result(t, Origin::CapitalOne, row) is Ok,
        row_result(t, Origin::CapitalOne, row)->Ok_0 is Some,
        row_result(t, Origin::CapitalOne, row)->Ok_0->0.amount == cents_value(row[6]@)->0,
        row_result(t, Origin::CapitalOne, row)->Ok_0->0.card == Origin::CapitalOne,
{
}

/// A credit card row with any other credit is a card payment and yields no record.
pub proof fn lemma_other_credit_row_skipped(t: Seq<(Seq<char>, Seq<char>)>, row: Seq<String>)
    requires
        row.len() >= 7,
        row[6]@.len() > 0,
        row[3]@ != cash_back_category(),
    ensures
        row_result(t, Origin::CapitalOne, row) == Ok::<Option<RecordView>, ParseError>(None),
{
}

/// A well-formed credit card row without a credit yields a record whose
/// amount is the debit negated.
pub proof fn lemma_debit_row_negated(t: Seq<(Seq<char>, Seq<char>)>, row: Seq<String>)
    requires
        row.len() >= 7,
        row[6]@.len() == 0,
        cents_value(row[5]@) is Some,
        iso_date(row[0]@) is Some,
    ensures
        row_result(t, Origin::CapitalOne, row) is Ok,
        row_result(t, Origin::CapitalOne, row)->Ok_0 is Some,
        row_result(t, Origin::CapitalOne, row)->Ok_0->0.amount == -cents_value(row[5]@)->0,
        row_result(t, Origin::CapitalOne, row)->Ok_0->0.card == Origin::CapitalOne,
{
}

} // verus!
