use budget::amount::parse_cents;
use budget::date::{parse_iso_date, Date};
use budget::metadata::{collect_metadata, Field, MetadataCollector, PromptOutcome, UploadDescription};
use budget::merchants::standardize_description;
use budget::normalize::DescriptionTable;
use budget::reconcile::reconcile;
use budget::record::{
    classify_header, origin_of_lowered, parse_file, parse_record, parse_rows, BudgetRecord, Origin,
    ParseError,
};
use budget::totals::aggregate;

fn strings(v: &[&str]) -> Vec<String> {
    v.iter().map(|s| s.to_string()).collect()
}

fn record(amount: i64, description: &str) -> BudgetRecord {
    BudgetRecord {
        amount,
        date: Date { year: 2024, month: 1, day: 5 },
        card: Origin::Usaa,
        description: description.to_string(),
    }
}

fn text(s: &str) -> PromptOutcome {
    PromptOutcome::Text(s.to_string())
}

#[test]
fn known_prefix_maps_to_label() {
    assert_eq!(standardize_description("AMAZON MKTPLACE"), "amazon");
    assert_eq!(standardize_description("AMZN Mktp US*2K3"), "amazon");
    assert_eq!(standardize_description("Prime Video Channels"), "tv");
    assert_eq!(standardize_description("THE HOME DEPOT #1234"), "home depot");
    assert_eq!(standardize_description("QT 123 OUTSIDE"), "quicktrip");
    assert_eq!(standardize_description("SAFEWAY #1234"), "safeway");
    assert_eq!(standardize_description("SAFEWAY FUEL 99"), "safeway fuel");
    assert_eq!(standardize_description("PAYPAL *DOMINO'S 555"), "dominos");
}

#[test]
fn first_entry_wins() {
    let mut t = DescriptionTable::new();
    t.push("am", "first");
    t.push("amazon", "second");
    assert_eq!(t.len(), 2);
    assert_eq!(t.normalize("Amazon Prime"), "first");
}

#[test]
fn unknown_description_is_lowercased() {
    assert_eq!(standardize_description("Corner Bakery Cafe"), "corner bakery cafe");
    assert_eq!(standardize_description("my amazon order"), "my amazon order");
    assert_eq!(standardize_description(""), "");
    assert_eq!(standardize_description("\u{c9}COLE CAF\u{c9}"), "\u{e9}cole caf\u{e9}");
}

#[test]
fn normalizing_twice_changes_nothing() {
    for s in ["AMAZON MKTPLACE", "Corner Bakery", "Prime Video", "Delta Air 0062", "qt 55", ""] {
        let once = standardize_description(s);
        assert_eq!(standardize_description(&once), once);
    }
}

#[test]
fn standard_table_is_stable() {
    assert!(DescriptionTable::standard().is_stable());
    let mut t = DescriptionTable::new();
    t.push("a", "xa");
    t.push("x", "y");
    assert!(!t.is_stable());
    let mut u = DescriptionTable::new();
    u.push("x", "Upper");
    assert!(!u.is_stable());
}

#[test]
fn amounts_parse_to_cents() {
    assert_eq!(parse_cents("-42.10"), Some(-4210));
    assert_eq!(parse_cents("10"), Some(1000));
    assert_eq!(parse_cents("10.00"), Some(1000));
    assert_eq!(parse_cents("2.5"), Some(250));
    assert_eq!(parse_cents("+3.07"), Some(307));
    assert_eq!(parse_cents(".5"), Some(50));
    assert_eq!(parse_cents("7."), Some(700));
    assert_eq!(parse_cents("92233720368547758.07"), Some(i64::MAX));
}

#[test]
fn malformed_amounts_are_rejected() {
    assert_eq!(parse_cents(""), None);
    assert_eq!(parse_cents("-"), None);
    assert_eq!(parse_cents("."), None);
    assert_eq!(parse_cents("abc"), None);
    assert_eq!(parse_cents("1.234"), None);
    assert_eq!(parse_cents("1,00"), None);
    assert_eq!(parse_cents("1.2.3"), None);
    assert_eq!(parse_cents("92233720368547758.08"), None);
    assert_eq!(parse_cents("99999999999999999999999"), None);
}

#[test]
fn dates_parse() {
    assert_eq!(parse_iso_date("2024-01-05"), Some(Date { year: 2024, month: 1, day: 5 }));
    assert_eq!(parse_iso_date("2024-02-30"), None);
    assert_eq!(parse_iso_date("01/05/2024"), None);
}

#[test]
fn headers_are_classified() {
    let a = strings(&["Date", "Description", "Original Description", "Category", "Amount", "Status"]);
    let b = strings(&["TRANSACTION DATE", "Posted Date", "Card No.", "Description", "Category", "Debit", "Credit"]);
    assert_eq!(classify_header(&a), Some(Origin::Usaa));
    assert_eq!(classify_header(&b), Some(Origin::CapitalOne));
    assert_eq!(classify_header(&strings(&["When", "What"])), None);
    assert_eq!(classify_header(&Vec::new()), None);
    assert_eq!(origin_of_lowered("date"), Some(Origin::Usaa));
    assert_eq!(origin_of_lowered("Date"), None);
}

#[test]
fn origin_labels() {
    assert_eq!(Origin::Usaa.label(), "USAA");
    assert_eq!(Origin::CapitalOne.label(), "CapitalOne");
}

#[test]
fn checking_card_payment_is_skipped() {
    let t = DescriptionTable::standard();
    let row = strings(&["2024-01-05", "Capital One Crcardpmt", "x", "Credit Card Payment", "-300.00", "Posted"]);
    assert_eq!(parse_record(&t, &row, Origin::Usaa), Ok(None));
}

#[test]
fn checking_row_keeps_sign() {
    let t = DescriptionTable::standard();
    let row = strings(&["2024-01-05", "Payroll ACME", "x", "Income", "1500.25", "Posted"]);
    let r = parse_record(&t, &row, Origin::Usaa).unwrap().unwrap();
    assert_eq!(r.amount, 150025);
    assert_eq!(r.card, Origin::Usaa);
    assert_eq!(r.description, "payroll acme");
    assert_eq!(r.date, Date { year: 2024, month: 1, day: 5 });
}

#[test]
fn row_errors() {
    let t = DescriptionTable::standard();
    let short = strings(&["2024-01-05", "Target", "x", "Shopping"]);
    assert_eq!(parse_record(&t, &short, Origin::Usaa), Err(ParseError::MissingField));
    let bad_amount = strings(&["2024-01-05", "Target", "x", "Shopping", "twelve", "Posted"]);
    assert_eq!(parse_record(&t, &bad_amount, Origin::Usaa), Err(ParseError::BadAmount));
    let bad_date = strings(&["Jan 5", "Target", "x", "Shopping", "-12.00", "Posted"]);
    assert_eq!(parse_record(&t, &bad_date, Origin::Usaa), Err(ParseError::BadDate));
    let short_b = strings(&["2024-01-05", "2024-01-06", "1234", "TARGET", "Shopping", "5.00"]);
    assert_eq!(parse_record(&t, &short_b, Origin::CapitalOne), Err(ParseError::MissingField));
}

#[test]
fn cash_back_is_income() {
    let t = DescriptionTable::standard();
    let row = strings(&["2024-02-01", "2024-02-02", "1234", "CREDIT-CASH BACK REWARD", "Payment/Credit", "", "25.10"]);
    let r = parse_record(&t, &row, Origin::CapitalOne).unwrap().unwrap();
    assert_eq!(r.amount, 2510);
    assert_eq!(r.card, Origin::CapitalOne);
    assert_eq!(r.description, "credit-cash back reward");
}

#[test]
fn other_credit_is_skipped() {
    let t = DescriptionTable::standard();
    let row = strings(&["2024-02-01", "2024-02-02", "1234", "CAPITAL ONE MOBILE PYMT", "Payment/Credit", "", "300.00"]);
    assert_eq!(parse_record(&t, &row, Origin::CapitalOne), Ok(None));
}

#[test]
fn debit_is_negated() {
    let t = DescriptionTable::standard();
    let row = strings(&["2024-02-01", "2024-02-02", "1234", "CHIPOTLE 1234", "Dining", "12.34", ""]);
    let r = parse_record(&t, &row, Origin::CapitalOne).unwrap().unwrap();
    assert_eq!(r.amount, -1234);
    assert_eq!(r.description, "chipotle");
    assert_eq!(r.date, Date { year: 2024, month: 2, day: 1 });
}

#[test]
fn checking_file_end_to_end() {
    let t = DescriptionTable::standard();
    let headers = strings(&["Date", "Description", "Original Description", "Category", "Amount", "Status"]);
    let rows = vec![strings(&["2024-01-05", "AMAZON MKTPLACE", "AMAZON MKTPLACE PMTS", "Shopping", "-42.10", "Posted"])];
    let records = parse_file(&t, &headers, &rows).unwrap();
    assert_eq!(
        records,
        vec![BudgetRecord {
            amount: -4210,
            date: Date { year: 2024, month: 1, day: 5 },
            card: Origin::Usaa,
            description: "amazon".to_string(),
        }]
    );
}

#[test]
fn unknown_file_yields_nothing() {
    let t = DescriptionTable::standard();
    let headers = strings(&["When", "What"]);
    let rows = vec![strings(&["2024-01-05", "AMAZON"])];
    assert_eq!(parse_file(&t, &headers, &rows), Ok(Vec::new()));
}

#[test]
fn rows_stop_at_first_error() {
    let t = DescriptionTable::standard();
    let rows = vec![
        strings(&["2024-01-05", "Target", "x", "Shopping", "-12.00", "Posted"]),
        strings(&["2024-01-06", "Capital One", "x", "Payment", "-100.00", "Posted"]),
        strings(&["2024-01-07", "Walgreens", "x", "Health", "-3.50", "Posted"]),
    ];
    let records = parse_rows(&t, Origin::Usaa, &rows).unwrap();
    assert_eq!(records.len(), 2);
    assert_eq!(records[0].description, "target");
    assert_eq!(records[1].amount, -350);
    let mut bad = rows.clone();
    bad.push(strings(&["2024-01-08", "Target"]));
    assert_eq!(parse_rows(&t, Origin::Usaa, &bad), Err(ParseError::MissingField));
}

#[test]
fn reconcile_is_set_difference() {
    let current = strings(&["amazon", "target", "amazon", "chipotle", "rei"]);
    let stored = strings(&["target", "rei", "conoco"]);
    assert_eq!(reconcile(&current, &stored), strings(&["amazon", "chipotle"]));
}

#[test]
fn reconcile_against_itself_is_empty() {
    let s = strings(&["amazon", "target"]);
    assert!(reconcile(&s, &s).is_empty());
}

#[test]
fn reconcile_against_nothing_keeps_all() {
    let s = strings(&["amazon", "target", "amazon"]);
    assert_eq!(reconcile(&s, &Vec::new()), strings(&["amazon", "target"]));
}

#[test]
fn totals_split_by_sign() {
    let records = vec![record(-500, "a"), record(1000, "b"), record(-250, "c")];
    let t = aggregate(&records);
    assert_eq!(t.spending, -750);
    assert_eq!(t.income, 1000);
    assert_eq!(t.net, 250);
    let z = aggregate(&vec![record(0, "z")]);
    assert_eq!((z.spending, z.income, z.net), (0, 0, 0));
    let e = aggregate(&Vec::new());
    assert_eq!((e.spending, e.income, e.net), (0, 0, 0));
}

#[test]
fn abort_on_second_description_keeps_first() {
    let pending = strings(&["amazon", "target"]);
    let outcomes = vec![text("shopping"), text("online"), text(""), text("prime"), PromptOutcome::AbortAll];
    let r = collect_metadata(pending, &outcomes);
    assert_eq!(
        r,
        vec![UploadDescription {
            description: "amazon".to_string(),
            primary_information: "shopping".to_string(),
            secondary_information: "online".to_string(),
            tertiary_information: "".to_string(),
            additional_information: "prime".to_string(),
        }]
    );
}

#[test]
fn skip_one_drops_partial_answers() {
    let pending = strings(&["amazon", "target", "rei"]);
    let outcomes = vec![
        text("shopping"),
        PromptOutcome::SkipOne,
        text("a"),
        text("b"),
        text("c"),
        text("d"),
        PromptOutcome::SkipOne,
        text("never used"),
    ];
    let r = collect_metadata(pending, &outcomes);
    assert_eq!(r.len(), 1);
    assert_eq!(r[0].description, "target");
    assert_eq!(r[0].primary_information, "a");
    assert_eq!(r[0].additional_information, "d");
}

#[test]
fn running_out_of_answers_keeps_completed() {
    let pending = strings(&["amazon", "target"]);
    let outcomes = vec![text("1"), text("2"), text("3"), text("4"), text("5")];
    let r = collect_metadata(pending, &outcomes);
    assert_eq!(r.len(), 1);
    assert_eq!(r[0].description, "amazon");
}

#[test]
fn collector_steps() {
    let mut c = MetadataCollector::new(strings(&["amazon"]));
    assert!(!c.is_done());
    assert_eq!(c.current_description(), "amazon");
    assert_eq!(c.current_field(), Field::Primary);
    c.answer(&text("p"));
    assert_eq!(c.current_field(), Field::Secondary);
    c.answer(&text("s"));
    assert_eq!(c.current_field(), Field::Tertiary);
    c.answer(&text("t"));
    assert_eq!(c.current_field(), Field::Additional);
    c.answer(&text("a"));
    assert!(c.is_done());
    let r = c.into_records();
    assert_eq!(r.len(), 1);
    assert_eq!(r[0].tertiary_information, "t");
    let empty = MetadataCollector::new(Vec::new());
    assert!(empty.is_done());
}
