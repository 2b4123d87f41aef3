use data_table::{
    classify, format_cell, style_class, FieldValue, NumberSign, Record, Sorting, StyleTag,
    TableHeader,
};

fn sign_of(text: &str) -> NumberSign {
    match text.parse::<f64>() {
        Ok(v) if v >= 0.0 => NumberSign::NonNegative,
        Ok(_) => NumberSign::Negative,
        Err(_) => NumberSign::NotANumber,
    }
}

fn column(name: &str, default_value: &str, success: &str, error: &str) -> TableHeader {
    TableHeader::new(name, name, name, false, "", true, default_value, success, error, false, None)
}

fn text(s: &str) -> FieldValue {
    FieldValue::Text(s.to_string())
}

fn number(s: &str) -> FieldValue {
    FieldValue::Number(s.to_string())
}

#[test]
fn negative_number_is_tagged_negative() {
    let mut row = Record::new();
    row.insert("amount".to_string(), number("-5"));
    let col = column("amount", "", "", "");
    let t = col.find(&row);
    let cell = format_cell(&row, &col, sign_of(&t));
    assert_eq!(cell.text, "-5");
    assert!(cell.style_class.split(' ').any(|c| c == "negative"));
    assert_eq!(cell.tags, vec![StyleTag::Negative]);
    assert_eq!(cell.style_class, "negative");
    assert_eq!(cell.currency_suffix, None);
}

#[test]
fn success_value_matches_in_any_case() {
    let mut row = Record::new();
    row.insert("status".to_string(), text("OK"));
    let col = column("status", "", "ok", "fail");
    let t = col.find(&row);
    let cell = format_cell(&row, &col, sign_of(&t));
    assert!(cell.style_class.split(' ').any(|c| c == "success"));
    assert_eq!(cell.tags, vec![StyleTag::Success]);
}

#[test]
fn error_value_is_tagged_error() {
    let mut row = Record::new();
    row.insert("status".to_string(), text("Fail"));
    let col = column("status", "", "ok", "FAIL");
    let cell = format_cell(&row, &col, sign_of("Fail"));
    assert_eq!(cell.tags, vec![StyleTag::Error]);
    assert_eq!(cell.style_class, "error");
}

#[test]
fn success_wins_over_equal_error_value() {
    let mut row = Record::new();
    row.insert("status".to_string(), text("done"));
    let col = column("status", "", "DONE", "Done");
    let cell = format_cell(&row, &col, NumberSign::NotANumber);
    assert_eq!(cell.tags, vec![StyleTag::Success]);
}

#[test]
fn currency_suffix_comes_from_currency_field() {
    let mut row = Record::new();
    row.insert("price".to_string(), number("100"));
    row.insert("cur".to_string(), text("USD"));
    let col = TableHeader::new("price", "price", "Price", true, "cur", true, "", "", "", false, None);
    let t = col.find(&row);
    let cell = format_cell(&row, &col, sign_of(&t));
    assert_eq!(cell.currency_suffix, Some(" USD".to_string()));
    assert_eq!(cell.text, "100");
    assert_eq!(cell.style_class, "positive");
    assert_eq!(col.find_currency(&row), "USD");
}

#[test]
fn currency_suffix_needs_a_string() {
    let mut row = Record::new();
    row.insert("price".to_string(), number("100"));
    row.insert("cur".to_string(), number("840"));
    let col = TableHeader::new("price", "price", "Price", true, "cur", true, "", "", "", false, None);
    assert_eq!(format_cell(&row, &col, NumberSign::NonNegative).currency_suffix, None);
    assert_eq!(col.find_currency(&row), "");
    let plain = TableHeader::new("price", "price", "Price", false, "cur", true, "", "", "", false, None);
    let mut row2 = Record::new();
    row2.insert("cur".to_string(), text("EUR"));
    assert_eq!(format_cell(&row2, &plain, NumberSign::NotANumber).currency_suffix, None);
}

#[test]
fn missing_key_falls_back_to_default() {
    let row = Record::new();
    let col = column("missing", "N/A", "ok", "fail");
    let t = col.find(&row);
    assert_eq!(t, "N/A");
    let cell = format_cell(&row, &col, sign_of(&t));
    assert_eq!(cell.text, "N/A");
    assert!(cell.tags.is_empty());
    assert_eq!(cell.style_class, "");
}

#[test]
fn other_values_fall_back_to_default() {
    let mut row = Record::new();
    row.insert("x".to_string(), FieldValue::Other);
    assert_eq!(column("x", "-", "", "").find(&row), "-");
}

#[test]
fn booleans_show_as_words() {
    let mut row = Record::new();
    row.insert("on".to_string(), FieldValue::Bool(true));
    row.insert("off".to_string(), FieldValue::Bool(false));
    assert_eq!(column("on", "", "", "").find(&row), "true");
    assert_eq!(column("off", "", "", "").find(&row), "false");
}

#[test]
fn later_insert_replaces_field() {
    let mut row = Record::new();
    row.insert("a".to_string(), text("first"));
    row.insert("b".to_string(), text("other"));
    row.insert("a".to_string(), text("second"));
    assert_eq!(column("a", "", "", "").find(&row), "second");
    assert_eq!(column("b", "", "", "").find(&row), "other");
}

#[test]
fn uppercase_column_adds_tag_last() {
    let mut row = Record::new();
    row.insert("code".to_string(), text("ok"));
    let col = TableHeader::new("code", "code", "Code", false, "", false, "", "OK", "", true, None);
    let cell = format_cell(&row, &col, NumberSign::NotANumber);
    assert_eq!(cell.tags, vec![StyleTag::Success, StyleTag::Uppercase]);
    assert_eq!(cell.style_class, "success uppercase");
}

#[test]
fn all_tags_join_in_order() {
    let cell_tags = classify(
        NumberSign::NonNegative,
        &"0".to_string(),
        &"0".to_string(),
        &"1".to_string(),
        true,
    );
    assert_eq!(cell_tags, vec![StyleTag::Positive, StyleTag::Success, StyleTag::Uppercase]);
    assert_eq!(style_class(&cell_tags), "positive success uppercase");
    let e = classify(NumberSign::Negative, &"X".to_string(), &"Y".to_string(), &"X".to_string(), false);
    assert_eq!(e, vec![StyleTag::Negative, StyleTag::Error]);
    assert_eq!(style_class(&e), "negative error");
}

#[test]
fn classify_compares_as_given() {
    let t = classify(NumberSign::NotANumber, &"ok".to_string(), &"OK".to_string(), &"".to_string(), false);
    assert!(t.is_empty());
}

#[test]
fn header_fields_are_kept() {
    let col = TableHeader::new("a", "b", "c", true, "d", false, "e", "f", "g", true, Some("p".to_string()));
    assert_eq!(col.name, "a");
    assert_eq!(col.sort_name, "b");
    assert_eq!(col.display_name, "c");
    assert!(col.is_currency);
    assert_eq!(col.currency, "d");
    assert!(!col.is_number_styled);
    assert_eq!(col.default_value, "e");
    assert_eq!(col.style_when_success, "f");
    assert_eq!(col.style_when_error, "g");
    assert!(col.to_uppercase);
    assert_eq!(col.prefix, Some("p".to_string()));
    let d = TableHeader::default();
    assert_eq!(d.name, "");
    assert_eq!(d.prefix, None);
}

#[test]
fn clicking_a_header_flips_the_sort() {
    let col = TableHeader::new("a", "created_at", "A", false, "", false, "", "", "", false, None);
    let mut s = Sorting { descending: false, sort_by: String::new() };
    s.select(&col);
    assert!(s.descending);
    assert_eq!(s.sort_by, "created_at");
    s.select(&col);
    assert!(!s.descending);
}
