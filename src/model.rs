use vstd::prelude::*;

use crate::record::{field_of, FieldValue, Record};

verus! {

/// What a cell shows for a field value: a string as it is, a number in its
/// decimal text, a boolean as `true` or `false`; for a missing or null field,
/// or one that holds an array or an object, the column's default.
pub open spec fn shown_text(value: Option<FieldValue>, default: Seq<char>) -> Seq<char> {
    match value {
        Some(FieldValue::Text(s)) => s@,
        Some(FieldValue::Number(n)) => n@,
        Some(FieldValue::Bool(b)) => if b {
            "true"@
        } else {
            "false"@
        },
        _ => default,
    }
}

/// The string a field holds; empty where it holds no string.
pub open spec fn string_text(value: Option<FieldValue>) -> Seq<char> {
    match value {
        Some(FieldValue::Text(s)) => s@,
        _ => Seq::empty(),
    }
}

/// What is written after a currency cell: a space and the currency's code,
/// when the column is a currency column and the row names its currency as a
/// string.
pub open spec fn suffix_text(is_currency: bool, currency: Option<FieldValue>) -> Option<Seq<char>> {
    if is_currency {
        match currency {
            Some(FieldValue::Text(s)) => Some(" "@ + s@),
            _ => None,
        }
    } else {
        None
    }
}

/// A column of the table: which field it shows and how.
#[derive(Debug, Clone)]
pub struct TableHeader {
    /// Field of the row that the column shows.
    pub name: String,
    /// Field that sorting on this column sorts by.
    pub sort_name: String,
    /// Title of the column.
    pub display_name: String,
    /// Whether a currency code follows each value.
    pub is_currency: bool,
    /// Field of the row that holds the currency code.
    pub currency: String,
    /// Whether the column shows numbers.
    pub is_number_styled: bool,
    /// Text shown where the row has no value for the field.
    pub default_value: String,
    /// Value, in any case, that marks a cell as a success.
    pub style_when_success: String,
    /// Value, in any case, that marks a cell as an error.
    pub style_when_error: String,
    /// Whether the cell is shown in capitals.
    pub to_uppercase: bool,
    /// Text put before the values, if any.
    pub prefix: Option<String>,
}

impl Default for TableHeader {
    fn default() -> (r: Self)
        ensures
            r.name@ == Seq::<char>::empty(),
            r.sort_name@ == Seq::<char>::empty(),
            r.display_name@ == Seq::<char>::empty(),
            !r.is_currency,
            r.currency@ == Seq::<char>::empty(),
            !r.is_number_styled,
            r.default_value@ == Seq::<char>::empty(),
            r.style_when_success@ == Seq::<char>::empty(),
            r.style_when_error@ == Seq::<char>::empty(),
            !r.to_uppercase,
            r.prefix is None,
    {
        TableHeader {
            name: String::new(),
            sort_name: String::new(),
            display_name: String::new(),
            is_currency: false,
            currency: String::new(),
            is_number_styled: false,
            default_value: String::new(),
            style_when_success: String::new(),
            style_when_error: String::new(),
            to_uppercase: false,
            prefix: None,
        }
    }
}

impl TableHeader {
    /// A column with the given settings.
    pub fn new(
        name: &str,
        sort_name: &str,
        display_name: &str,
        is_currency: bool,
        currency: &str,
        is_number_styled: bool,
        default_value: &str,
        style_when_success: &str,
        style_when_error: &str,
        to_uppercase: bool,
        prefix: Option<String>,
    ) -> (r: Self)
        ensures
            r.name@ == name@,
            r.sort_name@ == sort_name@,
            r.display_name@ == display_name@,
            r.is_currency == is_currency,
            r.currency@ == currency@,
            r.is_number_styled == is_number_styled,
            r.default_value@ == default_value@,
            r.style_when_success@ == style_when_success@,
            r.style_when_error@ == style_when_error@,
            r.to_uppercase == to_uppercase,
            r.prefix == prefix,
    {
        TableHeader {
            name: String::from_str(name),
            sort_name: String::from_str(sort_name),
            display_name: String::from_str(display_name),
            is_currency,
            currency: String::from_str(currency),
            is_number_styled,
            default_value: String::from_str(default_value),
            style_when_success: String::from_str(style_when_success),
            style_when_error: String::from_str(style_when_error),
            to_uppercase,
            prefix,
        }
    }

    /// The text of this column's cell in `row`.
    pub fn find(&self, row: &Record) -> (r: String)
        ensures
            r@ == shown_text(field_of(row@, self.name@), self.default_value@),
    {
        match row.get(&self.name) {
            Some(FieldValue::Text(s)) => s.clone(),
            Some(FieldValue::Number(n)) => n.clone(),
            Some(FieldValue::Bool(b)) => {
                if *b {
                    String::from_str("true")
                } else {
                    String::from_str("false")
                }
            },
            _ => self.default_value.clone(),
        }
    }

    /// The currency code that `row` gives for this column; empty where the
    /// row holds no string under the currency field.
    pub fn find_currency(&self, row: &Record) -> (r: String)
        ensures
            r@ == string_text(field_of(row@, self.currency@)),
    {
        match row.get(&self.currency) {
            Some(FieldValue::Text(s)) => s.clone(),
            _ => String::new(),
        }
    }

    /// The currency suffix of this column's cell in `row`.
    pub fn currency_suffix(&self, row: &Record) -> (r: Option<String>)
        ensures
            r is Some == suffix_text(self.is_currency, field_of(row@, self.currency@)) is Some,
            r matches Some(s) ==> suffix_text(self.is_currency, field_of(row@, self.currency@))
                == Some(s@),
    {
        if self.is_currency {
            match row.get(&self.currency) {
                Some(FieldValue::Text(s)) => {
                    let mut out = String::from_str(" ");
                    out.append(s.as_str());
                    Some(out)
                },
                _ => None,
            }
        } else {
            None
        }
    }
}

/// Which column the rows are sorted by, and in which direction.
#[derive(Debug, Clone)]
pub struct Sorting {
    /// Descending when set, ascending otherwise.
    pub descending: bool,
    /// Field the rows are sorted by.
    pub sort_by: String,
}

impl Sorting {
    /// A click on the title of `column`: sorts by its sort field and turns the
    /// direction around.
    pub fn select(&mut self, column: &TableHeader)
        ensures
            final(self).descending == !old(self).descending,
            final(self).sort_by@ == column.sort_name@,
    {
        self.descending = !self.descending;
        self.sort_by = column.sort_name.clone();
    }
}

/// What the data source is asked for when the table is downloaded.
#[derive(Debug, Clone)]
pub struct DownloadDataRequest {
    pub table_name: String,
    pub filter: String,
    pub fields: String,
    pub search: String,
}

impl Default for DownloadDataRequest {
    fn default() -> (r: Self)
        ensures
            r.table_name@ == Seq::<char>::empty(),
            r.filter@ == Seq::<char>::empty(),
            r.fields@ == Seq::<char>::empty(),
            r.search@ == Seq::<char>::empty(),
    {
        DownloadDataRequest {
            table_name: String::new(),
            filter: String::new(),
            fields: String::new(),
            search: String::new(),
        }
    }
}

impl PartialEq for DownloadDataRequest {
    fn eq(&self, other: &DownloadDataRequest) -> (r: bool) {
        self.table_name == other.table_name && self.filter == other.filter && self.fields
            == other.fields && self.search == other.search
    }
}

impl vstd::std_specs::cmp::PartialEqSpecImpl for DownloadDataRequest {
    open spec fn obeys_eq_spec() -> bool {
        true
    }

    open spec fn eq_spec(&self, other: &DownloadDataRequest) -> bool {
        &&& self.table_name@ == other.table_name@
        &&& self.filter@ == other.filter@
        &&& self.fields@ == other.fields@
        &&& self.search@ == other.search@
    }
}

impl Eq for DownloadDataRequest {

}

} // verus!
