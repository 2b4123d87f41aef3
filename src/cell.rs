use vstd::prelude::*;

use crate::model::{shown_text, suffix_text, TableHeader};
use crate::record::{field_of, Record};

verus! {

/// What `str::to_uppercase` makes of a string.
pub uninterp spec fn upper_of(s: Seq<char>) -> Seq<char>;

/// Relies on str::to_uppercase: the capitals of a string, which depend on
/// its characters alone.
#[verifier::external_body]
fn to_upper(s: &str) -> (r: String)
    ensures
        r@ == upper_of(s@),
{
    s.to_uppercase()
}

/// What reading a cell's text as a floating-point number gave.
#[derive(Debug, Clone, Copy, PartialEq, Eq, Structural)]
pub enum NumberSign {
    /// The text is no number.
    NotANumber,
    /// A number below zero.
    Negative,
    /// A number of zero or more.
    NonNegative,
}

/// A mark on a cell that decides how it is styled.
#[derive(Debug, Clone, Copy, PartialEq, Eq, Structural)]
pub enum StyleTag {
    Positive,
    Negative,
    Success,
    Error,
    Uppercase,
}

/// The class name of a tag.
pub open spec fn tag_text(tag: StyleTag) -> Seq<char> {
    match tag {
        StyleTag::Positive => "positive"@,
        StyleTag::Negative => "negative"@,
        StyleTag::Success => "success"@,
        StyleTag::Error => "error"@,
        StyleTag::Uppercase => "uppercase"@,
    }
}

/// The class name of a tag.
pub fn tag_name(tag: StyleTag) -> (r: &'static str)
    ensures
        r@ == tag_text(tag),
{
    match tag {
        StyleTag::Positive => "positive",
        StyleTag::Negative => "negative",
        StyleTag::Success => "success",
        StyleTag::Error => "error",
        StyleTag::Uppercase => "uppercase",
    }
}

/// The tags of a cell, in order: its sign, when it is a number; success when
/// its text matches the success value, else error when it matches the error
/// value; uppercase when the column asks for capitals. The text and the two
/// values are given in capitals, so the matches ignore case.
pub open spec fn cell_tags(
    sign: NumberSign,
    text_upper: Seq<char>,
    success_upper: Seq<char>,
    error_upper: Seq<char>,
    uppercase: bool,
) -> Seq<StyleTag> {
    let by_sign = match sign {
        NumberSign::NonNegative => seq![StyleTag::Positive],
        NumberSign::Negative => seq![StyleTag::Negative],
        NumberSign::NotANumber => Seq::empty(),
    };
    let by_value = if text_upper == success_upper {
        seq![StyleTag::Success]
    } else if text_upper == error_upper {
        seq![StyleTag::Error]
    } else {
        Seq::empty()
    };
    let by_case = if uppercase {
        seq![StyleTag::Uppercase]
    } else {
        Seq::empty()
    };
    by_sign + by_value + by_case
}

/// The class names of `tags`, in order, a single space between two.
pub open spec fn joined(tags: Seq<StyleTag>) -> Seq<char>
    decreases tags.len(),
{
    if tags.len() == 0 {
        Seq::empty()
    } else if tags.len() == 1 {
        tag_text(tags[0])
    } else {
        joined(tags.drop_last()) + " "@ + tag_text(tags.last())
    }
}

/// The tags of a cell, from its text and the column's two values, all three
/// already in capitals.
pub fn classify(
    sign: NumberSign,
    text_upper: &String,
    success_upper: &String,
    error_upper: &String,
    uppercase: bool,
) -> (r: Vec<StyleTag>)
    ensures
        r@ == cell_tags(sign, text_upper@, success_upper@, error_upper@, uppercase),
{
    let mut r: Vec<StyleTag> = Vec::new();
    match sign {
        NumberSign::NonNegative => r.push(StyleTag::Positive),
        NumberSign::Negative => r.push(StyleTag::Negative),
        NumberSign::NotANumber => {},
    }
    if *text_upper == *success_upper {
        r.push(StyleTag::Success);
    } else if *text_upper == *error_upper {
        r.push(StyleTag::Error);
    }
    if uppercase {
        r.push(StyleTag::Uppercase);
    }
    assert(r@ =~= cell_tags(sign, text_upper@, success_upper@, error_upper@, uppercase));
    r
}

/// The tags of a cell of `column` that shows `text`.
pub fn style_tags(column: &TableHeader, text: &String, sign: NumberSign) -> (r: Vec<StyleTag>)
    ensures
        r@ == cell_tags(
            sign,
            upper_of(text@),
            upper_of(column.style_when_success@),
            upper_of(column.style_when_error@),
            column.to_uppercase,
        ),
{
    let text_upper = to_upper(text.as_str());
    let success_upper = to_upper(column.style_when_success.as_str());
    let error_upper = to_upper(column.style_when_error.as_str());
    classify(sign, &text_upper, &success_upper, &error_upper, column.to_uppercase)
}

/// The class attribute of a cell: the names of its tags, separated by spaces.
pub fn style_class(tags: &Vec<StyleTag>) -> (r: String)
    ensures
        r@ == joined(tags@),
{
    let mut r = String::new();
    let mut i: usize = 0;
    while i < tags.len()
        invariant
            i <= tags@.len(),
            r@ == joined(tags@.subrange(0, i as int)),
        decreases tags@.len() - i,
    {
        let ghost prefix = tags@.subrange(0, i + 1);
        assert(prefix.drop_last() =~= tags@.subrange(0, i as int));
        if i > 0 {
            r.append(" ");
        }
        r.append(tag_name(tags[i]));
        proof {
            if i == 0 {
                assert(r@ =~= tag_text(tags@[0]));
            }
        }
        i = i + 1;
    }
    assert(tags@.subrange(0, tags@.len() as int) =~= tags@);
    r
}

/// A cell ready to be shown.
#[derive(Debug, Clone)]
pub struct FormattedCell {
    /// The text of the cell.
    pub text: String,
    /// What follows the text in a currency column.
    pub currency_suffix: Option<String>,
    /// The tags that decide the cell's style.
    pub tags: Vec<StyleTag>,
    /// The names of the tags, separated by spaces.
    pub style_class: String,
}

/// The cell of `column` in `row`; `sign` is what reading the cell's text as a
/// floating-point number gave.
pub fn format_cell(row: &Record, column: &TableHeader, sign: NumberSign) -> (r: FormattedCell)
    ensures
        r.text@ == shown_text(field_of(row@, column.name@), column.default_value@),
        r.tags@ == cell_tags(
            sign,
            upper_of(r.text@),
            upper_of(column.style_when_success@),
            upper_of(column.style_when_error@),
            column.to_uppercase,
        ),
        r.style_class@ == joined(r.tags@),
        r.currency_suffix is Some == suffix_text(
            column.is_currency,
            field_of(row@, column.currency@),
        ) is Some,
        r.currency_suffix matches Some(s) ==> suffix_text(
            column.is_currency,
            field_of(row@, column.currency@),
        ) == Some(s@),
{
    let text = column.find(row);
    let tags = style_tags(column, &text, sign);
    let style_class = style_class(&tags);
    let currency_suffix = column.currency_suffix(row);
    FormattedCell { text, currency_suffix, tags, style_class }
}

} // verus!
