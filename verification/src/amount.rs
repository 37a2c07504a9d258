//! Finding the amount of a payment event and reducing it to whole units.

use crate::decimal::{
    decimal_text, decimal_value, is_digit, lemma_decimal_round_trip, parse_decimal_prefix,
    unsigned_part,
};
use crate::event::{json_view, member, JsonView};
use vstd::prelude::*;

verus! {

/// The key under which a payment event holds its details.
pub const PAYMENT_KEY: &'static str = "invoice_payment";

/// The key of the amount in the older shape of the event.
pub const AMOUNT_KEY: &'static str = "msat";

/// The key of the amount in the newer shape of the event.
pub const AMOUNT_KEY_NEWER: &'static str = "amount_msat";

/// The width of the unit label `msat` that ends an amount written as text.
pub const UNIT_SUFFIX_LEN: usize = 4;

/// How many milli-units make one whole unit.
pub const MILLI_PER_UNIT: u64 = 1000;

/// Why no amount could be taken from an event.
#[derive(Clone, Copy, Debug, PartialEq, Eq, Structural)]
pub enum ExtractionError {
    /// The event holds no amount field.
    FieldMissing,
    /// The amount field holds no non-negative whole number of milli-units.
    MalformedAmount,
}

/// The amount field of an event as it was found, before it is read as a
/// number.
#[derive(Debug, PartialEq, Eq)]
pub enum AmountField {
    /// The event has no amount field.
    Absent,
    /// The field is a string: digits followed by the unit label.
    Text(String),
    /// The field is a non-negative integer of milli-units.
    Number(u64),
    /// The field is there and is neither of these.
    Other,
}

/// The mathematical value of an `AmountField`.
pub enum AmountFieldView {
    Absent,
    Text(Seq<char>),
    Number(u64),
    Other,
}

impl View for AmountField {
    type V = AmountFieldView;

    open spec fn view(&self) -> AmountFieldView {
        match self {
            AmountField::Absent => AmountFieldView::Absent,
            AmountField::Text(s) => AmountFieldView::Text(s@),
            AmountField::Number(n) => AmountFieldView::Number(*n),
            AmountField::Other => AmountFieldView::Other,
        }
    }
}

/// Milli-units reduced to whole units: the remainder is dropped, not rounded.
pub open spec fn whole_units(milli: u64) -> u64 {
    milli / MILLI_PER_UNIT
}

/// The amount that a text denotes: all but its last four characters read as
/// a decimal number of milli-units, whatever those four characters are.
pub open spec fn amount_of_text(text: Seq<char>) -> Result<u64, ExtractionError> {
    if text.len() < UNIT_SUFFIX_LEN {
        Err(ExtractionError::MalformedAmount)
    } else {
        match decimal_value(text.take(text.len() - UNIT_SUFFIX_LEN)) {
            Some(milli) => Ok(whole_units(milli)),
            None => Err(ExtractionError::MalformedAmount),
        }
    }
}

/// The amount that a field denotes, or the reason why it denotes none.
pub open spec fn normalized(field: AmountFieldView) -> Result<u64, ExtractionError> {
    match field {
        AmountFieldView::Absent => Err(ExtractionError::FieldMissing),
        AmountFieldView::Text(text) => amount_of_text(text),
        AmountFieldView::Number(milli) => Ok(whole_units(milli)),
        AmountFieldView::Other => Err(ExtractionError::MalformedAmount),
    }
}

/// The member of an event that holds the amount: under the payment key, the
/// member under the older amount key, or else the one under the newer key.
pub open spec fn amount_member(event: JsonView) -> Option<JsonView> {
    match event.member(PAYMENT_KEY@) {
        None => None,
        Some(payment) => match payment.member(AMOUNT_KEY@) {
            Some(field) => Some(field),
            None => payment.member(AMOUNT_KEY_NEWER@),
        },
    }
}

/// The shape of a member: a string, a non-negative integer, or neither.
pub open spec fn shape_of(field: JsonView) -> AmountFieldView {
    match field {
        JsonView::Text(text) => AmountFieldView::Text(text),
        JsonView::Unsigned(milli) => AmountFieldView::Number(milli),
        _ => AmountFieldView::Other,
    }
}

/// The amount field of an event.
pub open spec fn located(event: JsonView) -> AmountFieldView {
    match amount_member(event) {
        None => AmountFieldView::Absent,
        Some(field) => shape_of(field),
    }
}

/// The amount of an event in whole units, or the reason why it has none.
pub open spec fn extracted(event: JsonView) -> Result<u64, ExtractionError> {
    normalized(located(event))
}

/// Reduces milli-units to whole units.
pub fn normalize_milli(milli: u64) -> (units: u64)
    ensures
        units == whole_units(milli),
        units == milli as nat / 1000,
{
    milli / MILLI_PER_UNIT
}

/// Reads an amount written as text: a decimal number of milli-units followed
/// by the four-character unit label.
pub fn amount_from_text(text: &str) -> (amount: Result<u64, ExtractionError>)
    ensures
        amount == amount_of_text(text@),
{
    let len = text.unicode_len();
    if len < UNIT_SUFFIX_LEN {
        return Err(ExtractionError::MalformedAmount);
    }
    match parse_decimal_prefix(text, len - UNIT_SUFFIX_LEN) {
        Some(milli) => Ok(normalize_milli(milli)),
        None => Err(ExtractionError::MalformedAmount),
    }
}

/// Reduces an amount field to whole units.
pub fn normalize(field: &AmountField) -> (amount: Result<u64, ExtractionError>)
    ensures
        amount == normalized(field@),
{
    match field {
        AmountField::Absent => Err(ExtractionError::FieldMissing),
        AmountField::Text(text) => amount_from_text(text.as_str()),
        AmountField::Number(milli) => Ok(normalize_milli(*milli)),
        AmountField::Other => Err(ExtractionError::MalformedAmount),
    }
}

/// Finds the amount field of an event, whichever of the two shapes the event
/// has.
pub fn locate_amount(event: &serde_json::Value) -> (field: AmountField)
    ensures
        field@ == located(json_view(*event)),
{
    let payment = match member(event, PAYMENT_KEY) {
        Some(payment) => payment,
        None => {
            return AmountField::Absent;
        },
    };
    let found = match member(payment, AMOUNT_KEY) {
        Some(found) => found,
        None => match member(payment, AMOUNT_KEY_NEWER) {
            Some(found) => found,
            None => {
                return AmountField::Absent;
            },
        },
    };
    match found.as_str() {
        Some(text) => AmountField::Text(text.to_owned()),
        None => match found.as_u64() {
            Some(milli) => AmountField::Number(milli),
            None => AmountField::Other,
        },
    }
}

/// Takes the amount of a payment event, in whole units.
pub fn extract_amount(value: &serde_json::Value) -> (amount: Result<u64, ExtractionError>)
    ensures
        amount == extracted(json_view(*value)),
{
    let field = locate_amount(value);
    normalize(&field)
}

/// An amount written as text, with any four characters for the unit label,
/// is the amount that the same number of milli-units is as a number.
pub proof fn lemma_text_agrees_with_number(milli: u64, label: Seq<char>)
    requires
        label.len() == UNIT_SUFFIX_LEN,
    ensures
        amount_of_text(decimal_text(milli as nat) + label) == Ok::<u64, ExtractionError>(
            whole_units(milli),
        ),
        normalized(AmountFieldView::Text(decimal_text(milli as nat) + label)) == normalized(
            AmountFieldView::Number(milli),
        ),
{
    let written = decimal_text(milli as nat);
    let text = written + label;
    assert(text.take(text.len() - UNIT_SUFFIX_LEN) =~= written);
    lemma_decimal_round_trip(milli);
}

/// A text with anything but a digit before its unit label, a plus sign in
/// first place apart, is no amount.
pub proof fn lemma_non_numeric_is_malformed(text: Seq<char>, at: int)
    requires
        0 <= at < text.len() - UNIT_SUFFIX_LEN,
        !is_digit(text[at]),
        at > 0 || text[0] != '+',
    ensures
        amount_of_text(text) == Err::<u64, ExtractionError>(ExtractionError::MalformedAmount),
{
    let number = text.take(text.len() - UNIT_SUFFIX_LEN);
    let digits = unsigned_part(number);
    if number[0] == '+' {
        assert(digits[at - 1] == text[at]);
    } else {
        assert(digits[at] == text[at]);
    }
}

/// Less than a whole unit is an amount of zero, not an error.
pub proof fn lemma_small_amounts_are_zero(milli: u64)
    requires
        milli < MILLI_PER_UNIT,
    ensures
        normalized(AmountFieldView::Number(milli)) == Ok::<u64, ExtractionError>(0),
{
}

/// An event with the amount as text under the older key, and one with the
/// same number of milli-units as a number under the newer key, have the same
/// amount: the milli-units divided by a thousand, remainder dropped.
pub proof fn lemma_both_shapes_agree(milli: u64, label: Seq<char>)
    requires
        label.len() == UNIT_SUFFIX_LEN,
    ensures
        extracted(
            JsonView::Object(
                map![PAYMENT_KEY@ => JsonView::Object(
                    map![AMOUNT_KEY@ => JsonView::Text(decimal_text(milli as nat) + label)],
                )],
            ),
        ) == Ok::<u64, ExtractionError>(whole_units(milli)),
        extracted(
            JsonView::Object(
                map![PAYMENT_KEY@ => JsonView::Object(
                    map![AMOUNT_KEY_NEWER@ => JsonView::Unsigned(milli)],
                )],
            ),
        ) == Ok::<u64, ExtractionError>(whole_units(milli)),
{
    lemma_text_agrees_with_number(milli, label);
}

/// An event has no amount field exactly where it has no payment member, or
/// its payment member has neither amount key; it is then reported as such,
/// and as nothing else.
pub proof fn lemma_missing_field(event: JsonView)
    ensures
        extracted(event) == Err::<u64, ExtractionError>(ExtractionError::FieldMissing)
            <==> amount_member(event) is None,
        amount_member(event) is None <==> match event.member(PAYMENT_KEY@) {
            None => true,
            Some(payment) => payment.member(AMOUNT_KEY@) is None && payment.member(
                AMOUNT_KEY_NEWER@,
            ) is None,
        },
{
}

} // verus!
