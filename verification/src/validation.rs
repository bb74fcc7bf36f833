//! Validation of the text fields of an event.

use vstd::prelude::*;
use vstd::string::StringExecFns;
use vstd::string::StrSliceExecFns;
use vstd::utf8::encode_utf8;
use crate::text::{trim_str, trimmed_text};

verus! {

/// The pattern of a time of day: hours, a colon, and two digits of minutes.
pub const TIME_PATTERN: &'static str = "^(?:[01]?[0-9]|2[0-3]):[0-5][0-9]$";

/// The pattern of a date: four digits, two digits and two digits, with
/// hyphens between them.
pub const DATE_PATTERN: &'static str = "^\\d{4}-\\d{2}-\\d{2}$";

/// Whether the regular expression `pattern`, compiled by the `regex` crate,
/// matches somewhere in `text`; false where the pattern does not compile.
pub uninterp spec fn regex_matches(pattern: Seq<char>, text: Seq<char>) -> bool;

/// Compiles `pattern` with `regex::Regex::new` and asks `is_match` of
/// `text`. Trusted: the result is what the `regex` crate answers, and false
/// for a pattern that it does not compile.
#[verifier::external_body]
pub(crate) fn regex_is_match(pattern: &str, text: &str) -> (result: bool)
    ensures
        result == regex_matches(pattern@, text@),
{
    match regex::Regex::new(pattern) {
        Ok(re) => re.is_match(text),
        Err(_) => false,
    }
}

/// A colour code is a `#` followed by six more bytes.
pub open spec fn is_hex_color(text: Seq<char>) -> bool {
    text.len() > 0 && text[0] == '#' && encode_utf8(text).len() == 7
}

/// The checks on the text fields of an event.
pub struct Validator;

impl Validator {
    /// The verdict on a text given whether it matched its pattern: accepted,
    /// or rejected with `complaint` and the text as the message.
    pub fn verdict(matched: bool, complaint: &str, text: &str) -> (result: Result<(), String>)
        ensures
            result is Ok <==> matched,
            result matches Err(m) ==> m@ == complaint@ + text@,
    {
        if matched {
            Ok(())
        } else {
            Err(String::from_str(complaint).concat(text))
        }
    }

    /// Accepts a time of day written as `H:MM` or `HH:MM`, from 0:00 to
    /// 23:59.
    pub fn validate_time(time: &str) -> (result: Result<(), String>)
        ensures
            result is Ok <==> regex_matches(TIME_PATTERN@, time@),
            result matches Err(m) ==> m@ == "Invalid time format: "@ + time@,
    {
        Validator::verdict(regex_is_match(TIME_PATTERN, time), "Invalid time format: ", time)
    }

    /// Accepts a date written as `YYYY-MM-DD`.
    pub fn validate_date(date: &str) -> (result: Result<(), String>)
        ensures
            result is Ok <==> regex_matches(DATE_PATTERN@, date@),
            result matches Err(m) ==> m@ == "Invalid date format: "@ + date@,
    {
        Validator::verdict(regex_is_match(DATE_PATTERN, date), "Invalid date format: ", date)
    }

    /// Accepts a colour code: a `#` followed by six more bytes.
    pub fn validate_hex_color(color: &str) -> (result: Result<(), String>)
        ensures
            result is Ok <==> is_hex_color(color@),
            result matches Err(m) ==> m@ == "Invalid hex color: "@ + color@,
    {
        let well_formed: bool = color.as_bytes().len() == 7 && color.unicode_len() > 0 && color.get_char(0)
            == '#';
        Validator::verdict(well_formed, "Invalid hex color: ", color)
    }

    /// The input without the white space at its two ends.
    pub fn sanitize_input(input: &str) -> (result: String)
        ensures
            result@ == trimmed_text(input@),
    {
        trim_str(input).to_owned()
    }
}

} // verus!
