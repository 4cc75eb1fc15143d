//! A résumé kept as a partial, field-by-field record, and its layout on a
//! single fixed page as a list of positioned drawing operations.

use vstd::prelude::*;

pub mod api;
pub mod canvas;
pub mod cli;
pub mod command;
pub mod consts;
pub mod errors;
pub mod file_io;
pub mod generate;
pub mod matches;
pub mod os;
pub mod outcome;
pub mod resolver;
pub mod store;
pub mod text;

verus! {

/// What chrono prints for the UTC date and time that lies `secs` seconds and
/// `nanos` nanoseconds after the Unix epoch, where it can represent that
/// instant.
pub uninterp spec fn utc_timestamp_text(secs: i64, nanos: u32) -> Option<Seq<char>>;

/// `chrono::DateTime::from_timestamp` gives the UTC date and time of a Unix
/// timestamp, or nothing where the timestamp is out of its range, and
/// `to_string` prints that date and time. The text depends on the two numbers
/// alone.
#[verifier::external_body]
fn utc_timestamp_to_text(secs: i64, nanos: u32) -> (r: Option<String>)
    ensures
        r is Some <==> utc_timestamp_text(secs, nanos) is Some,
        r matches Some(text) ==> utc_timestamp_text(secs, nanos) == Some(text@),
{
    chrono::DateTime::from_timestamp(secs, nanos).map(|moment| moment.to_string())
}

/// The character that stands in a file name for `c`: a colon or a space
/// becomes a hyphen, every other character stays.
pub open spec fn file_name_char(c: char) -> char {
    if c == ':' || c == ' ' {
        '-'
    } else {
        c
    }
}

/// `text` with each of its characters replaced by `file_name_char` of it.
pub open spec fn file_name_text(text: Seq<char>) -> Seq<char> {
    text.map_values(|c: char| file_name_char(c))
}

/// A text that was made fit for a file name holds neither a colon nor a
/// space, is as long as the text it was made from, and stays as it is when
/// it is made fit once more.
pub proof fn lemma_file_name_text(text: Seq<char>)
    ensures
        file_name_text(text).len() == text.len(),
        forall|i: int|
            0 <= i < text.len() ==> (#[trigger] file_name_text(text)[i]) != ':' && file_name_text(
                text,
            )[i] != ' ',
        file_name_text(file_name_text(text)) == file_name_text(text),
{
    assert(file_name_text(file_name_text(text)) =~= file_name_text(text));
}

/// A timestamp written so that it can be part of a file name.
pub struct FormattedDate(String);

impl View for FormattedDate {
    type V = Seq<char>;

    closed spec fn view(&self) -> Seq<char> {
        self.0@
    }
}

impl FormattedDate {
    /// Replaces every colon and every space of `text` by a hyphen.
    pub fn from_text(text: &str) -> (r: FormattedDate)
        ensures
            r@ == file_name_text(text@),
    {
        let mut out = String::new();
        for c in it: text.chars()
            invariant
                out@ == file_name_text(it.seq().take(it.index() as int)),
        {
            let d = if c == ':' || c == ' ' { '-' } else { c };
            out.push(d);
        }
        FormattedDate(out)
    }

    /// The date and time of a Unix timestamp in UTC, made fit for a file
    /// name; nothing where the timestamp is out of range.
    pub fn from_timestamp(secs: i64, nanos: u32) -> (r: Option<FormattedDate>)
        ensures
            r is Some <==> utc_timestamp_text(secs, nanos) is Some,
            r matches Some(date) ==> date@ == file_name_text(utc_timestamp_text(secs, nanos)->0),
    {
        match utc_timestamp_to_text(secs, nanos) {
            Some(text) => Some(FormattedDate::from_text(text.as_str())),
            None => None,
        }
    }

    /// The text itself.
    pub fn into_string(self) -> (r: String)
        ensures
            r@ == self@,
    {
        self.0
    }
}

} // verus!
