//! Instants of time, held by their text.

use vstd::prelude::*;

verus! {

/// The text `text`, read as a date and time with an offset in the relaxed
/// RFC 3339 form that `chrono` accepts, moved to UTC and written back in
/// RFC 3339 with `Z` for the offset and as many digits of the second's
/// fraction as the instant needs; nothing where `chrono` rejects `text`.
pub uninterp spec fn utc_timestamp(text: Seq<char>) -> Option<Seq<char>>;

/// Parses `text` with `chrono`'s `FromStr` for `DateTime<FixedOffset>`,
/// moves the result to UTC with `with_timezone`, and writes it with
/// `to_rfc3339_opts(SecondsFormat::AutoSi, true)`: how `chrono` reads a
/// `DateTime<Utc>` from a document, and how it writes one.
#[verifier::external_body]
fn normalize_utc(text: &str) -> (r: Option<String>)
    ensures
        r matches Some(t) ==> utc_timestamp(text@) == Some(t@),
        r is None ==> utc_timestamp(text@) is None,
{
    text.parse::<chrono::DateTime<chrono::FixedOffset>>().ok().map(
        |t| t.with_timezone(&chrono::Utc).to_rfc3339_opts(chrono::SecondsFormat::AutoSi, true),
    )
}

/// An instant of time in UTC, held by its RFC 3339 text.
#[derive(Clone, Debug, PartialEq, Eq)]
pub struct Timestamp {
    text: String,
}

impl View for Timestamp {
    type V = Seq<char>;

    closed spec fn view(&self) -> Seq<char> {
        self.text@
    }
}

impl Timestamp {
    /// Reads an instant from its RFC 3339 text. The instant is kept in UTC,
    /// whatever the offset of the text.
    pub fn parse(text: &str) -> (r: Option<Timestamp>)
        ensures
            r matches Some(t) ==> utc_timestamp(text@) == Some(t@),
            r is None ==> utc_timestamp(text@) is None,
    {
        match normalize_utc(text) {
            Some(t) => Some(Timestamp { text: t }),
            None => None,
        }
    }

    /// The RFC 3339 text of the instant.
    pub fn to_rfc3339(&self) -> (r: String)
        ensures
            r@ == self@,
    {
        self.text.clone()
    }

    /// A copy of the instant.
    pub fn duplicate(&self) -> (r: Timestamp)
        ensures
            r@ == self@,
    {
        Timestamp { text: self.text.clone() }
    }
}

} // verus!
