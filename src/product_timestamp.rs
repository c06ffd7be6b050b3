use vstd::prelude::*;

verus! {

/// The RFC 3339 text of an instant given in milliseconds since the Unix epoch, with
/// milliseconds and a numeric offset; `None` where chrono cannot represent the instant.
pub uninterp spec fn rfc3339_millis_text(millis: int) -> Option<Seq<char>>;

/// Relies on chrono's `DateTime::<Utc>::from_timestamp_millis` (`None` outside chrono's
/// range) and `to_rfc3339_opts(SecondsFormat::Millis, false)`: the text depends on the
/// instant alone.
#[verifier::external_body]
fn rfc3339_of_millis(millis: i64) -> (r: Option<String>)
    ensures
        match r {
            Some(text) => rfc3339_millis_text(millis as int) == Some(text@),
            None => rfc3339_millis_text(millis as int) is None,
        },
{
    chrono::DateTime::<chrono::Utc>::from_timestamp_millis(millis).map(
        |d| d.to_rfc3339_opts(chrono::SecondsFormat::Millis, false),
    )
}

/// Relies on `chrono::Utc::now` (read with `timestamp_millis`): the current instant.
#[verifier::external_body]
fn now_millis() -> i64 {
    chrono::Utc::now().timestamp_millis()
}

/// A UTC instant with millisecond precision, held as milliseconds since the Unix epoch.
#[derive(Debug, Clone, Copy, PartialEq, Eq, Structural)]
pub struct ProductTimeStamp(i64);

impl View for ProductTimeStamp {
    type V = i64;

    closed spec fn view(&self) -> i64 {
        self.0
    }
}

impl ProductTimeStamp {
    /// The current instant.
    pub fn now() -> (r: ProductTimeStamp) {
        ProductTimeStamp(now_millis())
    }

    pub fn from_millis(millis: i64) -> (r: ProductTimeStamp)
        ensures
            r@ == millis,
    {
        ProductTimeStamp(millis)
    }

    pub fn to_primitive(self) -> (r: i64)
        ensures
            r == self@,
    {
        self.0
    }

    /// Whether this instant comes strictly after `other`.
    pub fn is_later_than(&self, other: &ProductTimeStamp) -> (r: bool)
        ensures
            r == (self@ > other@),
    {
        self.0 > other.0
    }

    /// The RFC 3339 text of the instant, truncated to milliseconds.
    pub fn to_rfc3339(&self) -> (r: Option<String>)
        ensures
            match r {
                Some(text) => rfc3339_millis_text(self@ as int) == Some(text@),
                None => rfc3339_millis_text(self@ as int) is None,
            },
    {
        rfc3339_of_millis(self.0)
    }
}

} // verus!
