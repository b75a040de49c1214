//! The instant a reply is stamped with, in its two written forms.
use vstd::prelude::*;

verus! {

/// The RFC 3339 text chrono writes for an instant given as UNIX seconds and
/// nanoseconds.
pub uninterp spec fn rfc3339_of(secs: int, nanos: int) -> Seq<char>;

/// Latest second of the year 9999 as a UNIX timestamp.
pub const LAST_SECOND_OF_9999: i64 = 253402300799;

/// Relies on `chrono::DateTime::<Utc>::from_timestamp` and `to_rfc3339`:
/// `None` only for out-of-range seconds or an invalid nanosecond count; the
/// text depends on the instant alone.
#[verifier::external_body]
fn format_rfc3339(secs: i64, nanos: u32) -> (r: Option<String>)
    ensures
        r matches Some(s) ==> s@ == rfc3339_of(secs as int, nanos as int),
        0 <= secs <= LAST_SECOND_OF_9999 && nanos < 1_000_000_000 ==> r is Some,
{
    chrono::DateTime::<chrono::Utc>::from_timestamp(secs, nanos).map(|t| t.to_rfc3339())
}

/// One instant, as RFC 3339 text and as whole UNIX seconds.
pub struct Timestamp {
    rfc3339: String,
    unix: i64,
    nanos: u32,
}

impl Timestamp {
    /// The RFC 3339 text.
    pub closed spec fn text(&self) -> Seq<char> {
        self.rfc3339@
    }

    /// Whole seconds since the UNIX epoch.
    pub closed spec fn secs(&self) -> i64 {
        self.unix
    }

    /// Both forms stand for the same instant.
    pub closed spec fn wf(&self) -> bool {
        self.rfc3339@ == rfc3339_of(self.unix as int, self.nanos as int)
    }

    /// The instant `secs` seconds and `nanos` nanoseconds after the UNIX epoch,
    /// if chrono can represent it.
    pub fn at(secs: i64, nanos: u32) -> (r: Option<Timestamp>)
        ensures
            r matches Some(t) ==> t.wf() && t.secs() == secs && t.text() == rfc3339_of(
                secs as int,
                nanos as int,
            ),
            0 <= secs <= LAST_SECOND_OF_9999 && nanos < 1_000_000_000 ==> r is Some,
    {
        match format_rfc3339(secs, nanos) {
            Some(rfc3339) => Some(Timestamp { rfc3339, unix: secs, nanos }),
            None => None,
        }
    }

    pub fn text_value(&self) -> (r: String)
        ensures
            r@ == self.text(),
    {
        self.rfc3339.clone()
    }

    pub fn unix_secs(&self) -> (r: i64)
        ensures
            r == self.secs(),
    {
        self.unix
    }
}

} // verus!
