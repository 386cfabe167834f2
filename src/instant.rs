//! UTC instants and the calls into chrono that read, write and check them.
use vstd::prelude::*;

verus! {

/// What chrono's `DateTime::parse_from_rfc3339` yields for a text, converted to UTC:
/// whole seconds since the epoch and the nanoseconds past them.
pub uninterp spec fn rfc3339_instant(text: Seq<char>) -> Option<(i64, u32)>;

/// Earliest second chrono represents: -262143-01-01T00:00:00Z.
pub const MIN_UTC_SECS: i64 = -8334601228800;

/// Latest second chrono represents: +262142-12-31T23:59:59Z.
pub const MAX_UTC_SECS: i64 = 8210266876799;

/// Whether chrono can represent the UTC instant `secs` seconds and `nanos`
/// nanoseconds past the epoch: the second lies in its date range, and the nanoseconds
/// stay below one second, or below two in the last second of a minute (a leap second).
pub open spec fn representable_instant(secs: i64, nanos: u32) -> bool {
    &&& MIN_UTC_SECS <= secs <= MAX_UTC_SECS
    &&& (nanos < 1_000_000_000 || (nanos < 2_000_000_000 && secs % 60 == 59))
}

/// chrono's RFC 3339 text of the UTC instant `secs`, `nanos`.
pub uninterp spec fn rfc3339_text(secs: i64, nanos: u32) -> Seq<char>;

/// Relies on chrono's `Utc::now`: the current time in whole seconds since the epoch.
#[verifier::external_body]
pub fn unix_now() -> (r: i64) {
    chrono::Utc::now().timestamp()
}

/// Relies on chrono's `DateTime::parse_from_rfc3339`, converted to UTC. A parsed
/// instant is one that chrono holds, so it is representable.
#[verifier::external_body]
pub fn parse_rfc3339(text: &str) -> (r: Option<(i64, u32)>)
    ensures
        r == rfc3339_instant(text@),
        r matches Some(p) ==> representable_instant(p.0, p.1),
{
    chrono::DateTime::parse_from_rfc3339(text).ok().map(
        |d| {
            let u = d.with_timezone(&chrono::Utc);
            (u.timestamp(), u.timestamp_subsec_nanos())
        },
    )
}

/// Relies on chrono's `DateTime::<Utc>::from_timestamp`, which returns `None` for an
/// instant out of its range.
#[verifier::external_body]
pub fn is_representable(secs: i64, nanos: u32) -> (r: bool)
    ensures
        r == representable_instant(secs, nanos),
{
    chrono::DateTime::<chrono::Utc>::from_timestamp(secs, nanos).is_some()
}

/// Relies on chrono's `DateTime::to_rfc3339` of `DateTime::<Utc>::from_timestamp`.
#[verifier::external_body]
fn format_rfc3339(secs: i64, nanos: u32) -> (r: String)
    requires
        representable_instant(secs, nanos),
    ensures
        r@ == rfc3339_text(secs, nanos),
{
    chrono::DateTime::<chrono::Utc>::from_timestamp(secs, nanos).unwrap().to_rfc3339()
}

/// A UTC instant that chrono can represent.
#[derive(Debug, Clone, Copy, PartialEq, Eq, Structural)]
pub struct UtcInstant {
    secs: i64,
    nanos: u32,
}

impl UtcInstant {
    #[verifier::type_invariant]
    spec fn inv(self) -> bool {
        representable_instant(self.secs, self.nanos)
    }

    pub closed spec fn spec_secs(self) -> i64 {
        self.secs
    }

    pub closed spec fn spec_nanos(self) -> u32 {
        self.nanos
    }

    /// The instant, if chrono can represent it.
    pub fn from_parts(secs: i64, nanos: u32) -> (r: Option<UtcInstant>)
        ensures
            r is Some <==> representable_instant(secs, nanos),
            r matches Some(t) ==> t.spec_secs() == secs && t.spec_nanos() == nanos,
    {
        if is_representable(secs, nanos) {
            Some(UtcInstant { secs, nanos })
        } else {
            None
        }
    }

    /// Reads an RFC 3339 date-time, in any offset, as a UTC instant.
    pub fn parse(text: &str) -> (r: Option<UtcInstant>)
        ensures
            r is Some <==> rfc3339_instant(text@) is Some,
            r matches Some(t) ==> rfc3339_instant(text@) == Some((t.spec_secs(), t.spec_nanos())),
    {
        match parse_rfc3339(text) {
            Some((secs, nanos)) => Some(UtcInstant { secs, nanos }),
            None => None,
        }
    }

    pub fn secs(&self) -> (r: i64)
        ensures
            r == self.spec_secs(),
    {
        self.secs
    }

    pub fn nanos(&self) -> (r: u32)
        ensures
            r == self.spec_nanos(),
    {
        self.nanos
    }

    /// The instant in RFC 3339 form, with a `+00:00` offset.
    pub fn to_rfc3339(&self) -> (r: String)
        ensures
            r@ == rfc3339_text(self.spec_secs(), self.spec_nanos()),
    {
        proof {
            use_type_invariant(self);
        }
        format_rfc3339(self.secs, self.nanos)
    }
}

} // verus!
