//! Instants with the offset they were written in, kept to the second.
//!
//! The ledger stores them as RFC 3339 text; the library holds the instant as
//! seconds since the Unix epoch together with the offset east of UTC, and
//! leaves reading and writing the text to `chrono`. A leap second (`:60`) is
//! kept as `chrono` keeps it: the second it extends, marked as its leap.

use vstd::prelude::*;

verus! {

/// The earliest instant the library holds: a day inside what `chrono` can
/// represent, so that every offset still gives a representable local time.
pub const EARLIEST: i64 = -8334601228800;

/// The latest instant the library holds, a day inside `chrono`'s range.
pub const LATEST: i64 = 8210266790399;

/// Seconds in a day.
pub const DAY: i64 = 86400;

/// An instant, to the second, with the offset it was given in.
///
/// Two values are equal, and ordered, by the moment alone: the same moment
/// written in two offsets is one moment. A leap second comes after the
/// second it extends and before the next.
#[derive(Debug, Clone, Copy)]
pub struct Timestamp {
    secs: i64,
    offset: i32,
    leap: bool,
}

/// The text could not be read as an RFC 3339 date and time.
#[derive(Debug, Clone, PartialEq, Eq)]
pub struct TimestampError(pub String);

/// Whether an instant in an offset is written as text that reads back as
/// itself: a local date in the years 0000 to 9999, an offset of whole
/// minutes.
pub open spec fn writes_back(secs: int, offset: int) -> bool {
    -62167219200 <= secs + offset <= 253402300799 && offset % 60 == 0
}

/// The nanoseconds past the second that mark a leap second in `chrono`.
pub const LEAP_NANOS: u32 = 1000000000;

/// What `chrono` reads from RFC 3339 text: the instant, the offset, and the
/// nanoseconds past the instant's second (a leap second's are a whole second
/// or more).
pub uninterp spec fn rfc3339_reading(text: Seq<char>) -> Option<(i64, i32, u32)>;

/// What `chrono` writes for an instant in an offset with the nanoseconds
/// past its second, to the second, with the offset spelt out (`+00:00`, not
/// `Z`).
pub uninterp spec fn rfc3339_text(secs: i64, offset: i32, nanos: u32) -> Seq<char>;

/// `chrono::DateTime::parse_from_rfc3339`, read as the whole second, the
/// offset east of UTC in seconds, and the nanoseconds past the second.
///
/// Claims that the result is a function of the text alone, and, from the
/// RFC 3339 grammar that `chrono` accepts (a four-digit year, an offset of
/// hours and minutes within a day, a seconds field of 00 to 60 with any
/// fraction), that a reading lies in years 0000 to 9999, its offset is less
/// than a day either way, and its nanoseconds are under two seconds, a whole
/// second or more only on the 59th second of a UTC minute (`:60` is read as
/// `:59` and a second more, and a whole-minute offset keeps the minute's
/// seconds).
#[verifier::external_body]
fn read_rfc3339(text: &str) -> (r: Option<(i64, i32, u32)>)
    ensures
        r == rfc3339_reading(text@),
        r matches Some((s, o, n)) ==> -62167219200 - 86400 <= s <= 253402300799 + 86400 && -86400
            < o < 86400 && n < 2 * LEAP_NANOS && (n >= LEAP_NANOS ==> s % 60 == 59),
{
    match chrono::DateTime::parse_from_rfc3339(text) {
        Ok(t) => Some((t.timestamp(), t.offset().local_minus_utc(), t.timestamp_subsec_nanos())),
        Err(_) => None,
    }
}

/// `chrono::DateTime::to_rfc3339_opts` with whole seconds and `+00:00` for UTC,
/// of the instant built by `DateTime::from_timestamp(secs, nanos)`.
///
/// Claims that the text is a function of the instant, the offset and the
/// nanoseconds, and that reading it back gives them back when the local date
/// falls in the years 0000 to 9999 (which chrono writes with four digits and
/// reads) and the offset is whole minutes (which is all the text has room
/// for); a leap second is written as `:60`, which reads back as one.
#[verifier::external_body]
fn write_rfc3339(secs: i64, offset: i32, nanos: u32) -> (r: String)
    requires
        EARLIEST <= secs <= LATEST,
        -86400 < offset < 86400,
        nanos == 0 || (nanos == LEAP_NANOS && secs % 60 == 59),
    ensures
        r@ == rfc3339_text(secs, offset, nanos),
        writes_back(secs as int, offset as int) ==> rfc3339_reading(r@) == Some(
            (secs, offset, nanos),
        ),
{
    let zone = chrono::FixedOffset::east_opt(offset).expect("an offset within a day");
    let utc = chrono::DateTime::from_timestamp(secs, nanos).expect("an instant within range");
    utc.with_timezone(&zone).to_rfc3339_opts(chrono::SecondsFormat::Secs, false)
}

/// What `chrono` writes for the calendar date of an instant seen in an
/// offset (`NaiveDate`'s `Display`: `2026-03-01`).
pub uninterp spec fn local_date_text(secs: i64, offset: i32) -> Seq<char>;

/// `chrono::DateTime::date_naive` in the given offset, written by its `Display`.
///
/// Claims only that the text is a function of the instant and the offset.
#[verifier::external_body]
fn write_local_date(secs: i64, offset: i32) -> (r: String)
    requires
        EARLIEST <= secs <= LATEST,
        -86400 < offset < 86400,
    ensures
        r@ == local_date_text(secs, offset),
{
    let zone = chrono::FixedOffset::east_opt(offset).expect("an offset within a day");
    let utc = chrono::DateTime::from_timestamp(secs, 0).expect("an instant within range");
    utc.with_timezone(&zone).date_naive().to_string()
}

/// The system clock read as `chrono::DateTime::<Local>::from(SystemTime::now())`,
/// to the second, with the machine's offset at that moment.
///
/// Claims only that the offset is less than a day either way, as every
/// `FixedOffset` is; the instant is the clock's, and nothing is claimed of
/// it. A clock before 1970 is read as it is. chrono's conversion panics only
/// for a clock outside its calendar.
#[verifier::external_body]
fn clock_now() -> (r: (i64, i32))
    ensures
        -86400 < r.1 < 86400,
{
    let now = chrono::DateTime::<chrono::Local>::from(std::time::SystemTime::now()).fixed_offset();
    (now.timestamp(), now.offset().local_minus_utc())
}

impl Timestamp {
    #[verifier::type_invariant]
    spec fn held(self) -> bool {
        &&& EARLIEST <= self.secs <= LATEST
        &&& -86400 < self.offset < 86400
        &&& self.leap ==> self.secs % 60 == 59
    }

    /// Seconds since the Unix epoch; for a leap second, the second it extends.
    pub closed spec fn instant(self) -> int {
        self.secs as int
    }

    /// Whether this is a leap second (`:60`).
    pub closed spec fn is_leap(self) -> bool {
        self.leap
    }

    /// Where the moment stands in time, in half seconds: a leap second comes
    /// after the second it extends and before the next one.
    pub open spec fn order_key(self) -> int {
        2 * self.instant() + if self.is_leap() {
            1int
        } else {
            0int
        }
    }

    /// The nanoseconds past the second that `chrono` holds for the moment.
    pub open spec fn nanos(self) -> u32 {
        if self.is_leap() {
            LEAP_NANOS
        } else {
            0
        }
    }

    /// Whether this is a leap second, which only the 59th second of a UTC
    /// minute can have.
    pub fn leap_second(&self) -> (r: bool)
        ensures
            r == self.is_leap(),
            r ==> self.instant() % 60 == 59,
    {
        proof {
            use_type_invariant(self);
        }
        self.leap
    }

    /// The offset east of UTC, in seconds.
    pub closed spec fn offset_secs(self) -> int {
        self.offset as int
    }

    /// Seconds since the Unix epoch.
    pub fn epoch_seconds(&self) -> (r: i64)
        ensures
            r == self.instant(),
            EARLIEST <= r <= LATEST,
    {
        proof {
            use_type_invariant(self);
        }
        self.secs
    }

    /// The offset east of UTC, in seconds.
    pub fn offset_seconds(&self) -> (r: i32)
        ensures
            r == self.offset_secs(),
            -86400 < r < 86400,
    {
        proof {
            use_type_invariant(self);
        }
        self.offset
    }

    /// The instant `secs` after the epoch, in UTC; nothing outside the range
    /// the library holds.
    pub fn from_epoch(secs: i64) -> (r: Option<Timestamp>)
        ensures
            r is Some <==> EARLIEST <= secs <= LATEST,
            r matches Some(t) ==> t.instant() == secs && t.offset_secs() == 0 && !t.is_leap(),
    {
        if EARLIEST <= secs && secs <= LATEST {
            Some(Timestamp { secs, offset: 0, leap: false })
        } else {
            None
        }
    }

    /// The instant `secs` after the epoch seen in the offset `offset`;
    /// nothing outside the range the library holds or for an offset of a
    /// day or more.
    pub fn from_reading(secs: i64, offset: i32) -> (r: Option<Timestamp>)
        ensures
            r is Some <==> (EARLIEST <= secs <= LATEST && -86400 < offset < 86400),
            r matches Some(t) ==> t.instant() == secs && t.offset_secs() == offset && !t.is_leap(),
    {
        if EARLIEST <= secs && secs <= LATEST && -86400 < offset && offset < 86400 {
            Some(Timestamp { secs, offset, leap: false })
        } else {
            None
        }
    }

    /// The moment `chrono` holds as `secs` after the epoch with `nanos` past
    /// that second, seen in the offset `offset`, to the second: nanoseconds
    /// of a whole second or more mark a leap second, which only the 59th
    /// second of a UTC minute can have. Nothing outside the range the library
    /// holds, for an offset of a day or more, or for such a leap elsewhere.
    pub fn from_parts(secs: i64, offset: i32, nanos: u32) -> (r: Option<Timestamp>)
        ensures
            r is Some <==> (EARLIEST <= secs <= LATEST && -86400 < offset < 86400 && (nanos
                >= LEAP_NANOS ==> secs % 60 == 59)),
            r matches Some(t) ==> t.instant() == secs && t.offset_secs() == offset && t.is_leap()
                == (nanos >= LEAP_NANOS),
    {
        if EARLIEST <= secs && secs <= LATEST && -86400 < offset && offset < 86400 {
            let leap = nanos >= LEAP_NANOS;
            // EARLIEST is a whole number of minutes, so counting from it
            // keeps the second within the minute.
            let since_earliest: i64 = secs - EARLIEST;
            assert(since_earliest % 60 == secs % 60);
            if leap && since_earliest % 60 != 59 {
                None
            } else {
                Some(Timestamp { secs, offset, leap })
            }
        } else {
            None
        }
    }

    /// The moment of the call, in the machine's offset: the clock's reading
    /// as [`Timestamp::from_reading`] takes it, so nothing for a clock that
    /// lies outside the range the library holds.
    pub fn now() -> (r: Option<Timestamp>)
        ensures
            r matches Some(t) ==> EARLIEST <= t.instant() <= LATEST && -86400 < t.offset_secs()
                < 86400 && !t.is_leap(),
    {
        let (secs, offset) = clock_now();
        Timestamp::from_reading(secs, offset)
    }

    /// Reads RFC 3339 text; a fraction of a second is dropped, and `:60` is
    /// kept as a leap second.
    pub fn parse(text: &str) -> (r: Result<Timestamp, TimestampError>)
        ensures
            r is Ok <==> rfc3339_reading(text@) is Some,
            r matches Ok(t) ==> reads_as(text@, t),
            r matches Ok(t) ==> EARLIEST <= t.instant() <= LATEST && -86400 < t.offset_secs()
                < 86400,
            r matches Err(e) ==> e.0@ == text@,
    {
        match read_rfc3339(text) {
            Some((secs, offset, nanos)) => Ok(Timestamp { secs, offset, leap: nanos >= LEAP_NANOS }),
            None => Err(TimestampError(text.to_owned())),
        }
    }

    /// The RFC 3339 text of the moment in its own offset, to the second; a
    /// leap second is written as `:60`.
    pub fn to_text(self) -> (r: String)
        ensures
            r@ == rfc3339_text(self.instant() as i64, self.offset_secs() as i32, self.nanos()),
            writes_back(self.instant(), self.offset_secs()) ==> reads_as(r@, self),
    {
        proof {
            use_type_invariant(self);
        }
        let nanos: u32 = if self.leap {
            LEAP_NANOS
        } else {
            0
        };
        write_rfc3339(self.secs, self.offset, nanos)
    }

    /// The calendar date of the instant in its own offset, as the source saw it.
    pub fn date_text(self) -> (r: String)
        ensures
            r@ == local_date_text(self.instant() as i64, self.offset_secs() as i32),
    {
        proof {
            use_type_invariant(self);
        }
        write_local_date(self.secs, self.offset)
    }

    /// The same instant `days` whole days later, in the same offset; nothing
    /// when that leaves the range the library holds.
    ///
    /// A fixed offset has no daylight saving, so a day is always 86400
    /// seconds and adding days is adding seconds. One or more whole days
    /// added to a leap second leave it, as `chrono` does: they count from the
    /// second it extends.
    pub fn plus_days(self, days: u32) -> (r: Option<Timestamp>)
        ensures
            r is Some <==> self.instant() + DAY * days <= LATEST,
            r matches Some(t) ==> t.instant() == self.instant() + DAY * days && t.offset_secs()
                == self.offset_secs() && t.is_leap() == (self.is_leap() && days == 0),
    {
        proof {
            use_type_invariant(self);
        }
        let step: i64 = DAY * (days as i64);
        if self.secs <= LATEST - step {
            Some(Timestamp { secs: self.secs + step, offset: self.offset, leap: self.leap && days == 0 })
        } else {
            None
        }
    }

    /// Whether this moment comes strictly before `other`.
    pub fn is_before(&self, other: &Timestamp) -> (r: bool)
        ensures
            r == (self.order_key() < other.order_key()),
    {
        self.secs < other.secs || (self.secs == other.secs && !self.leap && other.leap)
    }

    /// Whether this moment is `other` or comes before it.
    pub fn is_at_or_before(&self, other: &Timestamp) -> (r: bool)
        ensures
            r == (self.order_key() <= other.order_key()),
    {
        self.secs < other.secs || (self.secs == other.secs && (!self.leap || other.leap))
    }
}

/// Whether RFC 3339 text reads as a timestamp: its instant, its offset, and
/// whether it is a leap second.
pub open spec fn reads_as(text: Seq<char>, t: Timestamp) -> bool {
    rfc3339_reading(text) matches Some((s, o, n)) && s == t.instant() && o == t.offset_secs() && (n
        >= LEAP_NANOS) == t.is_leap()
}

/// Where RFC 3339 text stands in time, as the order key of the timestamp it
/// reads as; zero when it does not read.
pub open spec fn moment_read(text: Seq<char>) -> int {
    match rfc3339_reading(text) {
        Some((s, _, n)) => 2 * s + if n >= LEAP_NANOS {
            1int
        } else {
            0int
        },
        None => 0,
    }
}

/// A timestamp is its instant, its offset and whether it is a leap second:
/// two that agree on all three are the same.
pub proof fn lemma_same_reading_same_timestamp(a: Timestamp, b: Timestamp)
    requires
        a.instant() == b.instant(),
        a.offset_secs() == b.offset_secs(),
        a.is_leap() == b.is_leap(),
    ensures
        a == b,
{
}

impl PartialEq for Timestamp {
    fn eq(&self, other: &Timestamp) -> (r: bool) {
        self.secs == other.secs && self.leap == other.leap
    }
}

impl vstd::std_specs::cmp::PartialEqSpecImpl for Timestamp {
    open spec fn obeys_eq_spec() -> bool {
        true
    }

    open spec fn eq_spec(&self, other: &Timestamp) -> bool {
        self.order_key() == other.order_key()
    }
}

impl Eq for Timestamp {}

} // verus!
