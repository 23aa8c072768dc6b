use vstd::prelude::*;

verus! {

/// The first second of the year 10000, counted from the Unix epoch: below it
/// a year is written with four digits.
pub const YEAR_10000_SECS: u64 = 253402300800;

pub open spec fn is_digit(c: char) -> bool {
    '0' <= c && c <= '9'
}

/// Whether `t[from..to]` consists of decimal digits.
pub open spec fn digits_between(t: Seq<char>, from: int, to: int) -> bool {
    forall|i: int| from <= i < to ==> is_digit(#[trigger] t[i])
}

/// RFC 3339 text of a UTC time with a four-digit year, as chrono writes it:
/// `YYYY-MM-DDTHH:MM:SS`, an optional fraction of 3, 6 or 9 digits after a
/// point, and the zero offset `+00:00`.
pub open spec fn rfc3339_layout(t: Seq<char>) -> bool {
    &&& t.len() == 25 || t.len() == 29 || t.len() == 32 || t.len() == 35
    &&& digits_between(t, 0, 4)
    &&& t[4] == '-'
    &&& digits_between(t, 5, 7)
    &&& t[7] == '-'
    &&& digits_between(t, 8, 10)
    &&& t[10] == 'T'
    &&& digits_between(t, 11, 13)
    &&& t[13] == ':'
    &&& digits_between(t, 14, 16)
    &&& t[16] == ':'
    &&& digits_between(t, 17, 19)
    &&& t.len() > 25 ==> t[19] == '.' && digits_between(t, 20, t.len() - 6)
    &&& t.subrange(t.len() - 6, t.len() as int) == seq!['+', '0', '0', ':', '0', '0']
}

/// The stamp used when the clock reading cannot be written: the Unix epoch.
pub const EPOCH_TIMESTAMP: &'static str = "1970-01-01T00:00:00+00:00";

/// What chrono writes for the UTC time `secs` seconds and `nanos`
/// nanoseconds after the Unix epoch.
pub uninterp spec fn rfc3339_text(secs: int, nanos: int) -> Seq<char>;

#[verifier::external_type_specification]
#[verifier::external_body]
pub struct ExSystemTime(std::time::SystemTime);

/// Relies on std's `SystemTime::now`: a reading of the wall clock.
#[verifier::external_body]
fn system_now() -> (r: std::time::SystemTime) {
    std::time::SystemTime::now()
}

/// Relies on std's `SystemTime::duration_since(UNIX_EPOCH)`: the whole seconds
/// and the nanoseconds within the second since 1970, or `None` when `t` lies
/// earlier. The nanoseconds are under one billion, as `Duration::subsec_nanos`
/// documents.
#[verifier::external_body]
fn since_unix_epoch(t: &std::time::SystemTime) -> (r: Option<(u64, u32)>)
    ensures
        r matches Some((_, nanos)) ==> nanos < 1_000_000_000,
{
    match t.duration_since(std::time::UNIX_EPOCH) {
        Ok(d) => Some((d.as_secs(), d.subsec_nanos())),
        Err(_) => None,
    }
}

/// Relies on chrono's `DateTime::<Utc>::from_timestamp`, rendered by
/// `DateTime::to_rfc3339`. `from_timestamp` gives a value for every time from
/// the epoch up to the year 9999 with nanoseconds under one billion, and
/// `write_rfc3339` writes such a time in the layout above, with offset `+00:00`.
#[verifier::external_body]
fn rfc3339_utc(secs: i64, nanos: u32) -> (r: Option<String>)
    ensures
        r matches Some(t) ==> t@ == rfc3339_text(secs as int, nanos as int),
        0 <= secs < YEAR_10000_SECS && nanos < 1_000_000_000 ==> r is Some,
        r matches Some(t) ==> (0 <= secs < YEAR_10000_SECS ==> rfc3339_layout(t@)),
{
    match chrono::DateTime::from_timestamp(secs, nanos) {
        Some(t) => Some(t.to_rfc3339()),
        None => None,
    }
}

/// The RFC 3339 text of a clock reading given as seconds and nanoseconds
/// since the Unix epoch; the epoch itself when there is no reading or it lies
/// in the year 10000 or later.
pub fn timestamp_at(clock: Option<(u64, u32)>) -> (r: String)
    ensures
        r@ == match clock {
            Some((s, n)) => if s < YEAR_10000_SECS && n < 1_000_000_000 {
                rfc3339_text(s as int, n as int)
            } else {
                EPOCH_TIMESTAMP@
            },
            None => EPOCH_TIMESTAMP@,
        },
        rfc3339_layout(r@),
{
    if let Some((secs, nanos)) = clock {
        if secs < YEAR_10000_SECS && nanos < 1_000_000_000 {
            if let Some(t) = rfc3339_utc(secs as i64, nanos) {
                return t;
            }
        }
    }
    let r = String::from_str(EPOCH_TIMESTAMP);
    proof {
        reveal_strlit("1970-01-01T00:00:00+00:00");
        let t = r@;
        assert(t =~= seq![
            '1', '9', '7', '0', '-', '0', '1', '-', '0', '1', 'T', '0', '0', ':', '0', '0', ':',
            '0', '0', '+', '0', '0', ':', '0', '0',
        ]);
        assert(t.subrange(t.len() - 6, t.len() as int) =~= seq!['+', '0', '0', ':', '0', '0']);
    }
    r
}

/// The current UTC time as RFC 3339 text; the Unix epoch when the clock reads
/// before 1970 or in the year 10000 or later.
pub fn current_timestamp() -> (r: String)
    ensures
        rfc3339_layout(r@),
{
    let now = system_now();
    timestamp_at(since_unix_epoch(&now))
}

} // verus!
