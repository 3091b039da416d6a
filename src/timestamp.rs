use vstd::prelude::*;

use crate::extract::slice_range;
use crate::text::{
    chars_of, find_char, first_char, is_first_char, lemma_first_char_some, lemma_first_char_unique,
    string_of,
};

verus! {

/// The earliest second that chrono represents: -262143-01-01T00:00:00Z.
pub const MIN_EPOCH_SECONDS: i64 = -8334601228800;

/// The latest second that chrono represents: 262142-12-31T23:59:59Z.
pub const MAX_EPOCH_SECONDS: i64 = 8210266876799;

/// Epoch fields whose magnitude exceeds this are out of range in every reading.
const EPOCH_LIMIT: u64 = 100000000000000000;

/// `secs` seconds after the epoch is a calendar date-time chrono can represent.
pub open spec fn in_utc_range(secs: int) -> bool {
    MIN_EPOCH_SECONDS <= secs <= MAX_EPOCH_SECONDS
}

/// The proleptic Gregorian date (year, month, day) of day `days`, counted
/// from 1970-01-01 (days before it are negative).
pub open spec fn civil_from_days(days: int) -> (int, int, int) {
    let z = days + 719468;
    let era = z / 146097;
    let doe = z - era * 146097;
    let yoe = (doe - doe / 1460 + doe / 36524 - doe / 146096) / 365;
    let doy = doe - (365 * yoe + yoe / 4 - yoe / 100);
    let mp = (5 * doy + 2) / 153;
    let d = doy - (153 * mp + 2) / 5 + 1;
    let m = if mp < 10 {
        mp + 3
    } else {
        mp - 9
    };
    let y = if m <= 2 {
        yoe + era * 400 + 1
    } else {
        yoe + era * 400
    };
    (y, m, d)
}

/// The calendar date in UTC of the instant `ms` milliseconds after the epoch.
pub open spec fn utc_date_of_millis(ms: int) -> (int, int, int) {
    civil_from_days(ms / 86400000)
}

/// Relies on chrono's `DateTime::from_timestamp`, which, with no sub-second
/// part, accepts exactly the seconds from `MIN_EPOCH_SECONDS` to
/// `MAX_EPOCH_SECONDS`.
#[verifier::external_body]
fn chrono_accepts_timestamp(secs: i64) -> (r: bool)
    ensures
        r == in_utc_range(secs as int),
{
    chrono::DateTime::from_timestamp(secs, 0).is_some()
}

/// Relies on chrono's `NaiveDateTime::from_timestamp_millis` and the
/// `NaiveDate` it holds: present exactly for an instant whose second is in
/// range, and then the Gregorian date of the instant's day, with month in
/// 1..=12 and day in 1..=31.
#[verifier::external_body]
#[allow(deprecated)]
fn chrono_date_of_millis(ms: i64) -> (r: Option<(i32, u32, u32)>)
    ensures
        r is Some <==> in_utc_range(ms as int / 1000),
        r matches Some(d) ==> (d.0 as int, d.1 as int, d.2 as int) == utc_date_of_millis(ms as int)
            && 1 <= d.1 <= 12 && 1 <= d.2 <= 31,
{
    match chrono::NaiveDateTime::from_timestamp_millis(ms) {
        Some(t) => {
            let d = chrono::NaiveDate::from(t);
            Some((chrono::Datelike::year(&d), chrono::Datelike::month(&d), chrono::Datelike::day(&d)))
        },
        None => None,
    }
}

/// A point in time in UTC, to the millisecond.
#[derive(Debug, Clone, Copy, PartialEq, Eq, Structural)]
pub struct UtcDateTime {
    timestamp_millis: i64,
}

impl UtcDateTime {
    /// Milliseconds since the epoch.
    pub closed spec fn millis(&self) -> int {
        self.timestamp_millis as int
    }

    /// The instant is one chrono can represent.
    pub open spec fn wf(&self) -> bool {
        in_utc_range(self.millis() / 1000)
    }

    /// The instant `secs` seconds after the epoch, if chrono can represent it.
    pub fn from_timestamp(secs: i64) -> (r: Option<UtcDateTime>)
        ensures
            match r {
                Some(t) => t.wf() && t.millis() == secs * 1000,
                None => !in_utc_range(secs as int),
            },
    {
        if chrono_accepts_timestamp(secs) {
            Some(UtcDateTime { timestamp_millis: secs * 1000 })
        } else {
            None
        }
    }

    /// The instant `ms` milliseconds after the epoch, if chrono can represent it.
    pub fn from_timestamp_millis(ms: i64) -> (r: Option<UtcDateTime>)
        ensures
            match r {
                Some(t) => t.wf() && t.millis() == ms,
                None => !in_utc_range(ms as int / 1000),
            },
    {
        if chrono_accepts_timestamp(floor_seconds(ms)) {
            Some(UtcDateTime { timestamp_millis: ms })
        } else {
            None
        }
    }

    /// Milliseconds since the epoch.
    pub fn timestamp_millis(&self) -> (r: i64)
        ensures
            r == self.millis(),
    {
        self.timestamp_millis
    }

    /// Whole seconds since the epoch, rounded down.
    pub fn timestamp(&self) -> (r: i64)
        ensures
            r == self.millis() / 1000,
    {
        floor_seconds(self.timestamp_millis)
    }
}

/// `ms` milliseconds in whole seconds, rounded down.
fn floor_seconds(ms: i64) -> (r: i64)
    ensures
        r == ms as int / 1000,
{
    if ms >= 0 {
        ((ms as u64) / 1000) as i64
    } else {
        let a: u64 = (-(ms + 1)) as u64;
        let q: u64 = a / 1000;
        assert(-(q as int) - 1 == ms as int / 1000) by (nonlinear_arith)
            requires
                a == -(ms + 1),
                q == a / 1000,
                ms < 0,
        ;
        -(q as i64) - 1
    }
}

/// A calendar date in UTC.
#[derive(Debug, Clone, Copy, PartialEq, Eq, Structural)]
pub struct CalendarDate {
    pub year: i32,
    pub month: u32,
    pub day: u32,
}

/// Which step of decoding a timestamp string failed.
#[derive(Debug, Clone, Copy, PartialEq, Eq, Structural)]
pub enum Malformed {
    /// The string holds no `(`.
    MissingOpenParen,
    /// No `+` follows the first `(`.
    MissingOffsetSign,
    /// The text between them is not a base-10 integer.
    InvalidEpoch,
    /// The integer names no instant that can be represented.
    EpochOutOfRange,
}

/// A timestamp string that does not have the expected shape: the step that
/// failed and the text it failed on.
#[derive(Debug, Clone)]
pub struct TimestampError {
    pub kind: Malformed,
    pub fragment: String,
}

impl TimestampError {
    /// The step that failed.
    pub fn kind(&self) -> (r: Malformed)
        ensures
            r == self.kind,
    {
        self.kind
    }

    /// The text the step failed on.
    pub fn fragment(&self) -> (r: &String)
        ensures
            r@ == self.fragment@,
    {
        &self.fragment
    }
}

pub open spec fn is_digit(c: char) -> bool {
    '0' <= c <= '9'
}

pub open spec fn all_digits(d: Seq<char>) -> bool {
    forall|i: int| 0 <= i < d.len() ==> is_digit(#[trigger] d[i])
}

pub open spec fn digit_value(c: char) -> int {
    (c as u32) as int - ('0' as u32) as int
}

/// The value of a run of decimal digits, most significant first.
pub open spec fn digits_value(d: Seq<char>) -> int
    decreases d.len(),
{
    if d.len() == 0 {
        0
    } else {
        digits_value(d.drop_last()) * 10 + digit_value(d.last())
    }
}

/// The integer that `f` spells in base 10, with an optional leading `-`.
pub open spec fn epoch_value(f: Seq<char>) -> Option<int> {
    if f.len() >= 2 && f[0] == '-' && all_digits(f.drop_first()) {
        Some(-digits_value(f.drop_first()))
    } else if f.len() >= 1 && all_digits(f) {
        Some(digits_value(f))
    } else {
        None
    }
}

/// Bounds of the epoch field: from just after the first `(` up to the first
/// `+` after it; or the failed step with the text it failed on.
pub open spec fn epoch_span(s: Seq<char>) -> Result<(int, int), (Malformed, Seq<char>)> {
    match first_char(s, '(') {
        None => Err((Malformed::MissingOpenParen, s)),
        Some(i) => {
            let rest = s.subrange(i + 1, s.len() as int);
            match first_char(rest, '+') {
                None => Err((Malformed::MissingOffsetSign, rest)),
                Some(j) => Ok((i + 1, i + 1 + j)),
            }
        },
    }
}

/// The integer of the epoch field, with the field's text.
pub open spec fn epoch_number(s: Seq<char>) -> Result<(int, Seq<char>), (Malformed, Seq<char>)> {
    match epoch_span(s) {
        Err(e) => Err(e),
        Ok((lo, hi)) => {
            let f = s.subrange(lo, hi);
            match epoch_value(f) {
                None => Err((Malformed::InvalidEpoch, f)),
                Some(v) => Ok((v, f)),
            }
        },
    }
}

/// The instant, in epoch milliseconds, that `s` encodes when its field counts
/// seconds; the zone offset is not read.
pub open spec fn decoded_date_time(s: Seq<char>) -> Result<int, (Malformed, Seq<char>)> {
    match epoch_number(s) {
        Err(e) => Err(e),
        Ok((v, f)) => if in_utc_range(v) {
            Ok(v * 1000)
        } else {
            Err((Malformed::EpochOutOfRange, f))
        },
    }
}

/// The UTC calendar date of the instant that `s` encodes when its field counts
/// milliseconds.
pub open spec fn decoded_date(s: Seq<char>) -> Result<(int, int, int), (Malformed, Seq<char>)> {
    match epoch_number(s) {
        Err(e) => Err(e),
        Ok((v, f)) => if in_utc_range(v / 1000) {
            Ok(utc_date_of_millis(v))
        } else {
            Err((Malformed::EpochOutOfRange, f))
        },
    }
}

/// `r` is the decoding result, in epoch milliseconds, that `e` describes.
pub open spec fn time_result_is(r: Result<UtcDateTime, TimestampError>, e: Result<int, (Malformed, Seq<char>)>) -> bool {
    match (r, e) {
        (Ok(t), Ok(m)) => t.wf() && t.millis() == m,
        (Err(x), Err((k, f))) => x.kind == k && x.fragment@ == f,
        _ => false,
    }
}

/// `r` is the date result that `e` describes.
pub open spec fn date_result_is(r: Result<CalendarDate, TimestampError>, e: Result<(int, int, int), (Malformed, Seq<char>)>) -> bool {
    match (r, e) {
        (Ok(d), Ok((y, m, dd))) => d.year as int == y && d.month as int == m && d.day as int == dd,
        (Err(x), Err((k, f))) => x.kind == k && x.fragment@ == f,
        _ => false,
    }
}


/// What the epoch field spells: no integer, an integer of magnitude above
/// `EPOCH_LIMIT`, or a sign and a magnitude.
enum EpochField {
    Invalid,
    Huge,
    Value(bool, u64),
}

proof fn lemma_digits_nonneg(d: Seq<char>)
    requires
        all_digits(d),
    ensures
        digits_value(d) >= 0,
    decreases d.len(),
{
    if d.len() > 0 {
        assert(is_digit(d[d.len() - 1]));
        lemma_digits_nonneg(d.drop_last());
    }
}

/// A prefix of a digit run is worth no more than the run.
proof fn lemma_digits_prefix(d: Seq<char>, k: int)
    requires
        all_digits(d),
        0 <= k <= d.len(),
    ensures
        digits_value(d.subrange(0, k)) <= digits_value(d),
    decreases d.len(),
{
    if k == d.len() {
        assert(d.subrange(0, k) =~= d);
    } else {
        let e = d.drop_last();
        assert(e.subrange(0, k) =~= d.subrange(0, k));
        assert(is_digit(d[d.len() - 1]));
        lemma_digits_prefix(e, k);
        lemma_digits_nonneg(e);
    }
}

/// Finds the epoch field: from just after the first `(` to the first `+`
/// after it.
fn epoch_span_of(s: &[char]) -> (r: Result<(usize, usize), TimestampError>)
    ensures
        match (r, epoch_span(s@)) {
            (Ok((lo, hi)), Ok((l, h))) => lo == l && hi == h && lo <= hi <= s@.len(),
            (Err(e), Err((k, f))) => e.kind == k && e.fragment@ == f,
            _ => false,
        },
{
    let n = s.len();
    proof {
        assert(s@.subrange(0, n as int) =~= s@);
    }
    match find_char(s, '(', 0) {
        None => Err(TimestampError { kind: Malformed::MissingOpenParen, fragment: string_of(s) }),
        Some(i) => {
            proof {
                lemma_first_char_some(s@, '(');
            }
            match find_char(s, '+', i + 1) {
                None => Err(
                    TimestampError {
                        kind: Malformed::MissingOffsetSign,
                        fragment: string_of(slice_range(s, i + 1, n).as_slice()),
                    },
                ),
                Some(j) => {
                    proof {
                        lemma_first_char_some(s@.subrange(i + 1, n as int), '+');
                    }
                    Ok((i + 1, j))
                },
            }
        },
    }
}

/// Reads `s[lo..hi]` as a base-10 integer with an optional leading `-`.
fn parse_epoch(s: &[char], lo: usize, hi: usize) -> (r: EpochField)
    requires
        lo <= hi <= s@.len(),
    ensures
        match r {
            EpochField::Invalid => epoch_value(s@.subrange(lo as int, hi as int)) is None,
            EpochField::Huge => epoch_value(s@.subrange(lo as int, hi as int)) matches Some(v) && (v
                > EPOCH_LIMIT || v < -EPOCH_LIMIT),
            EpochField::Value(neg, m) => m <= EPOCH_LIMIT && epoch_value(
                s@.subrange(lo as int, hi as int),
            ) == Some(if neg { -(m as int) } else { m as int }),
        },
{
    let ghost f = s@.subrange(lo as int, hi as int);
    let neg = lo < hi && s[lo] == '-';
    let start: usize = if neg { lo + 1 } else { lo };
    let ghost d = s@.subrange(start as int, hi as int);
    proof {
        if lo < hi {
            assert(f[0] == s@[lo as int]);
        }
        if neg {
            assert(f.drop_first() =~= d);
        } else {
            assert(f =~= d);
        }
    }
    if start == hi {
        proof {
            if neg {
                assert(f.len() == 1 && !is_digit(f[0]));
            }
        }
        return EpochField::Invalid;
    }
    let mut i: usize = start;
    while i < hi
        invariant
            start <= i <= hi <= s@.len(),
            start < hi,
            d == s@.subrange(start as int, hi as int),
            f == s@.subrange(lo as int, hi as int),
            neg ==> f.len() >= 2 && f[0] == '-' && f.drop_first() == d,
            !neg ==> f == d && start == lo,
            neg == (f.len() > 0 && f[0] == '-'),
            forall|k: int| start <= k < i ==> is_digit(#[trigger] s@[k]),
        decreases hi - i,
    {
        if !(s[i] >= '0' && s[i] <= '9') {
            proof {
                assert(d[i - start] == s@[i as int]);
                assert(!is_digit(d[i - start]));
                if !neg {
                    assert(f[i - start] == d[i - start]);
                }
                if neg {
                    assert(f.drop_first()[i - start] == d[i - start]);
                    assert(f[0] == '-' && !is_digit(f[0]));
                }
            }
            return EpochField::Invalid;
        }
        i = i + 1;
    }
    assert(all_digits(d)) by {
        assert forall|k: int| 0 <= k < d.len() implies is_digit(#[trigger] d[k]) by {
            assert(d[k] == s@[start + k]);
        }
    }
    let mut acc: u64 = 0;
    i = start;
    assert(s@.subrange(start as int, start as int) =~= Seq::<char>::empty());
    while i < hi
        invariant
            start <= i <= hi <= s@.len(),
            start < hi,
            d == s@.subrange(start as int, hi as int),
            f == s@.subrange(lo as int, hi as int),
            neg ==> f.len() >= 2 && f[0] == '-' && f.drop_first() == d,
            !neg ==> f == d,
            neg == (f.len() > 0 && f[0] == '-'),
            all_digits(d),
            acc as int == digits_value(s@.subrange(start as int, i as int)),
            acc <= EPOCH_LIMIT,
        decreases hi - i,
    {
        let c = s[i];
        assert(is_digit(d[i - start]));
        let dig: u64 = (c as u32 - '0' as u32) as u64;
        let next: u64 = acc * 10 + dig;
        proof {
            let p = s@.subrange(start as int, i + 1);
            assert(p.drop_last() =~= s@.subrange(start as int, i as int));
            assert(p =~= d.subrange(0, i + 1 - start));
        }
        if next > EPOCH_LIMIT {
            proof {
                lemma_digits_prefix(d, i + 1 - start);
                if !neg && f.len() >= 2 && f[0] == '-' {
                    assert(is_digit(d[0]));
                }
            }
            return EpochField::Huge;
        }
        acc = next;
        i = i + 1;
    }
    assert(s@.subrange(start as int, hi as int) == d);
    EpochField::Value(neg, acc)
}

/// The epoch field of `s` as an integer, with the field's bounds.
fn epoch_number_of(s: &[char]) -> (r: Result<(bool, u64, usize, usize), TimestampError>)
    ensures
        match (r, epoch_number(s@)) {
            (Ok((neg, m, lo, hi)), Ok((v, f))) => lo <= hi <= s@.len() && f == s@.subrange(
                lo as int,
                hi as int,
            ) && if m > EPOCH_LIMIT {
                v > EPOCH_LIMIT || v < -EPOCH_LIMIT
            } else {
                v == if neg { -(m as int) } else { m as int }
            },
            (Err(e), Err((k, f))) => e.kind == k && e.fragment@ == f,
            _ => false,
        },
{
    match epoch_span_of(s) {
        Err(e) => Err(e),
        Ok((lo, hi)) => match parse_epoch(s, lo, hi) {
            EpochField::Invalid => Err(
                TimestampError {
                    kind: Malformed::InvalidEpoch,
                    fragment: string_of(slice_range(s, lo, hi).as_slice()),
                },
            ),
            EpochField::Huge => Ok((false, EPOCH_LIMIT + 1, lo, hi)),
            EpochField::Value(neg, m) => Ok((neg, m, lo, hi)),
        },
    }
}

/// The error for an epoch field that names no representable instant.
fn out_of_range(s: &[char], lo: usize, hi: usize) -> (r: TimestampError)
    requires
        lo <= hi <= s@.len(),
    ensures
        r.kind == Malformed::EpochOutOfRange,
        r.fragment@ == s@.subrange(lo as int, hi as int),
{
    TimestampError {
        kind: Malformed::EpochOutOfRange,
        fragment: string_of(slice_range(s, lo, hi).as_slice()),
    }
}

/// Decodes `/Date(<seconds><offset>)/`, the form that `encode_date_time`
/// writes and that date-time fields of responses use: the integer between the
/// first `(` and the first `+` after it counts seconds since the epoch; the
/// offset is not read.
pub fn extract_utc_time(val: &str) -> (r: Result<UtcDateTime, TimestampError>)
    ensures
        time_result_is(r, decoded_date_time(val@)),
{
    let s = chars_of(val);
    match epoch_number_of(s.as_slice()) {
        Err(e) => Err(e),
        Ok((neg, m, lo, hi)) => {
            if m > EPOCH_LIMIT {
                return Err(out_of_range(s.as_slice(), lo, hi));
            }
            let v: i64 = if neg { -(m as i64) } else { m as i64 };
            match UtcDateTime::from_timestamp(v) {
                Some(t) => Ok(t),
                None => Err(out_of_range(s.as_slice(), lo, hi)),
            }
        },
    }
}

/// The UTC calendar date of a timestamp string whose integer counts
/// milliseconds since the epoch.
pub fn extract_date(val: &str) -> (r: Result<CalendarDate, TimestampError>)
    ensures
        date_result_is(r, decoded_date(val@)),
{
    let s = chars_of(val);
    match epoch_number_of(s.as_slice()) {
        Err(e) => Err(e),
        Ok((neg, m, lo, hi)) => {
            if m > EPOCH_LIMIT {
                return Err(out_of_range(s.as_slice(), lo, hi));
            }
            let v: i64 = if neg { -(m as i64) } else { m as i64 };
            match chrono_date_of_millis(v) {
                Some((year, month, day)) => Ok(CalendarDate { year, month, day }),
                None => Err(out_of_range(s.as_slice(), lo, hi)),
            }
        },
    }
}

/// The digit for `d` in 0..=9.
pub open spec fn digit_char(d: int) -> char {
    seq!['0', '1', '2', '3', '4', '5', '6', '7', '8', '9'][d]
}

/// The base-10 digits of `n`, most significant first, without leading zeros.
pub open spec fn nat_digits(n: nat) -> Seq<char>
    decreases n,
{
    if n < 10 {
        seq![digit_char(n as int)]
    } else {
        nat_digits(n / 10).push(digit_char(n as int % 10))
    }
}

/// `v` in base 10, with a leading `-` when negative.
pub open spec fn decimal(v: int) -> Seq<char> {
    if v < 0 {
        seq!['-'] + nat_digits((-v) as nat)
    } else {
        nat_digits(v as nat)
    }
}

/// The service's encoding of the instant `secs` seconds after the epoch, in UTC.
pub open spec fn encoded(secs: int) -> Seq<char> {
    seq!['/', 'D', 'a', 't', 'e', '('] + decimal(secs) + seq!['+', '0', '0', '0', '0', ')', '/']
}

proof fn lemma_digit_char(d: int)
    requires
        0 <= d < 10,
    ensures
        is_digit(digit_char(d)),
        digit_value(digit_char(d)) == d,
{
}

proof fn lemma_nat_digits(n: nat)
    ensures
        nat_digits(n).len() >= 1,
        all_digits(nat_digits(n)),
        digits_value(nat_digits(n)) == n,
    decreases n,
{
    if n < 10 {
        lemma_digit_char(n as int);
        assert(nat_digits(n).drop_last() =~= Seq::<char>::empty());
        assert(digits_value(Seq::<char>::empty()) == 0);
        assert(nat_digits(n).last() == digit_char(n as int));
    } else {
        lemma_nat_digits(n / 10);
        lemma_digit_char(n as int % 10);
        let d = nat_digits(n);
        assert(d.drop_last() =~= nat_digits(n / 10));
        assert(d.last() == digit_char(n as int % 10));
        assert((n / 10) * 10 + n % 10 == n) by (nonlinear_arith);
        assert forall|i: int| 0 <= i < d.len() implies is_digit(#[trigger] d[i]) by {
            if i < d.len() - 1 {
                assert(d[i] == nat_digits(n / 10)[i]);
            }
        }
    }
}

/// `decimal(v)` spells `v`, and holds only digits and `-`.
proof fn lemma_decimal(v: int)
    ensures
        epoch_value(decimal(v)) == Some(v),
        forall|k: int| 0 <= k < decimal(v).len() ==> #[trigger] decimal(v)[k] != '+'
            && decimal(v)[k] != '(',
{
    let d = decimal(v);
    if v < 0 {
        let n = (-v) as nat;
        lemma_nat_digits(n);
        assert(d.drop_first() =~= nat_digits(n));
        assert forall|k: int| 0 <= k < d.len() implies #[trigger] d[k] != '+' && d[k] != '(' by {
            if k > 0 {
                assert(d[k] == nat_digits(n)[k - 1]);
                assert(is_digit(nat_digits(n)[k - 1]));
            }
        }
    } else {
        lemma_nat_digits(v as nat);
        assert(is_digit(d[0]));
        assert forall|k: int| 0 <= k < d.len() implies #[trigger] d[k] != '+' && d[k] != '(' by {
            assert(is_digit(d[k]));
        }
    }
}

/// Appends the base-10 digits of `n` to `out`.
fn push_digits(n: u64, out: &mut Vec<char>)
    ensures
        final(out)@ == old(out)@ + nat_digits(n as nat),
    decreases n,
{
    if n >= 10 {
        push_digits(n / 10, out);
    }
    let d = n % 10;
    let c = if d == 0 {
        '0'
    } else if d == 1 {
        '1'
    } else if d == 2 {
        '2'
    } else if d == 3 {
        '3'
    } else if d == 4 {
        '4'
    } else if d == 5 {
        '5'
    } else if d == 6 {
        '6'
    } else if d == 7 {
        '7'
    } else if d == 8 {
        '8'
    } else {
        '9'
    };
    assert(c == digit_char(d as int));
    out.push(c);
    assert(out@ =~= old(out)@ + nat_digits(n as nat));
}

/// Encodes `t` as `/Date(<seconds>+0000)/`, the seconds since the epoch
/// rounded down.
pub fn encode_date_time(t: &UtcDateTime) -> (r: String)
    ensures
        r@ == encoded(t.millis() / 1000),
{
    let secs = t.timestamp();
    let mut out: Vec<char> = vec!['/', 'D', 'a', 't', 'e', '('];
    let ghost head = out@;
    if secs < 0 {
        out.push('-');
        let m: u64 = if secs == i64::MIN {
            9223372036854775808u64
        } else {
            (-secs) as u64
        };
        push_digits(m, &mut out);
        assert(out@ =~= head + decimal(secs as int));
    } else {
        push_digits(secs as u64, &mut out);
        assert(out@ =~= head + decimal(secs as int));
    }
    out.push('+');
    out.push('0');
    out.push('0');
    out.push('0');
    out.push('0');
    out.push(')');
    out.push('/');
    assert(out@ =~= encoded(secs as int));
    string_of(out.as_slice())
}

/// Decoding what `encode_date_time` wrote gives back the instant, for every
/// instant that chrono can represent and that falls on a whole second.
pub proof fn lemma_round_trip(t: UtcDateTime)
    requires
        t.wf(),
        t.millis() % 1000 == 0,
    ensures
        decoded_date_time(encoded(t.millis() / 1000)) == Ok::<int, (Malformed, Seq<char>)>(
            t.millis(),
        ),
{
    let secs = t.millis() / 1000;
    let s = encoded(secs);
    let d = decimal(secs);
    lemma_decimal(secs);
    assert(is_first_char(s, '(', 5));
    lemma_first_char_unique(s, '(', 5);
    let rest = s.subrange(6, s.len() as int);
    assert(rest =~= d + seq!['+', '0', '0', '0', '0', ')', '/']);
    assert forall|k: int| 0 <= k < d.len() implies rest[k] != '+' by {
        assert(rest[k] == d[k]);
    }
    assert(is_first_char(rest, '+', d.len() as int));
    lemma_first_char_unique(rest, '+', d.len() as int);
    assert(s.subrange(6, 6 + d.len() as int) =~= d);
}

/// Strings that lack the shape `...(<integer>+...` are refused, each with the
/// step that failed.
pub proof fn lemma_malformed_refused(s: Seq<char>)
    ensures
        (forall|k: int| 0 <= k < s.len() ==> s[k] != '(') ==> decoded_date_time(s) == Err::<
            int,
            (Malformed, Seq<char>),
        >((Malformed::MissingOpenParen, s)),
        first_char(s, '(') matches Some(i) && (forall|k: int|
            i < k < s.len() ==> s[k] != '+') ==> decoded_date_time(s) matches Err(
            (Malformed::MissingOffsetSign, _),
        ),
        epoch_span(s) matches Ok((lo, hi)) && epoch_value(s.subrange(lo, hi)) is None
            ==> decoded_date_time(s) matches Err((Malformed::InvalidEpoch, _)),
{
    lemma_first_char_some(s, '(');
    if let Some(i) = first_char(s, '(') {
        let rest = s.subrange(i + 1, s.len() as int);
        lemma_first_char_some(rest, '+');
        if let Some(j) = first_char(rest, '+') {
            assert(rest[j] == s[i + 1 + j]);
        }
    }
}

} // verus!
