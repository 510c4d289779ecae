//! Conversion of one result cell to one generic value.

use vstd::prelude::*;
use crate::cell::{
    Cell, WireDateTime, WireDateTime2, WireSmallDateTime, WireTime,
};
use crate::value::{Instant, Value, ValueView, NANOS_PER_DAY};

verus! {

/// Days from 0001-01-01 to 1900-01-01.
pub const DAYS_TO_1900: i64 = 693_595;

/// Why a cell could not be converted.
#[derive(Clone, Copy, Debug, PartialEq, Eq, Structural)]
pub enum MarshalError {
    /// A time was given with more than nine decimal digits of precision.
    InvalidScale,
    /// A time-of-day duration does not fit in signed 64-bit nanoseconds.
    DurationOverflow,
    /// The time part of a timestamp lies at or beyond the end of the day.
    TimeOutOfRange,
}

/// The message that reports a conversion failure.
pub open spec fn error_text(e: MarshalError) -> Seq<char> {
    match e {
        MarshalError::InvalidScale => "Failed to parse time: precision above nanoseconds"@,
        MarshalError::DurationOverflow => "Failed to parse time: duration out of range"@,
        MarshalError::TimeOutOfRange => "Failed to parse datetime: time of day out of range"@,
    }
}

impl MarshalError {
    /// The text that reports this error.
    pub fn message(&self) -> (r: &'static str)
        ensures
            r@ == error_text(*self),
    {
        match self {
            MarshalError::InvalidScale => "Failed to parse time: precision above nanoseconds",
            MarshalError::DurationOverflow => "Failed to parse time: duration out of range",
            MarshalError::TimeOutOfRange => "Failed to parse datetime: time of day out of range",
        }
    }
}

/// Ten to the power `n`.
pub open spec fn pow10(n: nat) -> nat
    decreases n,
{
    if n == 0 {
        1
    } else {
        10 * pow10((n - 1) as nat)
    }
}

/// Nanoseconds since midnight of a wire time: `increments * 10^(9 - scale)`.
pub open spec fn time_nanos(t: WireTime) -> int {
    t.increments * pow10((9 - t.scale) as nat)
}

/// A time of day read as a duration in nanoseconds.
pub open spec fn duration_of(t: WireTime) -> Result<i64, MarshalError> {
    if t.scale > 9 {
        Err(MarshalError::InvalidScale)
    } else if time_nanos(t) > i64::MAX {
        Err(MarshalError::DurationOverflow)
    } else {
        Ok(time_nanos(t) as i64)
    }
}

/// A time of day read as nanoseconds into a calendar day.
pub open spec fn time_of_day(t: WireTime) -> Result<u64, MarshalError> {
    if t.scale > 9 {
        Err(MarshalError::InvalidScale)
    } else if time_nanos(t) >= NANOS_PER_DAY {
        Err(MarshalError::TimeOutOfRange)
    } else {
        Ok(time_nanos(t) as u64)
    }
}

/// The instant of a date with a time of day, both in UTC.
pub open spec fn datetime2_instant(d: WireDateTime2) -> Result<Instant, MarshalError> {
    match time_of_day(d.time) {
        Ok(n) => Ok(Instant { days: d.days as i64, nanos: n }),
        Err(e) => Err(e),
    }
}

/// Nanoseconds of `f` three-hundredths of a second, rounded down.
pub open spec fn fragment_nanos(f: u32) -> int {
    (f * 1_000_000_000) / 300
}

/// The instant of a date and time counted from 1900-01-01.
pub open spec fn datetime_instant(d: WireDateTime) -> Result<Instant, MarshalError> {
    if fragment_nanos(d.fragments) >= NANOS_PER_DAY {
        Err(MarshalError::TimeOutOfRange)
    } else {
        Ok(Instant { days: (d.days + DAYS_TO_1900) as i64, nanos: fragment_nanos(d.fragments) as u64 })
    }
}

/// The instant of a minute-precision date and time counted from 1900-01-01.
pub open spec fn small_datetime_instant(d: WireSmallDateTime) -> Result<Instant, MarshalError> {
    if d.minutes >= 1440 {
        Err(MarshalError::TimeOutOfRange)
    } else {
        Ok(Instant { days: (d.days + DAYS_TO_1900) as i64, nanos: (d.minutes * 60_000_000_000) as u64 })
    }
}

/// The lower-case hexadecimal digit for `n` in `0..16`.
pub open spec fn hex_digit(n: int) -> char {
    seq!['0', '1', '2', '3', '4', '5', '6', '7', '8', '9', 'a', 'b', 'c', 'd', 'e', 'f'][n]
}

/// Two lower-case hexadecimal digits per byte, high digit first.
pub open spec fn hex_text(b: Seq<u8>) -> Seq<char>
    decreases b.len(),
{
    if b.len() == 0 {
        Seq::empty()
    } else {
        hex_text(b.drop_last()) + seq![
            hex_digit(b.last() as int / 16),
            hex_digit(b.last() as int % 16),
        ]
    }
}

/// The hyphenated form of a 16-byte identifier: hex groups of 4, 2, 2, 2 and
/// 6 bytes.
pub open spec fn guid_text(b: Seq<u8>) -> Seq<char> {
    hex_text(b.subrange(0, 4)) + seq!['-'] + hex_text(b.subrange(4, 6)) + seq!['-']
        + hex_text(b.subrange(6, 8)) + seq!['-'] + hex_text(b.subrange(8, 10)) + seq!['-']
        + hex_text(b.subrange(10, 16))
}

/// A decoded time wrapped as a value, or the decoding error.
pub open spec fn temporal<T>(r: Result<T, MarshalError>, f: spec_fn(T) -> ValueView) -> Result<
    ValueView,
    MarshalError,
> {
    match r {
        Ok(t) => Ok(f(t)),
        Err(e) => Err(e),
    }
}

/// The value a cell converts to, or why it cannot be converted.
pub open spec fn cell_value(c: Cell) -> Result<ValueView, MarshalError> {
    match c {
        Cell::Binary(Some(b)) => Ok(ValueView::Binary(b@)),
        Cell::Bit(Some(b)) => Ok(ValueView::Bool(b)),
        Cell::String(Some(s)) => Ok(ValueView::String(s@)),
        Cell::U8(Some(i)) => Ok(ValueView::Int(i as i64)),
        Cell::I16(Some(i)) => Ok(ValueView::Int(i as i64)),
        Cell::I32(Some(i)) => Ok(ValueView::Int(i as i64)),
        Cell::I64(Some(i)) => Ok(ValueView::Int(i)),
        Cell::F32(Some(f)) => Ok(ValueView::Float(f)),
        Cell::F64(Some(f)) => Ok(ValueView::Float(f)),
        Cell::Date(Some(d)) => Ok(ValueView::Date(Instant { days: d as i64, nanos: 0 })),
        Cell::Time(Some(t)) => temporal(duration_of(t), |n: i64| ValueView::Duration(n)),
        Cell::DateTime(Some(d)) => temporal(datetime_instant(d), |i: Instant| ValueView::Date(i)),
        Cell::DateTime2(Some(d)) => temporal(datetime2_instant(d), |i: Instant| ValueView::Date(i)),
        Cell::DateTimeOffset(Some(d)) => temporal(
            datetime2_instant(d.datetime2),
            |i: Instant| ValueView::Date(i),
        ),
        Cell::SmallDateTime(Some(d)) => temporal(
            small_datetime_instant(d),
            |i: Instant| ValueView::Date(i),
        ),
        Cell::Guid(Some(g)) => Ok(ValueView::String(guid_text(g@))),
        Cell::Numeric(Some(f)) => Ok(ValueView::Float(f)),
        Cell::Xml(Some(s)) => Ok(ValueView::String(s@)),
        _ => Ok(ValueView::Nothing),
    }
}

/// A null binary cell converts to the null value, and any other binary cell
/// to a blob with exactly its bytes.
pub proof fn lemma_binary_cells(b: Option<Vec<u8>>)
    ensures
        b is None ==> cell_value(Cell::Binary(b)) == Ok::<ValueView, MarshalError>(ValueView::Nothing),
        b matches Some(v) ==> cell_value(Cell::Binary(b)) == Ok::<ValueView, MarshalError>(
            ValueView::Binary(v@),
        ),
{
}

/// The content of a conversion result.
pub open spec fn result_view(r: Result<Value, MarshalError>) -> Result<ValueView, MarshalError> {
    match r {
        Ok(v) => Ok(v@),
        Err(e) => Err(e),
    }
}


fn pow10_exec(n: u8) -> (r: u64)
    requires
        n <= 9,
    ensures
        r == pow10(n as nat),
        r >= 1,
{
    proof {
        reveal_with_fuel(pow10, 10);
    }
    match n {
        0 => 1,
        1 => 10,
        2 => 100,
        3 => 1_000,
        4 => 10_000,
        5 => 100_000,
        6 => 1_000_000,
        7 => 10_000_000,
        8 => 100_000_000,
        _ => 1_000_000_000,
    }
}

/// Nanoseconds of a wire time, or `None` when they exceed `limit`.
fn time_nanos_within(t: WireTime, limit: u64) -> (r: Option<u64>)
    requires
        t.scale <= 9,
    ensures
        match r {
            Some(n) => n == time_nanos(t) && n <= limit,
            None => time_nanos(t) > limit,
        },
{
    let p = pow10_exec(9 - t.scale);
    if t.increments > limit / p {
        proof {
            assert(t.increments * p > limit) by (nonlinear_arith)
                requires
                    t.increments > limit / p,
                    p >= 1,
            ;
        }
        None
    } else {
        proof {
            assert(t.increments * p <= limit) by (nonlinear_arith)
                requires
                    t.increments <= limit / p,
                    p >= 1,
            ;
        }
        Some(t.increments * p)
    }
}

/// A time-of-day cell as a duration: `increments * 10^(9 - scale)`
/// nanoseconds.
pub fn parse_time(t: WireTime) -> (r: Result<i64, MarshalError>)
    ensures
        r == duration_of(t),
{
    if t.scale > 9 {
        return Err(MarshalError::InvalidScale);
    }
    match time_nanos_within(t, i64::MAX as u64) {
        Some(n) => Ok(n as i64),
        None => Err(MarshalError::DurationOverflow),
    }
}

fn time_of_day_exec(t: WireTime) -> (r: Result<u64, MarshalError>)
    ensures
        r == time_of_day(t),
{
    if t.scale > 9 {
        return Err(MarshalError::InvalidScale);
    }
    match time_nanos_within(t, NANOS_PER_DAY - 1) {
        Some(n) => Ok(n),
        None => Err(MarshalError::TimeOutOfRange),
    }
}

/// Decodes a date with a time of day.
pub fn parse_datetime2(d: WireDateTime2) -> (r: Result<Instant, MarshalError>)
    ensures
        r == datetime2_instant(d),
{
    match time_of_day_exec(d.time) {
        Ok(n) => Ok(Instant { days: d.days as i64, nanos: n }),
        Err(e) => Err(e),
    }
}

/// Decodes a date and time counted from 1900-01-01.
pub fn parse_datetime(d: WireDateTime) -> (r: Result<Instant, MarshalError>)
    ensures
        r == datetime_instant(d),
{
    let n = (d.fragments as u64) * 1_000_000_000 / 300;
    if n >= NANOS_PER_DAY {
        Err(MarshalError::TimeOutOfRange)
    } else {
        Ok(Instant { days: d.days as i64 + DAYS_TO_1900, nanos: n })
    }
}

/// Decodes a minute-precision date and time counted from 1900-01-01.
pub fn parse_small_datetime(d: WireSmallDateTime) -> (r: Result<Instant, MarshalError>)
    ensures
        r == small_datetime_instant(d),
{
    if d.minutes >= 1440 {
        Err(MarshalError::TimeOutOfRange)
    } else {
        Ok(Instant { days: d.days as i64 + DAYS_TO_1900, nanos: d.minutes as u64 * 60_000_000_000 })
    }
}

/// Relies on uuid's `Display` for `Uuid` (re-exported by tiberius), which
/// writes the 16 bytes as lower-case hex in groups of 4, 2, 2, 2 and 6 bytes
/// joined by hyphens.
#[verifier::external_body]
fn guid_to_string(bytes: &[u8; 16]) -> (r: String)
    ensures
        r@ == guid_text(bytes@),
{
    tiberius::Uuid::from_bytes(*bytes).to_string()
}

fn date_value(r: Result<Instant, MarshalError>) -> (v: Result<Value, MarshalError>)
    ensures
        result_view(v) == temporal(r, |i: Instant| ValueView::Date(i)),
{
    match r {
        Ok(i) => Ok(Value::Date(i)),
        Err(e) => Err(e),
    }
}

/// Converts one cell to its generic value (see [`cell_value`]); the null of every kind gives
/// [`Value::Nothing`].
pub fn parse_value(data: &Cell) -> (r: Result<Value, MarshalError>)
    ensures
        result_view(r) == cell_value(*data),
        r matches Ok(Value::Date(i)) ==> i.wf(),
{
    match data {
        Cell::Binary(Some(b)) => Ok(Value::Binary(b.clone())),
        Cell::Bit(Some(b)) => Ok(Value::Bool(*b)),
        Cell::String(Some(s)) => Ok(Value::String(s.clone())),
        Cell::U8(Some(i)) => Ok(Value::Int(*i as i64)),
        Cell::I16(Some(i)) => Ok(Value::Int(*i as i64)),
        Cell::I32(Some(i)) => Ok(Value::Int(*i as i64)),
        Cell::I64(Some(i)) => Ok(Value::Int(*i)),
        Cell::F32(Some(f)) => Ok(Value::Float(*f)),
        Cell::F64(Some(f)) => Ok(Value::Float(*f)),
        Cell::Date(Some(d)) => Ok(Value::Date(Instant { days: *d as i64, nanos: 0 })),
        Cell::Time(Some(t)) => match parse_time(*t) {
            Ok(n) => Ok(Value::Duration(n)),
            Err(e) => Err(e),
        },
        Cell::DateTime(Some(d)) => date_value(parse_datetime(*d)),
        Cell::DateTime2(Some(d)) => date_value(parse_datetime2(*d)),
        Cell::DateTimeOffset(Some(d)) => date_value(parse_datetime2(d.datetime2)),
        Cell::SmallDateTime(Some(d)) => date_value(parse_small_datetime(*d)),
        Cell::Guid(Some(g)) => Ok(Value::String(guid_to_string(g))),
        Cell::Numeric(Some(f)) => Ok(Value::Float(*f)),
        Cell::Xml(Some(s)) => Ok(Value::String(s.clone())),
        _ => Ok(Value::Nothing),
    }
}

} // verus!
