//! Result cells as they arrive from the server, one variant per wire kind.

use vstd::prelude::*;

verus! {

/// A time of day: `increments` units of 10^-`scale` seconds since midnight.
#[derive(Clone, Copy, Debug, PartialEq, Eq, Structural)]
pub struct WireTime {
    pub increments: u64,
    pub scale: u8,
}

/// A date and time of day; `days` counts from 0001-01-01.
#[derive(Clone, Copy, Debug, PartialEq, Eq, Structural)]
pub struct WireDateTime2 {
    pub days: u32,
    pub time: WireTime,
}

/// A date and time of day; `days` counts from 1900-01-01 and `fragments`
/// are 1/300 of a second since midnight.
#[derive(Clone, Copy, Debug, PartialEq, Eq, Structural)]
pub struct WireDateTime {
    pub days: i32,
    pub fragments: u32,
}

/// A date and time of day to the minute; `days` counts from 1900-01-01.
#[derive(Clone, Copy, Debug, PartialEq, Eq, Structural)]
pub struct WireSmallDateTime {
    pub days: u16,
    pub minutes: u16,
}

/// A UTC date and time together with the offset in minutes it was written in.
#[derive(Clone, Copy, Debug, PartialEq, Eq, Structural)]
pub struct WireDateTimeOffset {
    pub datetime2: WireDateTime2,
    pub offset: i16,
}

/// One cell of a result row. `None` is the SQL null of that kind.
///
/// The floating-point kinds (and the decimal kind, which the shell shows as a
/// float) carry the bit pattern of the double-precision value.
#[derive(Clone, Debug, PartialEq)]
pub enum Cell {
    Binary(Option<Vec<u8>>),
    Bit(Option<bool>),
    String(Option<String>),
    U8(Option<u8>),
    I16(Option<i16>),
    I32(Option<i32>),
    I64(Option<i64>),
    F32(Option<u64>),
    F64(Option<u64>),
    Date(Option<u32>),
    Time(Option<WireTime>),
    DateTime(Option<WireDateTime>),
    DateTime2(Option<WireDateTime2>),
    DateTimeOffset(Option<WireDateTimeOffset>),
    SmallDateTime(Option<WireSmallDateTime>),
    Guid(Option<[u8; 16]>),
    Numeric(Option<u64>),
    Xml(Option<String>),
}

} // verus!
