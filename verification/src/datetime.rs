//! Normalized calendar time: the value type the driver trades in, its
//! validation rules, weekday derivation, and the codec between it and the
//! packed-BCD bytes of the seven time registers.

use vstd::prelude::*;

use crate::bcd::{
    from_decimal, lemma_bcd_round_trip, lemma_from_decimal_bound, spec_from_decimal,
    spec_to_decimal, to_decimal,
};
use crate::bus::{mem_after_write, BusFault, BusOp, I2cBus};
use crate::ds1307::Ds1307;
use crate::error::Error;
use crate::registers::Register;

verus! {

/// Why a set of calendar fields was rejected.
#[derive(Clone, Copy, PartialEq, Eq, Structural, Debug)]
pub enum DateTimeError {
    /// Month outside 1 to 12.
    InvalidMonth,
    /// Day outside the month's length.
    InvalidDay,
    /// Hour above 23.
    InvalidHour,
    /// Minute above 59.
    InvalidMinute,
    /// Second above 59.
    InvalidSecond,
    /// Weekday number outside 1 to 7.
    InvalidWeekday,
    /// Year below 1970.
    InvalidYear,
}

/// Whether a year is a leap year under the Gregorian rule.
pub open spec fn spec_is_leap_year(year: int) -> bool {
    year % 4 == 0 && (year % 100 != 0 || year % 400 == 0)
}

/// Number of days in a month, 0 for a month number outside 1 to 12.
pub open spec fn spec_days_in_month(year: int, month: int) -> int {
    if month == 1 || month == 3 || month == 5 || month == 7 || month == 8 || month == 10
        || month == 12 {
        31
    } else if month == 4 || month == 6 || month == 9 || month == 11 {
        30
    } else if month == 2 {
        if spec_is_leap_year(year) {
            29
        } else {
            28
        }
    } else {
        0
    }
}

/// The first rule a set of calendar fields breaks, `None` when the fields
/// form a valid date and time. Years from 1970 on are accepted; the checks
/// run in the order year, month, day, hour, minute, second.
pub open spec fn spec_validate(
    year: int,
    month: int,
    day: int,
    hour: int,
    minute: int,
    second: int,
) -> Option<DateTimeError> {
    if year < 1970 {
        Some(DateTimeError::InvalidYear)
    } else if month < 1 || month > 12 {
        Some(DateTimeError::InvalidMonth)
    } else if day < 1 || day > spec_days_in_month(year, month) {
        Some(DateTimeError::InvalidDay)
    } else if hour > 23 {
        Some(DateTimeError::InvalidHour)
    } else if minute > 59 {
        Some(DateTimeError::InvalidMinute)
    } else if second > 59 {
        Some(DateTimeError::InvalidSecond)
    } else {
        None
    }
}

/// Whether a year is a leap year under the Gregorian rule.
pub fn is_leap_year(year: u16) -> (b: bool)
    ensures
        b == spec_is_leap_year(year as int),
{
    year % 4 == 0 && (year % 100 != 0 || year % 400 == 0)
}

/// Number of days in a month, 0 for a month number outside 1 to 12.
pub fn days_in_month(year: u16, month: u8) -> (d: u8)
    ensures
        d == spec_days_in_month(year as int, month as int),
{
    match month {
        1 | 3 | 5 | 7 | 8 | 10 | 12 => 31,
        4 | 6 | 9 | 11 => 30,
        2 => if is_leap_year(year) {
            29
        } else {
            28
        },
        _ => 0,
    }
}

/// Day of the week, numbered 1 = Sunday through 7 = Saturday as the chip's
/// weekday register counts.
#[derive(Clone, Copy, PartialEq, Eq, Structural, Debug)]
pub enum Weekday {
    /// Weekday number 1.
    Sunday,
    /// Weekday number 2.
    Monday,
    /// Weekday number 3.
    Tuesday,
    /// Weekday number 4.
    Wednesday,
    /// Weekday number 5.
    Thursday,
    /// Weekday number 6.
    Friday,
    /// Weekday number 7.
    Saturday,
}

impl Weekday {
    /// The weekday's number, 1 = Sunday through 7 = Saturday.
    pub open spec fn spec_number(self) -> u8 {
        match self {
            Weekday::Sunday => 1,
            Weekday::Monday => 2,
            Weekday::Tuesday => 3,
            Weekday::Wednesday => 4,
            Weekday::Thursday => 5,
            Weekday::Friday => 6,
            Weekday::Saturday => 7,
        }
    }

    /// The weekday's number, 1 = Sunday through 7 = Saturday.
    #[verifier::when_used_as_spec(spec_number)]
    pub fn to_number(self) -> (n: u8)
        ensures
            n == self.spec_number(),
    {
        match self {
            Weekday::Sunday => 1,
            Weekday::Monday => 2,
            Weekday::Tuesday => 3,
            Weekday::Wednesday => 4,
            Weekday::Thursday => 5,
            Weekday::Friday => 6,
            Weekday::Saturday => 7,
        }
    }

    /// The weekday with the given number, or `InvalidWeekday` for a number
    /// outside 1 to 7.
    pub fn from_number(n: u8) -> (r: Result<Weekday, DateTimeError>)
        ensures
            1 <= n <= 7 ==> (r matches Ok(w) && w.spec_number() == n),
            !(1 <= n <= 7) ==> r == Err::<Weekday, DateTimeError>(DateTimeError::InvalidWeekday),
    {
        match n {
            1 => Ok(Weekday::Sunday),
            2 => Ok(Weekday::Monday),
            3 => Ok(Weekday::Tuesday),
            4 => Ok(Weekday::Wednesday),
            5 => Ok(Weekday::Thursday),
            6 => Ok(Weekday::Friday),
            7 => Ok(Weekday::Saturday),
            _ => Err(DateTimeError::InvalidWeekday),
        }
    }
}

/// Weekday number of a calendar date by Zeller's congruence, 1 = Sunday
/// through 7 = Saturday.
pub open spec fn spec_weekday_number(year: int, month: int, day: int) -> int {
    let y = if month < 3 {
        year - 1
    } else {
        year
    };
    let m = if month < 3 {
        month + 12
    } else {
        month
    };
    let k = y % 100;
    let j = y / 100;
    let h = (day + (13 * (m + 1)) / 5 + k + k / 4 + j / 4 + 5 * j) % 7;
    (h + 6) % 7 + 1
}

/// A normalized date and time: year from 1970 on, month 1 to 12, day within
/// the month, hour 0 to 23, minute and second 0 to 59. Values are only ever
/// built validated, so every reachable value satisfies [`DateTime::wf`].
#[derive(Clone, Copy, PartialEq, Eq, Structural, Debug)]
pub struct DateTime {
    year: u16,
    month: u8,
    day_of_month: u8,
    hour: u8,
    minute: u8,
    second: u8,
}

impl DateTime {
    /// The full four-digit year.
    pub closed spec fn spec_year(self) -> u16 {
        self.year
    }

    /// The month, 1 to 12.
    pub closed spec fn spec_month(self) -> u8 {
        self.month
    }

    /// The day of the month, 1 to 31.
    pub closed spec fn spec_day_of_month(self) -> u8 {
        self.day_of_month
    }

    /// The hour, 0 to 23.
    pub closed spec fn spec_hour(self) -> u8 {
        self.hour
    }

    /// The minute, 0 to 59.
    pub closed spec fn spec_minute(self) -> u8 {
        self.minute
    }

    /// The second, 0 to 59.
    pub closed spec fn spec_second(self) -> u8 {
        self.second
    }

    /// The fields form a valid date and time.
    pub open spec fn wf(self) -> bool {
        spec_validate(
            self.spec_year() as int,
            self.spec_month() as int,
            self.spec_day_of_month() as int,
            self.spec_hour() as int,
            self.spec_minute() as int,
            self.spec_second() as int,
        ) is None
    }

    /// Build a date-time value, rejecting fields that break a calendar rule
    /// with the first error [`spec_validate`] gives.
    pub fn new(year: u16, month: u8, day_of_month: u8, hour: u8, minute: u8, second: u8) -> (r:
        Result<DateTime, DateTimeError>)
        ensures
            ({
                let v = spec_validate(
                    year as int,
                    month as int,
                    day_of_month as int,
                    hour as int,
                    minute as int,
                    second as int,
                );
                match r {
                    Ok(dt) => v is None && dt.wf() && dt.spec_year() == year && dt.spec_month()
                        == month && dt.spec_day_of_month() == day_of_month && dt.spec_hour()
                        == hour && dt.spec_minute() == minute && dt.spec_second() == second,
                    Err(e) => v == Some(e),
                }
            }),
    {
        if year < 1970 {
            Err(DateTimeError::InvalidYear)
        } else if month < 1 || month > 12 {
            Err(DateTimeError::InvalidMonth)
        } else if day_of_month < 1 || day_of_month > days_in_month(year, month) {
            Err(DateTimeError::InvalidDay)
        } else if hour > 23 {
            Err(DateTimeError::InvalidHour)
        } else if minute > 59 {
            Err(DateTimeError::InvalidMinute)
        } else if second > 59 {
            Err(DateTimeError::InvalidSecond)
        } else {
            Ok(DateTime { year, month, day_of_month, hour, minute, second })
        }
    }

    /// The full four-digit year.
    pub fn year(&self) -> (y: u16)
        ensures
            y == self.spec_year(),
    {
        self.year
    }

    /// The month, 1 to 12.
    pub fn month(&self) -> (m: u8)
        ensures
            m == self.spec_month(),
    {
        self.month
    }

    /// The day of the month, 1 to 31.
    pub fn day_of_month(&self) -> (d: u8)
        ensures
            d == self.spec_day_of_month(),
    {
        self.day_of_month
    }

    /// The hour, 0 to 23.
    pub fn hour(&self) -> (h: u8)
        ensures
            h == self.spec_hour(),
    {
        self.hour
    }

    /// The minute, 0 to 59.
    pub fn minute(&self) -> (m: u8)
        ensures
            m == self.spec_minute(),
    {
        self.minute
    }

    /// The second, 0 to 59.
    pub fn second(&self) -> (s: u8)
        ensures
            s == self.spec_second(),
    {
        self.second
    }

    /// Weekday of this date, derived from the calendar fields alone. Total
    /// on valid values; the result type matches the fallible shape callers
    /// expect of weekday derivation.
    pub fn calculate_weekday(&self) -> (r: Result<Weekday, DateTimeError>)
        requires
            self.wf(),
        ensures
            r matches Ok(w) && w.spec_number() == spec_weekday_number(
                self.spec_year() as int,
                self.spec_month() as int,
                self.spec_day_of_month() as int,
            ),
    {
        let (y, m): (u32, u32) = if self.month < 3 {
            ((self.year - 1) as u32, (self.month + 12) as u32)
        } else {
            (self.year as u32, self.month as u32)
        };
        let k = y % 100;
        let j = y / 100;
        let h = (self.day_of_month as u32 + (13 * (m + 1)) / 5 + k + k / 4 + j / 4 + 5 * j) % 7;
        let n = (h + 6) % 7 + 1;
        Weekday::from_number(n as u8)
    }
}

/// On-wire payload for a date-time value: the seven time registers in
/// order, packed BCD throughout, with the clock-halt bit forced clear and
/// the hours register forced to 24-hour mode.
pub open spec fn spec_encode_payload(dt: DateTime) -> Seq<u8> {
    seq![
        spec_from_decimal(dt.spec_second()),
        spec_from_decimal(dt.spec_minute()),
        spec_from_decimal(dt.spec_hour()),
        spec_from_decimal(
            spec_weekday_number(
                dt.spec_year() as int,
                dt.spec_month() as int,
                dt.spec_day_of_month() as int,
            ) as u8,
        ),
        spec_from_decimal(dt.spec_day_of_month()),
        spec_from_decimal(dt.spec_month()),
        spec_from_decimal((dt.spec_year() - 2000) as u8),
    ]
}

/// The full burst-write frame for a date-time value: the seconds register's
/// address, then the seven payload bytes.
pub open spec fn spec_encode_frame(dt: DateTime) -> Seq<u8> {
    seq![0u8].add(spec_encode_payload(dt))
}

/// Hour decoded from the raw hours register. Bit 6 selects 12-hour mode;
/// there bit 5 is the PM flag and bits 4-0 hold BCD 1 to 12, mapped to 0 to
/// 23. With bit 6 clear, bits 5-0 hold the hour in BCD directly.
pub open spec fn spec_decode_hour(raw: u8) -> int {
    if raw & 0x40 != 0 {
        let hr = spec_to_decimal(raw & 0x1F);
        let pm = raw & 0x20 != 0;
        if pm && hr != 12 {
            hr + 12
        } else if !pm && hr == 12 {
            0
        } else {
            hr
        }
    } else {
        spec_to_decimal(raw & 0x3F)
    }
}

/// Second decoded from the raw seconds register, the clock-halt bit masked
/// out.
pub open spec fn spec_decoded_second(raw: Seq<u8>) -> int {
    spec_to_decimal(raw[0] & 0x7F)
}

/// Minute decoded from the raw minutes register.
pub open spec fn spec_decoded_minute(raw: Seq<u8>) -> int {
    spec_to_decimal(raw[1])
}

/// Hour decoded from the raw hours register, in 24-hour numbering.
pub open spec fn spec_decoded_hour(raw: Seq<u8>) -> int {
    spec_decode_hour(raw[2])
}

/// Day of month decoded from its raw register.
pub open spec fn spec_decoded_day(raw: Seq<u8>) -> int {
    spec_to_decimal(raw[4])
}

/// Month decoded from its raw register.
pub open spec fn spec_decoded_month(raw: Seq<u8>) -> int {
    spec_to_decimal(raw[5])
}

/// Full year decoded from the raw two-digit year register.
pub open spec fn spec_decoded_year(raw: Seq<u8>) -> int {
    2000 + spec_to_decimal(raw[6])
}

/// The first rule the decoded fields of seven raw time registers break,
/// `None` when they form a valid date and time. The raw weekday register is
/// not consulted: the weekday is derived from the date, not trusted from
/// the wire.
pub open spec fn spec_decode_validate(raw: Seq<u8>) -> Option<DateTimeError> {
    spec_validate(
        spec_decoded_year(raw),
        spec_decoded_month(raw),
        spec_decoded_day(raw),
        spec_decoded_hour(raw),
        spec_decoded_minute(raw),
        spec_decoded_second(raw),
    )
}

/// Hour round trip: a BCD hour written in 24-hour mode decodes to itself.
pub proof fn lemma_hour_round_trip(h: u8)
    requires
        h <= 23,
    ensures
        spec_decode_hour(spec_from_decimal(h)) == h,
{
    lemma_from_decimal_bound(h);
    let b = spec_from_decimal(h);
    assert(b < 0x24 ==> b & 0x40 == 0 && b & 0x3F == b) by (bit_vector);
    lemma_bcd_round_trip(h);
}

/// Date-time round trip: the payload encoded from a valid value in the
/// device's year range decodes back to the same six fields, and the decoded
/// fields are again valid.
pub proof fn lemma_datetime_round_trip(dt: DateTime)
    requires
        dt.wf(),
        2000 <= dt.spec_year() <= 2099,
    ensures
        ({
            let raw = spec_encode_payload(dt);
            &&& spec_decoded_year(raw) == dt.spec_year()
            &&& spec_decoded_month(raw) == dt.spec_month()
            &&& spec_decoded_day(raw) == dt.spec_day_of_month()
            &&& spec_decoded_hour(raw) == dt.spec_hour()
            &&& spec_decoded_minute(raw) == dt.spec_minute()
            &&& spec_decoded_second(raw) == dt.spec_second()
            &&& spec_decode_validate(raw) is None
        }),
{
    let raw = spec_encode_payload(dt);
    lemma_from_decimal_bound(dt.spec_second());
    let s = spec_from_decimal(dt.spec_second());
    assert(s < 0x60 ==> s & 0x7F == s) by (bit_vector);
    lemma_bcd_round_trip(dt.spec_second());
    lemma_bcd_round_trip(dt.spec_minute());
    lemma_hour_round_trip(dt.spec_hour());
    lemma_bcd_round_trip(dt.spec_day_of_month());
    lemma_bcd_round_trip(dt.spec_month());
    lemma_bcd_round_trip((dt.spec_year() - 2000) as u8);
}

/// Date-time round trip through the device: after the burst write of a
/// valid value in the device's year range lands, the seven time registers
/// hold exactly the encoded payload, and decoding them yields the same six
/// fields — what a following read of the time registers returns.
pub proof fn lemma_set_then_get(dt: DateTime, mem: Seq<u8>)
    requires
        mem.len() == 64,
        dt.wf(),
        2000 <= dt.spec_year() <= 2099,
    ensures
        ({
            let raw = mem_after_write(mem, spec_encode_frame(dt)).subrange(0, 7);
            &&& raw == spec_encode_payload(dt)
            &&& spec_decoded_year(raw) == dt.spec_year()
            &&& spec_decoded_month(raw) == dt.spec_month()
            &&& spec_decoded_day(raw) == dt.spec_day_of_month()
            &&& spec_decoded_hour(raw) == dt.spec_hour()
            &&& spec_decoded_minute(raw) == dt.spec_minute()
            &&& spec_decoded_second(raw) == dt.spec_second()
            &&& spec_decode_validate(raw) is None
        }),
{
    assert(mem_after_write(mem, spec_encode_frame(dt)).subrange(0, 7) =~= spec_encode_payload(
        dt,
    ));
    lemma_datetime_round_trip(dt);
}

impl<B: I2cBus> Ds1307<B> {
    /// Read the current date and time: one burst read of the seven time
    /// registers, decoded from packed BCD. Both hour modes are understood;
    /// the raw weekday register is read with the burst but not trusted —
    /// the value's weekday is derived from the date instead.
    pub fn get_datetime(&mut self) -> (r: Result<DateTime, Error>)
        requires
            old(self).wf(),
        ensures
            final(self).wf(),
            final(self).mem() == old(self).mem(),
            ({
                let raw = old(self).mem().subrange(0, 7);
                &&& r matches Ok(dt) ==> {
                    &&& final(self).log() == old(self).log().push(
                        BusOp::Read { reg: 0, data: raw },
                    )
                    &&& dt.wf()
                    &&& dt.spec_year() == spec_decoded_year(raw)
                    &&& dt.spec_month() == spec_decoded_month(raw)
                    &&& dt.spec_day_of_month() == spec_decoded_day(raw)
                    &&& dt.spec_hour() == spec_decoded_hour(raw)
                    &&& dt.spec_minute() == spec_decoded_minute(raw)
                    &&& dt.spec_second() == spec_decoded_second(raw)
                }
                &&& r matches Err(Error::DateTime(e)) ==> spec_decode_validate(raw) == Some(e)
                    && final(self).log() == old(self).log().push(
                    BusOp::Read { reg: 0, data: raw },
                )
                &&& r == Err::<DateTime, Error>(Error::I2c(BusFault)) ==> final(self).log() == old(self).log()
                &&& r != Err::<DateTime, Error>(Error::I2c(BusFault)) ==> (r is Ok
                    <==> spec_decode_validate(raw) is None)
                &&& r is Err ==> r == Err::<DateTime, Error>(Error::I2c(BusFault)) || (
                r matches Err(Error::DateTime(e)))
            }),
    {
        let mut data: Vec<u8> = Vec::new();
        data.push(0u8);
        data.push(0u8);
        data.push(0u8);
        data.push(0u8);
        data.push(0u8);
        data.push(0u8);
        data.push(0u8);
        match self.read_register_bytes(Register::Seconds, &mut data) {
            Ok(()) => {},
            Err(e) => {
                return Err(e);
            },
        }
        let second = to_decimal(data[0] & 0x7F);
        let minute = to_decimal(data[1]);
        let raw_hour = data[2];
        let hour = if raw_hour & 0x40 != 0 {
            let hr = to_decimal(raw_hour & 0x1F);
            let pm = raw_hour & 0x20 != 0;
            if pm && hr != 12 {
                hr + 12
            } else if !pm && hr == 12 {
                0
            } else {
                hr
            }
        } else {
            to_decimal(raw_hour & 0x3F)
        };
        let day_of_month = to_decimal(data[4]);
        let month = to_decimal(data[5]);
        let year = 2000 + to_decimal(data[6]) as u16;
        match DateTime::new(year, month, day_of_month, hour, minute, second) {
            Ok(dt) => Ok(dt),
            Err(e) => Err(Error::DateTime(e)),
        }
    }

    /// Set the date and time: one burst write of the seven time registers.
    /// Years outside 2000 to 2099 are rejected before any bus transaction;
    /// the written registers force 24-hour mode and leave the oscillator
    /// running, and the weekday register is derived from the date.
    pub fn set_datetime(&mut self, datetime: &DateTime) -> (r: Result<(), Error>)
        requires
            old(self).wf(),
            datetime.wf(),
        ensures
            final(self).wf(),
            !(2000 <= datetime.spec_year() <= 2099) ==> r == Err::<(), Error>(
                Error::DateTime(DateTimeError::InvalidYear),
            ) && final(self).mem() == old(self).mem() && final(self).log() == old(self).log(),
            r is Ok ==> 2000 <= datetime.spec_year() <= 2099 && final(self).mem()
                == mem_after_write(old(self).mem(), spec_encode_frame(*datetime)) && final(self).log() == old(self).log().push(
                BusOp::Write { bytes: spec_encode_frame(*datetime) },
            ),
            r is Err && 2000 <= datetime.spec_year() <= 2099 ==> r == Err::<(), Error>(
                Error::I2c(BusFault),
            ) && final(self).mem() == old(self).mem() && final(self).log() == old(self).log(),
    {
        if datetime.year() < 2000 || datetime.year() > 2099 {
            return Err(Error::DateTime(DateTimeError::InvalidYear));
        }
        let mut data: Vec<u8> = Vec::new();
        data.push(Register::Seconds.addr());
        data.push(from_decimal(datetime.second()) & 0x7F);
        data.push(from_decimal(datetime.minute()));
        data.push(from_decimal(datetime.hour()) & 0x3F);
        let weekday = match datetime.calculate_weekday() {
            Ok(w) => w,
            Err(e) => {
                return Err(Error::DateTime(e));
            },
        };
        data.push(from_decimal(weekday.to_number()));
        data.push(from_decimal(datetime.day_of_month()));
        data.push(from_decimal(datetime.month()));
        data.push(from_decimal((datetime.year() - 2000) as u8));
        proof {
            lemma_from_decimal_bound(datetime.spec_second());
            lemma_from_decimal_bound(datetime.spec_hour());
            let s = spec_from_decimal(datetime.spec_second());
            let h = spec_from_decimal(datetime.spec_hour());
            assert(s < 0x60 ==> s & 0x7F == s) by (bit_vector);
            assert(h < 0x24 ==> h & 0x3F == h) by (bit_vector);
            assert(data@ =~= spec_encode_frame(*datetime));
        }
        self.write_raw_bytes(&data)
    }
}

} // verus!
