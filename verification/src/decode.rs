//! Decoding of the raw bytes of a memory region into a physical value.
//!
//! The console stores decimal digits in nibbles; which power of ten a
//! nibble stands for depends on the kind of quantity. Values with a
//! fractional part are handed out in tenths: `215` is `21.5`.

use vstd::prelude::*;
use crate::decimal::{lemma_pow10_values, lemma_rounded_nearest, rounded};
use crate::device::Device;

verus! {

/// The high nibble of a byte.
pub open spec fn high(byte: u8) -> int {
    byte as int / 16
}

/// The low nibble of a byte.
pub open spec fn low(byte: u8) -> int {
    byte as int % 16
}

/// A value given in hundredths, rounded to one decimal place, half a
/// tenth going away from zero, and counted in tenths.
pub open spec fn tenths(hundredths: int) -> int {
    if hundredths >= 0 {
        (hundredths + 5) / 10
    } else {
        -((5 - hundredths) / 10)
    }
}

/// A temperature in hundredths of a degree: the first byte holds the
/// tenths and the hundredths, the second the tens and the units, and the
/// scale starts thirty degrees below zero.
pub open spec fn temperature_hundredths(value: Seq<u8>) -> int {
    high(value[0]) * 10 + low(value[0]) + high(value[1]) * 1000 + low(value[1]) * 100 - 3000
}

/// A temperature in tenths of a degree.
pub open spec fn temperature(value: Seq<u8>) -> int {
    tenths(temperature_hundredths(value))
}

/// A relative humidity in percent: the byte holds the tens and the units.
pub open spec fn humidity(value: Seq<u8>) -> int {
    high(value[0]) * 10 + low(value[0])
}

/// A wind speed in tenths: a binary number of twelve bits, the low nibble
/// of the second byte above the first byte.
pub open spec fn wind_speed(value: Seq<u8>) -> int {
    low(value[1]) * 256 + value[0] as int
}

/// The point of the compass rose the wind comes from, counted clockwise
/// from north in sixteenths of the circle.
pub open spec fn wind_point(value: Seq<u8>) -> int {
    high(value[0])
}

/// A wind bearing in tenths of a degree: 22.5 degrees to the point.
pub open spec fn wind_dir(value: Seq<u8>) -> int {
    tenths(wind_point(value) * 2250)
}

/// The name of a point of the compass rose.
pub open spec fn direction_label(point: int) -> Seq<char> {
    if point == 0 {
        "N"@
    } else if point == 1 {
        "NNE"@
    } else if point == 2 {
        "NE"@
    } else if point == 3 {
        "ENE"@
    } else if point == 4 {
        "E"@
    } else if point == 5 {
        "ESE"@
    } else if point == 6 {
        "SE"@
    } else if point == 7 {
        "SSE"@
    } else if point == 8 {
        "S"@
    } else if point == 9 {
        "SSW"@
    } else if point == 10 {
        "SW"@
    } else if point == 11 {
        "WSW"@
    } else if point == 12 {
        "W"@
    } else if point == 13 {
        "WNW"@
    } else if point == 14 {
        "NW"@
    } else {
        "NNW"@
    }
}

/// A rainfall in hundredths: the first byte holds the tenths and the
/// hundredths, the second the tens and the units, the third the thousands
/// and the hundreds.
pub open spec fn rain_hundredths(value: Seq<u8>) -> int {
    high(value[0]) * 10 + low(value[0]) + high(value[1]) * 1000 + low(value[1]) * 100 + high(
        value[2],
    ) * 100000 + low(value[2]) * 10000
}

/// A rainfall in tenths.
pub open spec fn rain(value: Seq<u8>) -> int {
    tenths(rain_hundredths(value))
}

/// A pressure in hundredths: the first byte holds the units and the
/// tenths, the second the hundreds and the tens, and the low nibble of the
/// third the thousands. The high nibble of the third byte is not part of
/// the pressure.
pub open spec fn pressure_hundredths(value: Seq<u8>) -> int {
    high(value[0]) * 100 + low(value[0]) * 10 + high(value[1]) * 10000 + low(value[1]) * 1000
        + low(value[2]) * 100000
}

/// A pressure in tenths.
pub open spec fn pressure(value: Seq<u8>) -> int {
    tenths(pressure_hundredths(value))
}

/// The number of pressure trends, and of forecasts, that have a name.
pub const LABELS: u8 = 3;

/// The trend the byte reports, counted as the console counts it.
pub open spec fn tendency_index(value: Seq<u8>) -> int {
    high(value[0])
}

/// The forecast the byte reports, counted as the console counts it.
pub open spec fn forecast_index(value: Seq<u8>) -> int {
    low(value[0])
}

/// The name of a pressure trend.
pub open spec fn tendency_label(index: int) -> Seq<char> {
    if index == 0 {
        "Steady"@
    } else if index == 1 {
        "Rising"@
    } else {
        "Falling"@
    }
}

/// The name of a forecast.
pub open spec fn forecast_label(index: int) -> Seq<char> {
    if index == 0 {
        "Rainy"@
    } else if index == 1 {
        "Cloudy"@
    } else {
        "Sunny"@
    }
}

/// The tenths of a value are its hundredths under the rounding policy,
/// rounded from two decimal places to one.
pub proof fn lemma_tenths(hundredths: int)
    ensures
        10 * tenths(hundredths) == rounded(hundredths, 2, 1),
{
    lemma_pow10_values();
    lemma_rounded_nearest(hundredths, 2, 1);
}

/// The bearing is 22.5 degrees for each point of the compass rose.
pub proof fn lemma_wind_dir(value: Seq<u8>)
    ensures
        wind_dir(value) == 225 * wind_point(value),
        0 <= wind_point(value) < 16,
{
}

/// The pressure has no digit below the tenths, so rounding leaves it as
/// it is.
pub proof fn lemma_pressure(value: Seq<u8>)
    ensures
        10 * pressure(value) == pressure_hundredths(value),
{
}

/// The high nibble of a byte, by shifting.
fn high_nibble(byte: u8) -> (nibble: u8)
    ensures
        nibble == high(byte),
        nibble < 16,
{
    assert(byte >> 4 == byte / 16) by (bit_vector);
    byte >> 4
}

/// The low nibble of a byte, by masking.
fn low_nibble(byte: u8) -> (nibble: u8)
    ensures
        nibble == low(byte),
        nibble < 16,
{
    assert(byte & 0xF == byte % 16) by (bit_vector);
    byte & 0xF
}

/// Rounds hundredths to one decimal place and counts the result in
/// tenths.
fn round_tenths(hundredths: i64) -> (result: i64)
    requires
        -1_000_000_000 <= hundredths <= 1_000_000_000,
    ensures
        result == tenths(hundredths as int),
{
    proof {
        lemma_tenths(hundredths as int);
    }
    let round: i64 = Device::round(hundredths, 2, 1);
    if round >= 0 {
        round / 10
    } else {
        -((-round) / 10)
    }
}

/// The name of a point of the compass rose.
fn direction(point: u8) -> (label: &'static str)
    requires
        point < 16,
    ensures
        label@ == direction_label(point as int),
{
    match point {
        0 => "N",
        1 => "NNE",
        2 => "NE",
        3 => "ENE",
        4 => "E",
        5 => "ESE",
        6 => "SE",
        7 => "SSE",
        8 => "S",
        9 => "SSW",
        10 => "SW",
        11 => "WSW",
        12 => "W",
        13 => "WNW",
        14 => "NW",
        _ => "NNW",
    }
}

impl Device {
    /// Decodes a temperature, in tenths of a degree.
    pub fn temperature(value: &Vec<u8>) -> (degrees: i32)
        requires
            value@.len() >= 2,
        ensures
            degrees == self::temperature(value@),
    {
        let low: i64 = high_nibble(value[0]) as i64 * 10 + low_nibble(value[0]) as i64;
        let high: i64 = high_nibble(value[1]) as i64 * 1000 + low_nibble(value[1]) as i64 * 100;
        proof {
            lemma_tenths(high + low - 3000);
        }
        round_tenths(high + low - 3000) as i32
    }

    /// Decodes a relative humidity, in percent.
    pub fn humidity(value: &Vec<u8>) -> (percent: u32)
        requires
            value@.len() >= 1,
        ensures
            percent == self::humidity(value@),
    {
        high_nibble(value[0]) as u32 * 10 + low_nibble(value[0]) as u32
    }

    /// Decodes the wind speed, in tenths.
    pub fn wind_speed(value: &Vec<u8>) -> (speed: u32)
        requires
            value@.len() >= 2,
        ensures
            speed == self::wind_speed(value@),
    {
        let byte: u8 = value[1];
        let upper: u16 = ((byte & 0xF) as u16) << 8;
        assert(upper == low(byte) * 256) by {
            assert(((byte & 0xF) as u16) << 8 == (byte % 16) * 256) by (bit_vector);
        }
        upper as u32 + value[0] as u32
    }

    /// Decodes the wind bearing, in tenths of a degree.
    pub fn wind_dir(value: &Vec<u8>) -> (bearing: u32)
        requires
            value@.len() >= 1,
        ensures
            bearing == self::wind_dir(value@),
    {
        let point: i64 = high_nibble(value[0]) as i64;
        proof {
            lemma_wind_dir(value@);
        }
        round_tenths(point * 2250) as u32
    }

    /// Decodes the compass point the wind comes from, by name.
    pub fn wind_direction(value: &Vec<u8>) -> (label: String)
        requires
            value@.len() >= 1,
        ensures
            label@ == direction_label(wind_point(value@)),
    {
        direction(high_nibble(value[0])).to_owned()
    }

    /// Decodes a rainfall, in tenths.
    pub fn rain(value: &Vec<u8>) -> (amount: u32)
        requires
            value@.len() >= 3,
        ensures
            amount == self::rain(value@),
    {
        let low: i64 = high_nibble(value[0]) as i64 * 10 + low_nibble(value[0]) as i64;
        let med: i64 = high_nibble(value[1]) as i64 * 1000 + low_nibble(value[1]) as i64 * 100;
        let high: i64 = high_nibble(value[2]) as i64 * 100000 + low_nibble(value[2]) as i64
            * 10000;
        proof {
            lemma_tenths(low + med + high);
        }
        round_tenths(low + med + high) as u32
    }

    /// Decodes the pressure, in tenths.
    pub fn pressure(value: &Vec<u8>) -> (amount: u32)
        requires
            value@.len() >= 3,
        ensures
            amount == self::pressure(value@),
    {
        let low: i64 = high_nibble(value[0]) as i64 * 100 + low_nibble(value[0]) as i64 * 10;
        let med: i64 = high_nibble(value[1]) as i64 * 10000 + low_nibble(value[1]) as i64 * 1000;
        let high: i64 = low_nibble(value[2]) as i64 * 100000;
        proof {
            lemma_tenths(low + med + high);
        }
        round_tenths(low + med + high) as u32
    }

    /// Decodes the pressure trend, by name.
    ///
    /// The byte must report one of the trends that have a name.
    pub fn tendency(value: &Vec<u8>) -> (label: String)
        requires
            value@.len() >= 1,
            tendency_index(value@) < LABELS,
        ensures
            label@ == tendency_label(tendency_index(value@)),
    {
        let index: u8 = high_nibble(value[0]);
        let label: &'static str = if index == 0 {
            "Steady"
        } else if index == 1 {
            "Rising"
        } else {
            "Falling"
        };
        label.to_owned()
    }

    /// Decodes the forecast, by name.
    ///
    /// The byte must report one of the forecasts that have a name.
    pub fn forecast(value: &Vec<u8>) -> (label: String)
        requires
            value@.len() >= 1,
            forecast_index(value@) < LABELS,
        ensures
            label@ == forecast_label(forecast_index(value@)),
    {
        let index: u8 = low_nibble(value[0]);
        let label: &'static str = if index == 0 {
            "Rainy"
        } else if index == 1 {
            "Cloudy"
        } else {
            "Sunny"
        };
        label.to_owned()
    }
}

} // verus!
