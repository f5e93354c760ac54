//! The snapshot of all quantities, and the reads it takes.

use vstd::prelude::*;
use crate::command::RESET;
use crate::decode::{
    direction_label, forecast_index, forecast_label, humidity, pressure, rain, temperature,
    tendency_index, tendency_label, wind_dir, wind_point, wind_speed, LABELS,
};
use crate::device::Device;
use crate::memory::{Memory, MemoryMap};
use crate::sweep::responses;

verus! {

/// One reading of every quantity the console keeps.
///
/// Temperatures, speeds, bearings, rainfalls and the pressure are in
/// tenths; humidities are in percent.
#[derive(Debug)]
pub struct Data {
    pub temperature_indoor: i32,
    pub temperature_outdoor: i32,
    pub dewpoint: i32,
    pub humidity_indoor: u32,
    pub humidity_outdoor: u32,
    pub wind_speed: u32,
    pub wind_dir: u32,
    pub wind_direction: String,
    pub wind_chill: i32,
    pub rain_1h: u32,
    pub rain_24h: u32,
    pub rain_total: u32,
    pub pressure: u32,
    pub tendency: String,
    pub forecast: String,
}

/// The number of regions a snapshot reads.
pub const REGIONS: usize = 13;

/// The place of the pressure trend among the reads of a snapshot.
pub const TENDENCY: usize = 12;

/// The regions a snapshot reads, in the order it reads them: each region
/// of the memory map once.
pub open spec fn plan(map: MemoryMap) -> Seq<Memory> {
    seq![
        map.temperature_indoor,
        map.temperature_outdoor,
        map.dewpoint,
        map.humidity_indoor,
        map.humidity_outdoor,
        map.wind_speed,
        map.wind_dir,
        map.wind_chill,
        map.rain_1h,
        map.rain_24h,
        map.rain_total,
        map.pressure,
        map.tendency,
    ]
}

/// Whether `values` are responses to the reads of the plan, one for each
/// region and of its size, from which a snapshot can be decoded: the last
/// one must report a trend and a forecast that have a name.
pub open spec fn decodable(map: MemoryMap, values: Seq<Seq<u8>>) -> bool {
    &&& values.len() == REGIONS
    &&& forall|i: int| 0 <= i < REGIONS ==> (#[trigger] values[i]).len() == plan(map)[i].size
    &&& tendency_index(values[TENDENCY as int]) < LABELS
    &&& forecast_index(values[TENDENCY as int]) < LABELS
}

impl Data {
    /// Whether the snapshot is the one decoded from `values`, the
    /// responses to the reads of the plan. The bearing and the name of the
    /// wind's direction come from the same response, and so do the trend
    /// and the forecast.
    pub open spec fn decodes(self, values: Seq<Seq<u8>>) -> bool {
        &&& self.temperature_indoor == temperature(values[0])
        &&& self.temperature_outdoor == temperature(values[1])
        &&& self.dewpoint == temperature(values[2])
        &&& self.humidity_indoor == humidity(values[3])
        &&& self.humidity_outdoor == humidity(values[4])
        &&& self.wind_speed == wind_speed(values[5])
        &&& self.wind_dir == wind_dir(values[6])
        &&& self.wind_direction@ == direction_label(wind_point(values[6]))
        &&& self.wind_chill == temperature(values[7])
        &&& self.rain_1h == rain(values[8])
        &&& self.rain_24h == rain(values[9])
        &&& self.rain_total == rain(values[10])
        &&& self.pressure == pressure(values[11])
        &&& self.tendency@ == tendency_label(tendency_index(values[12]))
        &&& self.forecast@ == forecast_label(forecast_index(values[12]))
    }
}

/// Every region of the console's memory can be read: none lies at the
/// address that equals the reset byte, and each has one to three bytes.
pub proof fn lemma_plan_readable(device: Device)
    requires
        device.wf(),
    ensures
        plan(device.memory).len() == REGIONS,
        forall|i: int|
            0 <= i < REGIONS ==> {
                &&& (#[trigger] plan(device.memory)[i]).address != RESET
                &&& 1 <= plan(device.memory)[i].size <= 3
            },
{
}

impl Device {
    /// The regions a snapshot reads, in the order it reads them.
    pub fn plan(&self) -> (regions: Vec<Memory>)
        ensures
            regions@ == plan(self.memory),
    {
        let mut regions: Vec<Memory> = Vec::new();
        regions.push(self.memory.temperature_indoor);
        regions.push(self.memory.temperature_outdoor);
        regions.push(self.memory.dewpoint);
        regions.push(self.memory.humidity_indoor);
        regions.push(self.memory.humidity_outdoor);
        regions.push(self.memory.wind_speed);
        regions.push(self.memory.wind_dir);
        regions.push(self.memory.wind_chill);
        regions.push(self.memory.rain_1h);
        regions.push(self.memory.rain_24h);
        regions.push(self.memory.rain_total);
        regions.push(self.memory.pressure);
        regions.push(self.memory.tendency);
        regions
    }

    /// Decodes the snapshot from the responses to the reads of the plan.
    pub fn snapshot(&self, values: &Vec<Vec<u8>>) -> (data: Data)
        requires
            self.wf(),
            decodable(self.memory, responses(values@)),
        ensures
            data.decodes(responses(values@)),
    {
        proof {
            let seqs = responses(values@);
            assert forall|i: int| 0 <= i < REGIONS implies (#[trigger] values@[i])@ == seqs[i] by {}
            assert(seqs[0].len() == 2);
            assert(seqs[1].len() == 2);
            assert(seqs[2].len() == 2);
            assert(seqs[3].len() == 1);
            assert(seqs[4].len() == 1);
            assert(seqs[5].len() == 3);
            assert(seqs[6].len() == 1);
            assert(seqs[7].len() == 2);
            assert(seqs[8].len() == 3);
            assert(seqs[9].len() == 3);
            assert(seqs[10].len() == 3);
            assert(seqs[11].len() == 3);
            assert(seqs[12].len() == 1);
        }
        Data {
            temperature_indoor: Self::temperature_indoor(&values[0]),
            temperature_outdoor: Self::temperature_outdoor(&values[1]),
            dewpoint: Self::dewpoint(&values[2]),
            humidity_indoor: Self::humidity_indoor(&values[3]),
            humidity_outdoor: Self::humidity_outdoor(&values[4]),
            wind_speed: Self::wind_speed(&values[5]),
            wind_dir: Self::wind_dir(&values[6]),
            wind_direction: Self::wind_direction(&values[6]),
            wind_chill: Self::wind_chill(&values[7]),
            rain_1h: Self::rain_1h(&values[8]),
            rain_24h: Self::rain_24h(&values[9]),
            rain_total: Self::rain_total(&values[10]),
            pressure: Self::pressure(&values[11]),
            tendency: Self::tendency(&values[12]),
            forecast: Self::forecast(&values[12]),
        }
    }

    /// The indoor temperature in tenths of a degree, from the response to
    /// the read of its region.
    pub fn temperature_indoor(value: &Vec<u8>) -> (degrees: i32)
        requires
            value@.len() >= 2,
        ensures
            degrees == temperature(value@),
    {
        Self::temperature(value)
    }

    /// The outdoor temperature in tenths of a degree, from the response to
    /// the read of its region.
    pub fn temperature_outdoor(value: &Vec<u8>) -> (degrees: i32)
        requires
            value@.len() >= 2,
        ensures
            degrees == temperature(value@),
    {
        Self::temperature(value)
    }

    /// The dewpoint in tenths of a degree, from the response to the read
    /// of its region.
    pub fn dewpoint(value: &Vec<u8>) -> (degrees: i32)
        requires
            value@.len() >= 2,
        ensures
            degrees == temperature(value@),
    {
        Self::temperature(value)
    }

    /// The wind chill in tenths of a degree, from the response to the read
    /// of its region.
    pub fn wind_chill(value: &Vec<u8>) -> (degrees: i32)
        requires
            value@.len() >= 2,
        ensures
            degrees == temperature(value@),
    {
        Self::temperature(value)
    }

    /// The indoor humidity in percent, from the response to the read of
    /// its region.
    pub fn humidity_indoor(value: &Vec<u8>) -> (percent: u32)
        requires
            value@.len() >= 1,
        ensures
            percent == humidity(value@),
    {
        Self::humidity(value)
    }

    /// The outdoor humidity in percent, from the response to the read of
    /// its region.
    pub fn humidity_outdoor(value: &Vec<u8>) -> (percent: u32)
        requires
            value@.len() >= 1,
        ensures
            percent == humidity(value@),
    {
        Self::humidity(value)
    }

    /// The rainfall of the last hour in tenths, from the response to the
    /// read of its region.
    pub fn rain_1h(value: &Vec<u8>) -> (amount: u32)
        requires
            value@.len() >= 3,
        ensures
            amount == rain(value@),
    {
        Self::rain(value)
    }

    /// The rainfall of the last day in tenths, from the response to the
    /// read of its region.
    pub fn rain_24h(value: &Vec<u8>) -> (amount: u32)
        requires
            value@.len() >= 3,
        ensures
            amount == rain(value@),
    {
        Self::rain(value)
    }

    /// The total rainfall in tenths, from the response to the read of its
    /// region.
    pub fn rain_total(value: &Vec<u8>) -> (amount: u32)
        requires
            value@.len() >= 3,
        ensures
            amount == rain(value@),
    {
        Self::rain(value)
    }
}

} // verus!
