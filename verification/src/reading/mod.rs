//! Readings: the output of a sensing instrument, one type per kind of sensor.
//!
//! A BME280 reports temperature, pressure and humidity as 32-bit floating-point
//! numbers; they are held here as their IEEE 754 bit patterns, which stand for
//! them exactly. A DS18B20 reports its device name and a raw reading in
//! thousandths of a degree Celsius. How a reading is displayed goes through
//! floating-point formatting and is left to the server around this crate.
use vstd::prelude::*;

verus! {

/// A reading of a DS18B20 temperature sensor.
#[derive(Debug, Clone)]
pub struct DS18B20 {
    device_name: String,
    raw_reading: i32,
}

/// A reading of a BME280 climate sensor; each value is the bit pattern of an
/// `f32`: temperature in degrees Celsius, pressure in pascals, relative
/// humidity in percent.
#[derive(Debug, Clone, Copy, PartialEq, Eq, Structural)]
pub struct BME280 {
    temperature: u32,
    pressure: u32,
    humidity: u32,
}

/// A reading of one of the supported sensors.
#[derive(Debug, Clone)]
pub enum Reading {
    BME280(BME280),
    DS18B20(DS18B20),
}

/// What a reading holds, in mathematical terms.
pub enum ReadingData {
    BME280 { temperature: u32, pressure: u32, humidity: u32 },
    DS18B20 { device_name: Seq<char>, raw_reading: i32 },
}

impl DS18B20 {
    pub closed spec fn spec_device_name(&self) -> Seq<char> {
        self.device_name@
    }

    pub closed spec fn spec_raw_reading(&self) -> i32 {
        self.raw_reading
    }

    pub fn new(device_name: String, raw_reading: i32) -> (reading: Self)
        ensures
            reading.spec_device_name() == device_name@,
            reading.spec_raw_reading() == raw_reading,
    {
        Self { device_name, raw_reading }
    }

    pub fn device_name(&self) -> (name: &str)
        ensures
            name@ == self.spec_device_name(),
    {
        self.device_name.as_str()
    }

    pub fn raw_reading(&self) -> (raw: i32)
        ensures
            raw == self.spec_raw_reading(),
    {
        self.raw_reading
    }
}

impl BME280 {
    pub closed spec fn spec_temperature(&self) -> u32 {
        self.temperature
    }

    pub closed spec fn spec_pressure(&self) -> u32 {
        self.pressure
    }

    pub closed spec fn spec_humidity(&self) -> u32 {
        self.humidity
    }

    /// A reading from the bit patterns of its three values.
    pub fn new(temperature: u32, pressure: u32, humidity: u32) -> (reading: Self)
        ensures
            reading.spec_temperature() == temperature,
            reading.spec_pressure() == pressure,
            reading.spec_humidity() == humidity,
    {
        Self { temperature, pressure, humidity }
    }

    pub fn temperature(&self) -> (bits: u32)
        ensures
            bits == self.spec_temperature(),
    {
        self.temperature
    }

    pub fn pressure(&self) -> (bits: u32)
        ensures
            bits == self.spec_pressure(),
    {
        self.pressure
    }

    pub fn humidity(&self) -> (bits: u32)
        ensures
            bits == self.spec_humidity(),
    {
        self.humidity
    }
}

impl View for Reading {
    type V = ReadingData;

    open spec fn view(&self) -> ReadingData {
        match self {
            Reading::BME280(r) => ReadingData::BME280 {
                temperature: r.spec_temperature(),
                pressure: r.spec_pressure(),
                humidity: r.spec_humidity(),
            },
            Reading::DS18B20(r) => ReadingData::DS18B20 {
                device_name: r.spec_device_name(),
                raw_reading: r.spec_raw_reading(),
            },
        }
    }
}

} // verus!
