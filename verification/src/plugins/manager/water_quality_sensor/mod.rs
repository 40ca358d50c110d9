//! The water quality sensor: pH, conductivity and temperature, read from three
//! holding registers of a Modbus device.
//!
//! The registers hold fixed-point values: pH in hundredths, conductivity in
//! thousandths of mS/cm, temperature in tenths of a degree Celsius.
pub mod action;
pub mod discovery;

use vstd::prelude::*;

verus! {

/// The sensor's address on the serial bus.
pub const SENSOR_ADDR: u8 = 0x1;

/// The first register of a reading.
pub const SENSOR_DATA_ADDR: u16 = 0x0;

/// The number of registers in a reading.
pub const SENSOR_DATA_LEN: u16 = 3;

/// One reading, as the sensor's registers hold it.
#[derive(Debug, Clone, Copy, PartialEq, Eq, Structural)]
pub struct RawReading {
    /// pH, in hundredths.
    pub ph: u16,
    /// Conductivity, in thousandths of mS/cm.
    pub ec: u16,
    /// Temperature, in tenths of a degree Celsius.
    pub temp: u16,
}

impl Default for RawReading {
    fn default() -> (r: Self)
        ensures
            r == (RawReading { ph: 0, ec: 0, temp: 0 }),
    {
        RawReading { ph: 0, ec: 0, temp: 0 }
    }
}

impl RawReading {
    /// The reading held by the registers of a reply: pH, conductivity and
    /// temperature, in that order.
    pub fn from_registers(data: &Vec<u16>) -> (r: RawReading)
        requires
            data@.len() >= SENSOR_DATA_LEN,
        ensures
            r == (RawReading { ph: data@[0], ec: data@[1], temp: data@[2] }),
    {
        RawReading { ph: data[0], ec: data[1], temp: data[2] }
    }
}

/// The latest reading of the sensor.
#[derive(Debug, Clone, Copy)]
pub struct Manager {
    latest_data: RawReading,
}

impl Default for Manager {
    fn default() -> (r: Self)
        ensures
            r.get_data_spec() == (RawReading { ph: 0, ec: 0, temp: 0 }),
    {
        Manager { latest_data: RawReading::default() }
    }
}

impl Manager {
    /// The reading the manager holds.
    pub closed spec fn get_data_spec(&self) -> RawReading {
        self.latest_data
    }

    /// The latest reading.
    pub fn get_data(&self) -> (r: RawReading)
        ensures
            r == self.get_data_spec(),
    {
        self.latest_data
    }

    /// Takes a new reading as the latest.
    pub fn update(&mut self, data: RawReading)
        ensures
            final(self).get_data_spec() == data,
    {
        self.latest_data = data;
    }
}

} // verus!
