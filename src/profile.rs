use vstd::prelude::*;

verus! {

/// Oversampling levels the sensor supports for one quantity.
#[derive(Clone, Copy, Debug, PartialEq, Eq, Structural)]
pub enum Oversampling {
    OSNone,
    OS1x,
    OS2x,
    OS4x,
    OS8x,
    OS16x,
}

/// Sizes of the sensor's infinite-impulse-response filter.
#[derive(Clone, Copy, Debug, PartialEq, Eq, Structural)]
pub enum FilterSize {
    Size0,
    Size1,
    Size3,
    Size7,
    Size15,
    Size31,
    Size63,
    Size127,
}

/// The measurement profile submitted to the sensor once at startup:
/// oversampling per quantity, filter size and the gas heater's settings.
#[derive(Clone, Copy, Debug, PartialEq, Eq, Structural)]
pub struct SensorProfile {
    pub humidity_oversampling: Oversampling,
    pub pressure_oversampling: Oversampling,
    pub temperature_oversampling: Oversampling,
    pub filter: FilterSize,
    /// How long the gas heater runs, in milliseconds.
    pub heater_duration_ms: u64,
    /// Target temperature of the gas heater, in degrees Celsius.
    pub heater_temperature_c: u16,
    /// Ambient temperature assumed for the heater, in degrees Celsius.
    pub ambient_temperature_c: i8,
    pub run_gas: bool,
}

impl SensorProfile {
    /// The profile this logger runs with: humidity 2x, pressure 4x and
    /// temperature 8x oversampling, filter size 3, and gas measurement with the
    /// heater at 320 degrees for 1500 ms from an assumed 25 degrees.
    pub fn deployment() -> (r: SensorProfile)
        ensures
            r == (SensorProfile {
                humidity_oversampling: Oversampling::OS2x,
                pressure_oversampling: Oversampling::OS4x,
                temperature_oversampling: Oversampling::OS8x,
                filter: FilterSize::Size3,
                heater_duration_ms: 1500,
                heater_temperature_c: 320,
                ambient_temperature_c: 25,
                run_gas: true,
            }),
    {
        SensorProfile {
            humidity_oversampling: Oversampling::OS2x,
            pressure_oversampling: Oversampling::OS4x,
            temperature_oversampling: Oversampling::OS8x,
            filter: FilterSize::Size3,
            heater_duration_ms: 1500,
            heater_temperature_c: 320,
            ambient_temperature_c: 25,
            run_gas: true,
        }
    }
}

} // verus!
