//! The device session: lazy settings application, the sleep-to-forced
//! acquisition state machine with bounded retry, and the result decoder.
//!
//! One [`BME680`] owns its link to the vendor algorithm library and the
//! tracked configuration.  `read_all` re-applies settings only when they
//! are dirty, activates forced mode with a bounded confirmation poll,
//! waits the cached profile duration, and decodes the fetched snapshot.

use crate::algo::{AlgoLink, RawFieldData, BME680_FORCED_MODE, BME680_GASM_VALID_MSK};
use crate::errors::{SensorError, BME680_OK};
use crate::settings::{
    apply_setter, FilterSize, Oversampling, SetterCall, SettingsTracker, BME680_APPLY_SEL,
};
use vstd::prelude::*;

verus! {

/// Fixed pause between mode-confirmation polls, in milliseconds.
pub const BME680_POLL_PERIOD_MS: u32 = 10;
/// How many confirmation polls activation makes before giving up with
/// [`SensorError::DeviceUnresponsive`].  The retry is bounded so a stuck or
/// disconnected device cannot hang the acquisition thread forever.
pub const BME680_MODE_RETRY_LIMIT: u32 = 10;

/// The two 7-bit bus addresses the chip can be strapped to.
#[derive(Copy, Clone, Debug, PartialEq, Eq, Structural)]
pub enum Bme680Address {
    Primary,
    Secondary,
}

impl Bme680Address {
    /// The wire address of each strap option.
    pub open spec fn spec_addr(self) -> u8 {
        match self {
            Bme680Address::Primary => 0x76,
            Bme680Address::Secondary => 0x77,
        }
    }

    /// The wire address of this strap option.
    pub fn addr(&self) -> (r: u8)
        ensures
            r == self.spec_addr(),
    {
        match self {
            Bme680Address::Primary => 0x76,
            Bme680Address::Secondary => 0x77,
        }
    }
}

impl Default for Bme680Address {
    fn default() -> (r: Self)
        ensures
            r == Bme680Address::Primary,
    {
        Bme680Address::Primary
    }
}

/// One decoded reading, in fixed point: hundredths of a degree Celsius,
/// Pascal, and thousandths of a percent relative humidity.  Scaling to
/// floating point (divide by 100 and by 1000) is the embedder's concern.
/// Gas resistance is present exactly when the gas-valid status bit was set
/// at read time.
#[derive(Copy, Clone, Debug, PartialEq, Eq)]
pub struct Bme680Data {
    pub temperature_centi: i16,
    pub pressure: u32,
    pub humidity_milli: u32,
    pub gas_resistance: Option<u32>,
}

/// What the decoder makes of a raw snapshot: the fixed-point fields pass
/// through unscaled, and gas resistance is gated behind the gas-valid bit.
pub open spec fn spec_decode(data: RawFieldData) -> Bme680Data {
    Bme680Data {
        temperature_centi: data.temperature,
        pressure: data.pressure,
        humidity_milli: data.humidity,
        gas_resistance: if data.status & BME680_GASM_VALID_MSK != 0 {
            Some(data.gas_resistance)
        } else {
            None
        },
    }
}

/// Decode one raw snapshot.  Temperature, pressure and humidity pass
/// through unchanged for every raw input, negative temperatures included;
/// gas resistance is `Some` exactly when the gas-valid bit is set,
/// whatever the other status bits hold.
pub fn decode_field_data(data: &RawFieldData) -> (r: Bme680Data)
    ensures
        r == spec_decode(*data),
        r.temperature_centi == data.temperature,
        r.pressure == data.pressure,
        r.humidity_milli == data.humidity,
        r.gas_resistance is Some <==> data.status & BME680_GASM_VALID_MSK != 0,
        r.gas_resistance is Some ==> r.gas_resistance == Some(data.gas_resistance),
{
    Bme680Data {
        temperature_centi: data.temperature,
        pressure: data.pressure,
        humidity_milli: data.humidity,
        gas_resistance: if data.status & BME680_GASM_VALID_MSK != 0 {
            Some(data.gas_resistance)
        } else {
            None
        },
    }
}

/// One sensor session: the link to the vendor algorithm library, the
/// tracked configuration with its dirty flag, and the cached profile
/// duration in milliseconds.
#[derive(Debug)]
pub struct BME680<A> {
    pub link: A,
    pub settings: SettingsTracker,
    pub measure_period: u16,
}

impl<A: AlgoLink> BME680<A> {
    /// Wrap an already-initialized link in a fresh session: initial
    /// settings, dirty, with a provisional profile duration that the first
    /// successful application replaces.
    pub fn raw_init(link: A) -> (r: BME680<A>)
        ensures
            r.link == link,
            r.settings == SettingsTracker::spec_initial(),
            r.settings.dirty,
            r.measure_period == 20,
    {
        BME680 { link, settings: SettingsTracker::new(), measure_period: 20 }
    }

    /// Initialize the device through the link: probe the chip, read its
    /// calibration, and open a session.  A non-zero native status maps to
    /// the corresponding error; activation timeouts cannot arise here.
    pub fn initialize(link: A) -> (r: Result<BME680<A>, SensorError>)
        ensures
            r matches Ok(d) ==> d.settings == SettingsTracker::spec_initial()
                && d.measure_period == 20,
            r matches Err(e) ==> e != SensorError::DeviceUnresponsive,
    {
        let mut link = link;
        let rslt = link.init();
        if rslt != BME680_OK {
            Err(SensorError::from(rslt))
        } else {
            Ok(BME680::raw_init(link))
        }
    }

    /// Drive the device from sleep into forced mode: request forced mode,
    /// read the mode back, and poll with a fixed pause until the device
    /// confirms, at most [`BME680_MODE_RETRY_LIMIT`] times.  Neither the
    /// tracked settings nor the cached duration change.
    pub fn activate_device(&mut self) -> (r: Result<(), SensorError>)
        ensures
            final(self).settings == old(self).settings,
            final(self).measure_period == old(self).measure_period,
    {
        let mut rslt: i8 = self.link.set_mode(BME680_FORCED_MODE);
        let mut mode: u8 = self.link.get_mode();
        let mut retries: u32 = 0;
        while mode != BME680_FORCED_MODE && retries < BME680_MODE_RETRY_LIMIT
            invariant
                self.settings == old(self).settings,
                self.measure_period == old(self).measure_period,
                retries <= BME680_MODE_RETRY_LIMIT,
            decreases BME680_MODE_RETRY_LIMIT - retries,
        {
            self.link.delay_ms(BME680_POLL_PERIOD_MS);
            rslt = self.link.set_mode(BME680_FORCED_MODE);
            mode = self.link.get_mode();
            retries = retries + 1;
        }
        if mode != BME680_FORCED_MODE {
            return Err(SensorError::DeviceUnresponsive);
        }
        SensorError::check_status(rslt)
    }

    /// Apply the tracked settings if, and only if, they are dirty.
    ///
    /// When nothing is dirty this returns success immediately and the whole
    /// session, link included, is untouched: repeated calls perform no bus
    /// traffic.  When dirty, the fixed selector pushes the oversampling,
    /// filter and gas configuration, the device is activated once, and the
    /// profile duration is re-cached; only then is the dirty flag cleared.
    /// On any failure the flag stays dirty — a later call retries — and
    /// the cached duration keeps its previous value.
    pub fn ensure_applied(&mut self) -> (r: Result<(), SensorError>)
        ensures
            !old(self).settings.dirty ==> r is Ok && *final(self) == *old(self),
            r is Ok ==> !final(self).settings.dirty,
            r is Err ==> final(self).settings.dirty && old(self).settings.dirty,
            final(self).settings.spec_values() == old(self).settings.spec_values(),
            r is Err ==> final(self).measure_period == old(self).measure_period,
    {
        if !self.settings.dirty {
            return Ok(());
        }
        let applied = self.settings.applied_values();
        let rslt = self.link.apply_settings(BME680_APPLY_SEL, &applied);
        if rslt != BME680_OK {
            return Err(SensorError::from(rslt));
        }
        match self.activate_device() {
            Ok(()) => {},
            Err(e) => {
                return Err(e);
            },
        }
        let duration = self.link.get_profile_duration();
        self.measure_period = duration;
        self.settings.mark_applied();
        Ok(())
    }

    /// Wait the cached profile duration, then fetch and decode one
    /// snapshot.  Callable only with clean settings: the state machine
    /// never requests field data while the configuration is dirty.
    fn fetch_reading(&mut self) -> (r: Result<Bme680Data, SensorError>)
        requires
            !old(self).settings.dirty,
        ensures
            final(self).settings == old(self).settings,
            final(self).measure_period == old(self).measure_period,
    {
        self.link.delay_ms(self.measure_period as u32);
        let (data, rslt) = self.link.get_field_data();
        if rslt != BME680_OK {
            return Err(SensorError::from(rslt));
        }
        Ok(decode_field_data(&data))
    }

    /// One full acquisition: make the configuration current (which also
    /// activates the device), or activate directly when nothing is dirty;
    /// wait the cached profile duration; fetch and decode a snapshot.  A
    /// reading is only ever produced with clean settings, and the tracked
    /// setting values themselves never change.
    pub fn read_all(&mut self) -> (r: Result<Bme680Data, SensorError>)
        ensures
            final(self).settings.spec_values() == old(self).settings.spec_values(),
            r is Ok ==> !final(self).settings.dirty,
            !old(self).settings.dirty ==> !final(self).settings.dirty,
    {
        if self.settings.dirty {
            match self.ensure_applied() {
                Ok(()) => {},
                Err(e) => {
                    return Err(e);
                },
            }
        } else {
            match self.activate_device() {
                Ok(()) => {},
                Err(e) => {
                    return Err(e);
                },
            }
        }
        self.fetch_reading()
    }

    pub fn get_temperature_oversampling(&self) -> (r: Oversampling)
        ensures
            r == self.settings.os_temp,
    {
        self.settings.os_temp
    }

    pub fn get_pressure_oversampling(&self) -> (r: Oversampling)
        ensures
            r == self.settings.os_pres,
    {
        self.settings.os_pres
    }

    pub fn get_humidity_oversampling(&self) -> (r: Oversampling)
        ensures
            r == self.settings.os_hum,
    {
        self.settings.os_hum
    }

    pub fn set_temperature_oversampling(&mut self, oversampling: Oversampling)
        ensures
            final(self).settings == apply_setter(
                old(self).settings,
                SetterCall::TemperatureOversampling(oversampling),
            ),
            final(self).settings.dirty,
            final(self).link == old(self).link,
            final(self).measure_period == old(self).measure_period,
    {
        self.settings.set_os_temp(oversampling);
    }

    pub fn set_pressure_oversampling(&mut self, oversampling: Oversampling)
        ensures
            final(self).settings == apply_setter(
                old(self).settings,
                SetterCall::PressureOversampling(oversampling),
            ),
            final(self).settings.dirty,
            final(self).link == old(self).link,
            final(self).measure_period == old(self).measure_period,
    {
        self.settings.set_os_pres(oversampling);
    }

    pub fn set_humidity_oversampling(&mut self, oversampling: Oversampling)
        ensures
            final(self).settings == apply_setter(
                old(self).settings,
                SetterCall::HumidityOversampling(oversampling),
            ),
            final(self).settings.dirty,
            final(self).link == old(self).link,
            final(self).measure_period == old(self).measure_period,
    {
        self.settings.set_os_hum(oversampling);
    }

    pub fn get_filter_size(&self) -> (r: FilterSize)
        ensures
            r == self.settings.filter,
    {
        self.settings.filter
    }

    pub fn set_filter_size(&mut self, filter: FilterSize)
        ensures
            final(self).settings == apply_setter(old(self).settings, SetterCall::Filter(filter)),
            final(self).settings.dirty,
            final(self).link == old(self).link,
            final(self).measure_period == old(self).measure_period,
    {
        self.settings.set_filter(filter);
    }

    pub fn set_enable_gas_resistence(&mut self, enable: bool)
        ensures
            final(self).settings == apply_setter(
                old(self).settings,
                SetterCall::GasEnabled(enable),
            ),
            final(self).settings.dirty,
            final(self).link == old(self).link,
            final(self).measure_period == old(self).measure_period,
    {
        self.settings.set_gas_enabled(enable);
    }

    pub fn get_gas_resistence(&self) -> (r: bool)
        ensures
            r == self.settings.gas_enabled,
    {
        self.settings.gas_enabled
    }
}

} // verus!
