//! The settings tracker: oversampling, filter, heater and gas configuration,
//! with a dirty flag for lazy application.
//!
//! Setters only record the change and mark the tracker dirty; no hardware
//! traffic happens until the next acquisition re-applies the configuration.
//! The enumerations carry an explicit, total mapping to and from their
//! native register encoding, with the documented fallback on unrecognized
//! input (oversampling falls back to skipped, the filter to its largest
//! size).

use vstd::prelude::*;

verus! {

/// Settings-selector bit: push temperature oversampling.
pub const BME680_OST_SEL: u16 = 1;
/// Settings-selector bit: push pressure oversampling.
pub const BME680_OSP_SEL: u16 = 2;
/// Settings-selector bit: push humidity oversampling.
pub const BME680_OSH_SEL: u16 = 4;
/// Settings-selector bit: push the gas measurement configuration.
pub const BME680_GAS_MEAS_SEL: u16 = 8;
/// Settings-selector bit: push the IIR filter size.
pub const BME680_FILTER_SEL: u16 = 16;
/// Settings-selector bit: push the run-gas flag.
pub const BME680_RUN_GAS_SEL: u16 = 64;
/// Settings-selector bit: push the conversion-slot number.
pub const BME680_NBCONV_SEL: u16 = 128;
/// Composite selector for the whole gas-sensor configuration.
pub const BME680_GAS_SENSOR_SEL: u16 = BME680_GAS_MEAS_SEL | BME680_RUN_GAS_SEL
    | BME680_NBCONV_SEL;
/// The fixed selector the tracker uses when it re-applies settings:
/// the three oversampling fields, the filter, and the gas configuration.
pub const BME680_APPLY_SEL: u16 = BME680_OST_SEL | BME680_OSP_SEL | BME680_OSH_SEL
    | BME680_FILTER_SEL | BME680_GAS_SENSOR_SEL;

/// Over-sampling settings.
///
/// `Skipped` disables the measurement channel entirely.
#[derive(Copy, Clone, Debug, PartialEq, Eq, Structural)]
pub enum Oversampling {
    Skipped,
    _1X,
    _2X,
    _4X,
    _8X,
    _16X,
}

impl Oversampling {
    /// The native register encoding of each level.
    pub open spec fn spec_encoding(self) -> u8 {
        match self {
            Oversampling::Skipped => 0,
            Oversampling::_1X => 1,
            Oversampling::_2X => 2,
            Oversampling::_4X => 3,
            Oversampling::_8X => 4,
            Oversampling::_16X => 5,
        }
    }

    /// The level a native register encoding denotes; unrecognized input
    /// falls back to `Skipped`.
    pub open spec fn spec_from_encoding(os: u8) -> Oversampling {
        if os == 1 {
            Oversampling::_1X
        } else if os == 2 {
            Oversampling::_2X
        } else if os == 3 {
            Oversampling::_4X
        } else if os == 4 {
            Oversampling::_8X
        } else if os == 5 {
            Oversampling::_16X
        } else {
            Oversampling::Skipped
        }
    }

    /// The native register encoding of this level.
    pub fn encoding(&self) -> (r: u8)
        ensures
            r == self.spec_encoding(),
    {
        match self {
            Oversampling::Skipped => 0,
            Oversampling::_1X => 1,
            Oversampling::_2X => 2,
            Oversampling::_4X => 3,
            Oversampling::_8X => 4,
            Oversampling::_16X => 5,
        }
    }
}

impl From<u8> for Oversampling {
    fn from(os: u8) -> (r: Self) {
        if os == 1 {
            Oversampling::_1X
        } else if os == 2 {
            Oversampling::_2X
        } else if os == 3 {
            Oversampling::_4X
        } else if os == 4 {
            Oversampling::_8X
        } else if os == 5 {
            Oversampling::_16X
        } else {
            Oversampling::Skipped
        }
    }
}

impl vstd::std_specs::convert::FromSpecImpl<u8> for Oversampling {
    open spec fn obeys_from_spec() -> bool {
        true
    }

    open spec fn from_spec(os: u8) -> Self {
        Oversampling::spec_from_encoding(os)
    }
}

/// Law: decoding an encoded oversampling level gives the level back.
pub proof fn lemma_oversampling_roundtrip(os: Oversampling)
    ensures
        Oversampling::spec_from_encoding(os.spec_encoding()) == os,
{
}

/// IIR filter settings, in samples.
#[derive(Copy, Clone, Debug, PartialEq, Eq, Structural)]
pub enum FilterSize {
    Size0,
    Size1,
    Size3,
    Size7,
    Size15,
    Size31,
    Size63,
    Size127,
}

impl FilterSize {
    /// The native register encoding of each size.
    pub open spec fn spec_encoding(self) -> u8 {
        match self {
            FilterSize::Size0 => 0,
            FilterSize::Size1 => 1,
            FilterSize::Size3 => 2,
            FilterSize::Size7 => 3,
            FilterSize::Size15 => 4,
            FilterSize::Size31 => 5,
            FilterSize::Size63 => 6,
            FilterSize::Size127 => 7,
        }
    }

    /// The size a native register encoding denotes; unrecognized input
    /// falls back to the largest filter.
    pub open spec fn spec_from_encoding(filter: u8) -> FilterSize {
        if filter == 0 {
            FilterSize::Size0
        } else if filter == 1 {
            FilterSize::Size1
        } else if filter == 2 {
            FilterSize::Size3
        } else if filter == 3 {
            FilterSize::Size7
        } else if filter == 4 {
            FilterSize::Size15
        } else if filter == 5 {
            FilterSize::Size31
        } else if filter == 6 {
            FilterSize::Size63
        } else {
            FilterSize::Size127
        }
    }

    /// The native register encoding of this size.
    pub fn encoding(&self) -> (r: u8)
        ensures
            r == self.spec_encoding(),
    {
        match self {
            FilterSize::Size0 => 0,
            FilterSize::Size1 => 1,
            FilterSize::Size3 => 2,
            FilterSize::Size7 => 3,
            FilterSize::Size15 => 4,
            FilterSize::Size31 => 5,
            FilterSize::Size63 => 6,
            FilterSize::Size127 => 7,
        }
    }
}

impl From<u8> for FilterSize {
    fn from(filter: u8) -> (r: Self) {
        if filter == 0 {
            FilterSize::Size0
        } else if filter == 1 {
            FilterSize::Size1
        } else if filter == 2 {
            FilterSize::Size3
        } else if filter == 3 {
            FilterSize::Size7
        } else if filter == 4 {
            FilterSize::Size15
        } else if filter == 5 {
            FilterSize::Size31
        } else if filter == 6 {
            FilterSize::Size63
        } else {
            FilterSize::Size127
        }
    }
}

impl vstd::std_specs::convert::FromSpecImpl<u8> for FilterSize {
    open spec fn obeys_from_spec() -> bool {
        true
    }

    open spec fn from_spec(filter: u8) -> Self {
        FilterSize::spec_from_encoding(filter)
    }
}

/// Law: decoding an encoded filter size gives the size back.
pub proof fn lemma_filter_size_roundtrip(filter: FilterSize)
    ensures
        FilterSize::spec_from_encoding(filter.spec_encoding()) == filter,
{
}

/// The register-level image of the tracked settings, as the vendor
/// algorithm library consumes it: one byte per oversampling channel and the
/// filter, the heater target and duration, and the run-gas flag.
#[derive(Copy, Clone, Debug, PartialEq, Eq, Structural)]
pub struct AppliedSettings {
    pub os_temp: u8,
    pub os_pres: u8,
    pub os_hum: u8,
    pub filter: u8,
    pub heater_temp: u16,
    pub heater_dur: u16,
    pub run_gas: u8,
}

/// The configuration a device session carries, with the dirty flag.
///
/// `dirty` is true exactly when the tracked values may differ from what the
/// hardware holds: on construction (nothing applied yet) and after any
/// setter, until an application succeeds.
#[derive(Copy, Clone, Debug, PartialEq, Eq, Structural)]
pub struct SettingsTracker {
    pub os_temp: Oversampling,
    pub os_pres: Oversampling,
    pub os_hum: Oversampling,
    pub filter: FilterSize,
    pub heater_temp: u16,
    pub heater_dur: u16,
    pub gas_enabled: bool,
    pub dirty: bool,
}

impl SettingsTracker {
    /// The configuration a fresh session starts from: every channel
    /// skipped, no filtering, the nominal gas-heater profile, gas
    /// measurement off, and dirty, so that the first acquisition applies
    /// the settings before measuring.
    pub open spec fn spec_initial() -> SettingsTracker {
        SettingsTracker {
            os_temp: Oversampling::Skipped,
            os_pres: Oversampling::Skipped,
            os_hum: Oversampling::Skipped,
            filter: FilterSize::Size0,
            heater_temp: 320,
            heater_dur: 150,
            gas_enabled: false,
            dirty: true,
        }
    }

    /// All fields but the dirty flag.
    pub open spec fn spec_values(self) -> SettingsTracker {
        SettingsTracker { dirty: false, ..self }
    }

    pub fn new() -> (r: SettingsTracker)
        ensures
            r == SettingsTracker::spec_initial(),
    {
        SettingsTracker {
            os_temp: Oversampling::Skipped,
            os_pres: Oversampling::Skipped,
            os_hum: Oversampling::Skipped,
            filter: FilterSize::Size0,
            heater_temp: 320,
            heater_dur: 150,
            gas_enabled: false,
            dirty: true,
        }
    }

    /// The register-level image of the tracked values.
    pub open spec fn spec_applied(self) -> AppliedSettings {
        AppliedSettings {
            os_temp: self.os_temp.spec_encoding(),
            os_pres: self.os_pres.spec_encoding(),
            os_hum: self.os_hum.spec_encoding(),
            filter: self.filter.spec_encoding(),
            heater_temp: self.heater_temp,
            heater_dur: self.heater_dur,
            run_gas: if self.gas_enabled { 1 } else { 0 },
        }
    }

    pub fn applied_values(&self) -> (r: AppliedSettings)
        ensures
            r == self.spec_applied(),
    {
        AppliedSettings {
            os_temp: self.os_temp.encoding(),
            os_pres: self.os_pres.encoding(),
            os_hum: self.os_hum.encoding(),
            filter: self.filter.encoding(),
            heater_temp: self.heater_temp,
            heater_dur: self.heater_dur,
            run_gas: if self.gas_enabled { 1 } else { 0 },
        }
    }

    pub fn set_os_temp(&mut self, os: Oversampling)
        ensures
            *final(self) == apply_setter(*old(self), SetterCall::TemperatureOversampling(os)),
    {
        self.os_temp = os;
        self.dirty = true;
    }

    pub fn set_os_pres(&mut self, os: Oversampling)
        ensures
            *final(self) == apply_setter(*old(self), SetterCall::PressureOversampling(os)),
    {
        self.os_pres = os;
        self.dirty = true;
    }

    pub fn set_os_hum(&mut self, os: Oversampling)
        ensures
            *final(self) == apply_setter(*old(self), SetterCall::HumidityOversampling(os)),
    {
        self.os_hum = os;
        self.dirty = true;
    }

    pub fn set_filter(&mut self, filter: FilterSize)
        ensures
            *final(self) == apply_setter(*old(self), SetterCall::Filter(filter)),
    {
        self.filter = filter;
        self.dirty = true;
    }

    pub fn set_gas_enabled(&mut self, enable: bool)
        ensures
            *final(self) == apply_setter(*old(self), SetterCall::GasEnabled(enable)),
    {
        self.gas_enabled = enable;
        self.dirty = true;
    }

    /// Clear the dirty flag after a successful application.
    pub fn mark_applied(&mut self)
        ensures
            *final(self) == (SettingsTracker { dirty: false, ..*old(self) }),
    {
        self.dirty = false;
    }
}

/// One setter invocation on the tracker, as a value, so that laws can speak
/// of arbitrary sequences of them.
#[derive(Copy, Clone, Debug, PartialEq, Eq, Structural)]
pub enum SetterCall {
    TemperatureOversampling(Oversampling),
    PressureOversampling(Oversampling),
    HumidityOversampling(Oversampling),
    Filter(FilterSize),
    GasEnabled(bool),
}

/// What a single setter does to the tracker: it records the value and marks
/// the tracker dirty.
pub open spec fn apply_setter(t: SettingsTracker, call: SetterCall) -> SettingsTracker {
    match call {
        SetterCall::TemperatureOversampling(os) => SettingsTracker { os_temp: os, dirty: true, ..t },
        SetterCall::PressureOversampling(os) => SettingsTracker { os_pres: os, dirty: true, ..t },
        SetterCall::HumidityOversampling(os) => SettingsTracker { os_hum: os, dirty: true, ..t },
        SetterCall::Filter(filter) => SettingsTracker { filter, dirty: true, ..t },
        SetterCall::GasEnabled(enable) => SettingsTracker { gas_enabled: enable, dirty: true, ..t },
    }
}

/// A whole sequence of setter calls, applied in order.
pub open spec fn apply_setters(t: SettingsTracker, calls: Seq<SetterCall>) -> SettingsTracker
    decreases calls.len(),
{
    if calls.len() == 0 {
        t
    } else {
        apply_setters(apply_setter(t, calls[0]), calls.subrange(1, calls.len() as int))
    }
}

/// Law: after any sequence of setter calls the dirty flag is true, both when
/// the sequence is non-empty (a setter dirties the tracker immediately) and
/// when the tracker was already dirty (no setter ever clears the flag); only
/// a successful application does.
pub proof fn lemma_setters_leave_dirty(t: SettingsTracker, calls: Seq<SetterCall>)
    requires
        t.dirty || calls.len() > 0,
    ensures
        apply_setters(t, calls).dirty,
    decreases calls.len(),
{
    if calls.len() > 0 {
        lemma_setters_leave_dirty(apply_setter(t, calls[0]), calls.subrange(1, calls.len() as int));
    }
}

} // verus!
