use bme680::algo::RawFieldData;
use bme680::device::{Bme680Address, BME680};
use bme680::errors::SensorError;
use bme680::settings::{FilterSize, Oversampling, BME680_APPLY_SEL};
use bme680::sim::SimLink;

#[test]
fn read_temperature() {}

#[test]
fn forced_reading_decodes_all_fields() {
    let mut link = SimLink::new();
    link.field_data = RawFieldData {
        status: 0x20,
        gas_index: 0,
        meas_index: 0,
        temperature: 2500,
        pressure: 100000,
        humidity: 45000,
        gas_resistance: 12345,
    };
    let mut dev = BME680::initialize(link).unwrap();
    let data = dev.read_all().unwrap();
    assert_eq!(data.temperature_centi, 2500);
    assert_eq!(data.pressure, 100000);
    assert_eq!(data.humidity_milli, 45000);
    assert_eq!(data.gas_resistance, Some(12345));
    assert_eq!(data.temperature_centi as f32 / 100.0, 25.0);
    assert_eq!(data.humidity_milli as f32 / 1000.0, 45.0);
}

#[test]
fn gas_valid_bit_clear_hides_gas_resistance() {
    let mut link = SimLink::new();
    link.field_data = RawFieldData {
        status: 0xDF,
        gas_index: 3,
        meas_index: 1,
        temperature: 2500,
        pressure: 100000,
        humidity: 45000,
        gas_resistance: 12345,
    };
    let mut dev = BME680::initialize(link).unwrap();
    let data = dev.read_all().unwrap();
    assert_eq!(data.temperature_centi, 2500);
    assert_eq!(data.pressure, 100000);
    assert_eq!(data.humidity_milli, 45000);
    assert_eq!(data.gas_resistance, None);
}

#[test]
fn gas_gating_ignores_other_status_bits() {
    for status in [0x00u8, 0x01, 0x10, 0x80, 0xC3, 0xDF] {
        let mut link = SimLink::new();
        link.field_data.status = status;
        link.field_data.gas_resistance = 777;
        let mut dev = BME680::initialize(link).unwrap();
        let data = dev.read_all().unwrap();
        assert_eq!(data.gas_resistance, None);
    }
    for status in [0x20u8, 0x21, 0x30, 0xA0, 0xE3, 0xFF] {
        let mut link = SimLink::new();
        link.field_data.status = status;
        link.field_data.gas_resistance = 777;
        let mut dev = BME680::initialize(link).unwrap();
        let data = dev.read_all().unwrap();
        assert_eq!(data.gas_resistance, Some(777));
    }
}

#[test]
fn negative_temperature_passes_through() {
    let mut link = SimLink::new();
    link.field_data.temperature = -500;
    let mut dev = BME680::initialize(link).unwrap();
    let data = dev.read_all().unwrap();
    assert_eq!(data.temperature_centi, -500);
    assert_eq!(data.temperature_centi as f32 / 100.0, -5.0);
}

#[test]
fn unconfirmed_forced_mode_times_out() {
    let mut link = SimLink::new();
    link.confirm_forced = false;
    let mut dev = BME680::initialize(link).unwrap();
    let err = dev.read_all().unwrap_err();
    assert!(matches!(err, SensorError::DeviceUnresponsive));
    assert!(dev.settings.dirty);
}

#[test]
fn setters_mark_dirty_until_applied() {
    let link = SimLink::new();
    let mut dev = BME680::initialize(link).unwrap();
    assert!(dev.settings.dirty);
    dev.read_all().unwrap();
    assert!(!dev.settings.dirty);
    dev.set_temperature_oversampling(Oversampling::_8X);
    assert!(dev.settings.dirty);
    dev.set_pressure_oversampling(Oversampling::_4X);
    dev.set_humidity_oversampling(Oversampling::_2X);
    dev.set_filter_size(FilterSize::Size7);
    dev.set_enable_gas_resistence(true);
    assert!(dev.settings.dirty);
    dev.ensure_applied().unwrap();
    assert!(!dev.settings.dirty);
}

#[test]
fn ensure_applied_without_dirty_performs_no_traffic() {
    let link = SimLink::new();
    let mut dev = BME680::initialize(link).unwrap();
    dev.ensure_applied().unwrap();
    assert!(!dev.settings.dirty);
    let calls_before = dev.link.calls;
    let applies_before = dev.link.apply_calls;
    dev.ensure_applied().unwrap();
    dev.ensure_applied().unwrap();
    assert_eq!(dev.link.calls, calls_before);
    assert_eq!(dev.link.apply_calls, applies_before);
}

#[test]
fn failed_application_stays_dirty_and_retries() {
    let mut link = SimLink::new();
    link.apply_status = -2;
    let mut dev = BME680::initialize(link).unwrap();
    let err = dev.ensure_applied().unwrap_err();
    assert!(matches!(err, SensorError::CommunicationError));
    assert!(dev.settings.dirty);
    assert_eq!(dev.measure_period, 20);
    dev.link.apply_status = 0;
    dev.ensure_applied().unwrap();
    assert!(!dev.settings.dirty);
}

#[test]
fn applied_settings_use_fixed_selector_and_encodings() {
    let link = SimLink::new();
    let mut dev = BME680::initialize(link).unwrap();
    dev.set_temperature_oversampling(Oversampling::_8X);
    dev.set_pressure_oversampling(Oversampling::_4X);
    dev.set_humidity_oversampling(Oversampling::_2X);
    dev.set_filter_size(FilterSize::Size3);
    dev.set_enable_gas_resistence(true);
    dev.ensure_applied().unwrap();
    assert_eq!(dev.link.last_selector, BME680_APPLY_SEL);
    assert_eq!(dev.link.last_selector, 223);
    let applied = dev.link.last_applied.unwrap();
    assert_eq!(applied.os_temp, 4);
    assert_eq!(applied.os_pres, 3);
    assert_eq!(applied.os_hum, 2);
    assert_eq!(applied.filter, 2);
    assert_eq!(applied.heater_temp, 320);
    assert_eq!(applied.heater_dur, 150);
    assert_eq!(applied.run_gas, 1);
}

#[test]
fn profile_duration_is_cached_on_success_only() {
    let mut link = SimLink::new();
    link.profile_duration = 99;
    link.apply_status = -2;
    let mut dev = BME680::initialize(link).unwrap();
    assert_eq!(dev.measure_period, 20);
    dev.ensure_applied().unwrap_err();
    assert_eq!(dev.measure_period, 20);
    dev.link.apply_status = 0;
    dev.ensure_applied().unwrap();
    assert_eq!(dev.measure_period, 99);
}

#[test]
fn mode_status_error_is_mapped() {
    let mut link = SimLink::new();
    link.mode_status = -1;
    let mut dev = BME680::initialize(link).unwrap();
    let err = dev.read_all().unwrap_err();
    assert!(matches!(err, SensorError::NullPointer));
}

#[test]
fn field_data_status_error_is_mapped() {
    let mut link = SimLink::new();
    link.field_status = 5;
    let mut dev = BME680::initialize(link).unwrap();
    let err = dev.read_all().unwrap_err();
    assert!(matches!(err, SensorError::Unknown));
}

#[test]
fn initialize_maps_native_failure() {
    let mut link = SimLink::new();
    link.init_status = -3;
    let err = BME680::initialize(link).unwrap_err();
    assert!(matches!(err, SensorError::DeviceNotFound));
}

#[test]
fn settings_getters_mirror_setters() {
    let link = SimLink::new();
    let mut dev = BME680::initialize(link).unwrap();
    assert!(matches!(dev.get_temperature_oversampling(), Oversampling::Skipped));
    assert!(!dev.get_gas_resistence());
    dev.set_temperature_oversampling(Oversampling::_16X);
    dev.set_pressure_oversampling(Oversampling::_1X);
    dev.set_humidity_oversampling(Oversampling::_2X);
    dev.set_filter_size(FilterSize::Size127);
    dev.set_enable_gas_resistence(true);
    assert!(matches!(dev.get_temperature_oversampling(), Oversampling::_16X));
    assert!(matches!(dev.get_pressure_oversampling(), Oversampling::_1X));
    assert!(matches!(dev.get_humidity_oversampling(), Oversampling::_2X));
    assert!(matches!(dev.get_filter_size(), FilterSize::Size127));
    assert!(dev.get_gas_resistence());
    dev.set_enable_gas_resistence(false);
    assert!(!dev.get_gas_resistence());
    assert!(dev.settings.dirty);
}

#[test]
fn addresses_and_default() {
    assert_eq!(Bme680Address::Primary.addr(), 0x76);
    assert_eq!(Bme680Address::Secondary.addr(), 0x77);
    assert!(matches!(Bme680Address::default(), Bme680Address::Primary));
}
