use bme680::errors::SensorError;
use bme680::settings::{FilterSize, Oversampling};

#[test]
fn native_codes_map_totally_and_stably() {
    assert!(matches!(SensorError::from(-1), SensorError::NullPointer));
    assert!(matches!(SensorError::from(-2), SensorError::CommunicationError));
    assert!(matches!(SensorError::from(-3), SensorError::DeviceNotFound));
    assert!(matches!(SensorError::from(-4), SensorError::InvalidLength));
    assert!(matches!(SensorError::from(5), SensorError::Unknown));
    assert!(matches!(SensorError::from(-99), SensorError::Unknown));
}

#[test]
fn zero_status_is_success_not_an_error() {
    assert!(matches!(SensorError::check_status(0), Ok(())));
    assert!(matches!(SensorError::check_status(-1), Err(SensorError::NullPointer)));
    assert!(matches!(SensorError::check_status(-2), Err(SensorError::CommunicationError)));
    assert!(matches!(SensorError::check_status(-3), Err(SensorError::DeviceNotFound)));
    assert!(matches!(SensorError::check_status(-4), Err(SensorError::InvalidLength)));
    assert!(matches!(SensorError::check_status(5), Err(SensorError::Unknown)));
    assert!(matches!(SensorError::check_status(-99), Err(SensorError::Unknown)));
}

#[test]
fn every_error_has_a_message() {
    let variants = [
        SensorError::CommunicationError,
        SensorError::DeviceNotFound,
        SensorError::InvalidLength,
        SensorError::NullPointer,
        SensorError::DeviceUnresponsive,
        SensorError::Unknown,
    ];
    for e in variants {
        assert!(!e.message().is_empty());
    }
    assert_eq!(SensorError::DeviceNotFound.message(), "device not found");
}

#[test]
fn oversampling_encoding_roundtrip() {
    let levels = [
        (Oversampling::Skipped, 0u8),
        (Oversampling::_1X, 1),
        (Oversampling::_2X, 2),
        (Oversampling::_4X, 3),
        (Oversampling::_8X, 4),
        (Oversampling::_16X, 5),
    ];
    for (level, code) in levels {
        assert_eq!(level.encoding(), code);
        assert_eq!(Oversampling::from(code), level);
    }
    // Unrecognized encodings fall back to skipping the channel.
    assert_eq!(Oversampling::from(6), Oversampling::Skipped);
    assert_eq!(Oversampling::from(77), Oversampling::Skipped);
}

#[test]
fn filter_size_encoding_roundtrip() {
    let sizes = [
        (FilterSize::Size0, 0u8),
        (FilterSize::Size1, 1),
        (FilterSize::Size3, 2),
        (FilterSize::Size7, 3),
        (FilterSize::Size15, 4),
        (FilterSize::Size31, 5),
        (FilterSize::Size63, 6),
        (FilterSize::Size127, 7),
    ];
    for (size, code) in sizes {
        assert_eq!(size.encoding(), code);
        assert_eq!(FilterSize::from(code), size);
    }
    // Unrecognized encodings fall back to the largest filter.
    assert_eq!(FilterSize::from(8), FilterSize::Size127);
    assert_eq!(FilterSize::from(200), FilterSize::Size127);
}
