use ad9959_usb::endpoints::{advertises, RequiredEndpoints};
use ad9959_usb::error::{ConfigurationFault, DriverError};

#[test]
fn standard_requirements() {
    let full = RequiredEndpoints::with_readback();
    assert_eq!(full.command, 0x01);
    assert_eq!(full.data, 0x04);
    assert_eq!(full.readback, Some(0x88));
    let writing = RequiredEndpoints::write_only();
    assert_eq!(writing.command, 0x01);
    assert_eq!(writing.data, 0x04);
    assert_eq!(writing.readback, None);
}

#[test]
fn all_three_present_is_accepted() {
    let required = RequiredEndpoints::with_readback();
    assert_eq!(required.validate(&[0x01, 0x04, 0x88]), Ok(()));
    assert_eq!(required.validate(&[0x88, 0x81, 0x04, 0x02, 0x01]), Ok(()));
    assert!(required.is_satisfied_by(&[0x04, 0x01, 0x88]));
}

#[test]
fn any_one_of_three_missing_is_a_configuration_error() {
    let required = RequiredEndpoints::with_readback();
    let missing = Err(DriverError::ConfigurationError(ConfigurationFault::MissingEndpoints));
    assert_eq!(required.validate(&[0x04, 0x88]), missing);
    assert_eq!(required.validate(&[0x01, 0x88]), missing);
    assert_eq!(required.validate(&[0x01, 0x04]), missing);
    assert_eq!(required.validate(&[]), missing);
    assert_eq!(required.validate(&[0x01, 0x04, 0x08]), missing);
    assert!(!required.is_satisfied_by(&[0x01, 0x04]));
}

#[test]
fn two_endpoint_variant_needs_the_data_endpoint() {
    let required = RequiredEndpoints::write_only();
    let missing = Err(DriverError::ConfigurationError(ConfigurationFault::MissingEndpoints));
    assert_eq!(required.validate(&[0x01, 0x04]), Ok(()));
    assert_eq!(required.validate(&[0x01, 0x88]), missing);
    assert_eq!(required.validate(&[0x04, 0x88]), missing);
}

#[test]
fn advertises_looks_for_the_exact_address() {
    assert!(advertises(&[0x01, 0x04, 0x88], 0x88));
    assert!(!advertises(&[0x01, 0x04, 0x88], 0x08));
    assert!(!advertises(&[], 0x01));
}
