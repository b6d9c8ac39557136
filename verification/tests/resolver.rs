use tapoctl::cli::{parse_100_value, parse_360_value, parse_kelvin_value};
use tapoctl::error::ErrorKind;
use tapoctl::properties::{
    resolve_brightness, resolve_hue, resolve_saturation, resolve_temperature, validate_brightness,
    validate_hue, validate_hue_saturation, validate_saturation, validate_temperature,
};
use tapoctl::rpc::{HueSaturation, IntegerValueChange};

fn relative(value: i32) -> IntegerValueChange {
    IntegerValueChange { absolute: false, value }
}

fn absolute(value: i32) -> IntegerValueChange {
    IntegerValueChange { absolute: true, value }
}

#[test]
fn hue_wraps_forward_through_360() {
    assert_eq!(resolve_hue(350, &relative(20)), 10);
}

#[test]
fn hue_wraps_backward_through_1() {
    assert_eq!(resolve_hue(5, &relative(-20)), 345);
}

#[test]
fn hue_residue_zero_normalizes_to_360() {
    assert_eq!(resolve_hue(350, &relative(10)), 360);
    assert_eq!(resolve_hue(360, &relative(-360)), 360);
}

#[test]
fn hue_absolute_is_used_directly() {
    assert_eq!(resolve_hue(5, &absolute(200)), 200);
}

#[test]
fn brightness_clamps_at_100() {
    assert_eq!(resolve_brightness(90, &relative(30)), 100);
}

#[test]
fn brightness_clamps_at_1() {
    assert_eq!(resolve_brightness(5, &relative(-30)), 1);
}

#[test]
fn brightness_absolute_inside_range() {
    assert_eq!(resolve_brightness(50, &absolute(70)), 70);
}

#[test]
fn saturation_resolves_like_brightness() {
    assert_eq!(resolve_saturation(95, &relative(10)), 100);
    assert_eq!(resolve_saturation(50, &absolute(25)), 25);
}

#[test]
fn temperature_clamps_into_kelvin_domain() {
    assert_eq!(resolve_temperature(6400, &relative(500)), 6500);
    assert_eq!(resolve_temperature(2600, &relative(-500)), 2500);
    assert_eq!(resolve_temperature(0, &relative(100)), 2500);
    assert_eq!(resolve_temperature(3000, &absolute(4000)), 4000);
}

#[test]
fn absolute_hue_out_of_range_is_invalid() {
    let err = validate_hue(&absolute(0)).unwrap_err();
    assert_eq!(err.kind, ErrorKind::InvalidArgument);
    assert!(validate_hue(&absolute(361)).is_err());
    assert!(validate_hue(&absolute(1)).is_ok());
    assert!(validate_hue(&absolute(360)).is_ok());
}

#[test]
fn relative_values_are_never_validated_up_front() {
    assert!(validate_hue(&relative(1000)).is_ok());
    assert!(validate_brightness(&relative(-1000)).is_ok());
    assert!(validate_temperature(&relative(90000)).is_ok());
    assert!(validate_saturation(&relative(500)).is_ok());
}

#[test]
fn absolute_brightness_out_of_range_is_invalid() {
    let err = validate_brightness(&absolute(101)).unwrap_err();
    assert_eq!(err.kind, ErrorKind::InvalidArgument);
    assert!(validate_brightness(&absolute(100)).is_ok());
}

#[test]
fn absolute_temperature_out_of_range_is_invalid() {
    let err = validate_temperature(&absolute(2499)).unwrap_err();
    assert_eq!(err.kind, ErrorKind::InvalidArgument);
    assert!(validate_temperature(&absolute(6500)).is_ok());
}

#[test]
fn absolute_saturation_out_of_range_is_invalid() {
    let err = validate_saturation(&absolute(0)).unwrap_err();
    assert_eq!(err.kind, ErrorKind::InvalidArgument);
}

#[test]
fn hue_without_saturation_is_invalid() {
    let err = validate_hue_saturation(&HueSaturation {
        hue: Some(absolute(100)),
        saturation: None,
    })
    .unwrap_err();
    assert_eq!(err.kind, ErrorKind::InvalidArgument);
}

#[test]
fn saturation_without_hue_is_invalid() {
    assert!(validate_hue_saturation(&HueSaturation {
        hue: None,
        saturation: Some(absolute(50)),
    })
    .is_err());
}

#[test]
fn paired_hue_saturation_is_valid() {
    assert!(validate_hue_saturation(&HueSaturation {
        hue: Some(absolute(100)),
        saturation: Some(absolute(50)),
    })
    .is_ok());
    assert!(validate_hue_saturation(&HueSaturation { hue: None, saturation: None }).is_ok());
}

#[test]
fn parse_360_accepts_absolute_in_range() {
    let change = parse_360_value("20").unwrap();
    assert!(change.absolute);
    assert_eq!(change.value, 20);
}

#[test]
fn parse_360_rejects_absolute_out_of_range() {
    assert!(parse_360_value("400").is_err());
    assert!(parse_360_value("0").is_err());
}

#[test]
fn parse_360_accepts_signed_as_relative() {
    let change = parse_360_value("+400").unwrap();
    assert!(!change.absolute);
    assert_eq!(change.value, 400);
    let change = parse_360_value("-20").unwrap();
    assert!(!change.absolute);
    assert_eq!(change.value, -20);
}

#[test]
fn parse_100_rejects_garbage() {
    assert!(parse_100_value("abc").is_err());
    assert!(parse_100_value("").is_err());
    assert!(parse_100_value("+").is_err());
    assert!(parse_100_value("1a").is_err());
}

#[test]
fn parse_100_relative_and_absolute() {
    let change = parse_100_value("-5").unwrap();
    assert!(!change.absolute);
    assert_eq!(change.value, -5);
    let change = parse_100_value("55").unwrap();
    assert!(change.absolute);
    assert_eq!(change.value, 55);
}

#[test]
fn parse_kelvin_values() {
    let change = parse_kelvin_value("3000").unwrap();
    assert!(change.absolute);
    assert_eq!(change.value, 3000);
    assert!(parse_kelvin_value("2499").is_err());
    let change = parse_kelvin_value("-200").unwrap();
    assert!(!change.absolute);
    assert_eq!(change.value, -200);
}

#[test]
fn parse_rejects_overflowing_integers() {
    assert!(parse_100_value("99999999999").is_err());
    assert!(parse_100_value("-99999999999").is_err());
    assert!(parse_100_value("2147483648").is_err());
}

#[test]
fn parse_accepts_extreme_i32_values_as_relative() {
    let change = parse_100_value("-2147483648").unwrap();
    assert!(!change.absolute);
    assert_eq!(change.value, i32::MIN);
    let change = parse_100_value("+2147483647").unwrap();
    assert_eq!(change.value, i32::MAX);
}
