use disp_writer::config::Config;
use disp_writer::display::{
    i2c_address_byte, parse_rotation, row_baseline, select_interface, DisplayError, Interface,
    Rotation,
};

#[test]
fn parses_the_four_rotations() {
    assert!(matches!(parse_rotation("Rotate0"), Ok(Rotation::Rotate0)));
    assert!(matches!(parse_rotation("Rotate90"), Ok(Rotation::Rotate90)));
    assert!(matches!(parse_rotation("Rotate180"), Ok(Rotation::Rotate180)));
    assert!(matches!(parse_rotation("Rotate270"), Ok(Rotation::Rotate270)));
}

#[test]
fn unknown_rotation_is_refused_with_its_name() {
    match parse_rotation("rotate0") {
        Err(e @ DisplayError::UnknownRotation(_)) => {
            assert_eq!(e.message(), "unknown rotation: rotate0");
        }
        other => panic!("unexpected: {:?}", other),
    }
    assert!(matches!(parse_rotation(""), Err(DisplayError::UnknownRotation(s)) if s.is_empty()));
    assert!(matches!(parse_rotation("Rotate45"), Err(DisplayError::UnknownRotation(s)) if s == "Rotate45"));
}

#[test]
fn i2c_interface_is_selected() {
    assert!(matches!(select_interface("i2c"), Ok(Interface::I2c)));
}

#[test]
fn spi_interface_is_not_supported_yet() {
    match select_interface("spi") {
        Err(e @ DisplayError::SpiUnsupported) => {
            assert_eq!(
                e.message(),
                "interface = \"spi\" は未対応（次フェーズ）。現状は \"i2c\" のみ"
            );
        }
        other => panic!("unexpected: {:?}", other),
    }
}

#[test]
fn unknown_interface_is_refused_with_its_name() {
    match select_interface("I2C") {
        Err(e @ DisplayError::UnknownInterface(_)) => {
            assert_eq!(e.message(), "unknown interface: I2C");
        }
        other => panic!("unexpected: {:?}", other),
    }
}

#[test]
fn address_byte_is_the_low_byte() {
    assert_eq!(i2c_address_byte(0x3C), 0x3C);
    assert_eq!(i2c_address_byte(0x3D), 0x3D);
    assert_eq!(i2c_address_byte(0x013C), 0x3C);
    assert_eq!(i2c_address_byte(0xFFFF), 0xFF);
}

#[test]
fn text_rows_are_16_pixels_apart() {
    assert_eq!(row_baseline(0), 12);
    assert_eq!(row_baseline(1), 28);
    assert_eq!(row_baseline(2), 44);
    assert_eq!(row_baseline(3), 60);
}

#[test]
fn default_config_brings_up_i2c_rotate0_at_0x3c() {
    let c = Config::default();
    assert!(matches!(select_interface(&c.display.interface), Ok(Interface::I2c)));
    assert!(matches!(parse_rotation(&c.display.rotation), Ok(Rotation::Rotate0)));
    assert_eq!(c.i2c.bus, 1);
    assert_eq!(i2c_address_byte(c.i2c.address), 0x3C);
}
