//! The choices made when the panel is brought up and drawn: which interface
//! the configuration selects, the panel rotation, the I2C address byte, and
//! where the text rows stand.

use vstd::prelude::*;
use crate::config::Config;
use crate::text::str_eq;

verus! {

broadcast use vstd::string::group_string_axioms;

/// The physical interface of the panel. Only I2C is supported.
#[derive(Debug, Clone, Copy, PartialEq, Eq, Structural)]
pub enum Interface {
    I2c,
}

/// Rotation of the panel's picture, clockwise.
#[derive(Debug, Clone, Copy, PartialEq, Eq, Structural)]
pub enum Rotation {
    Rotate0,
    Rotate90,
    Rotate180,
    Rotate270,
}

/// Why the panel cannot be brought up as configured.
#[derive(Debug)]
pub enum DisplayError {
    /// The configured rotation is none of the four names; it holds that text.
    UnknownRotation(String),
    /// "spi" is named but not supported yet.
    SpiUnsupported,
    /// The configured interface is neither "i2c" nor "spi"; it holds that text.
    UnknownInterface(String),
}

/// The rotation that a configuration name stands for, if any.
pub open spec fn rotation_named(name: Seq<char>) -> Option<Rotation> {
    if name == "Rotate0"@ {
        Some(Rotation::Rotate0)
    } else if name == "Rotate90"@ {
        Some(Rotation::Rotate90)
    } else if name == "Rotate180"@ {
        Some(Rotation::Rotate180)
    } else if name == "Rotate270"@ {
        Some(Rotation::Rotate270)
    } else {
        None
    }
}

/// Exactly the four names "Rotate0", "Rotate90", "Rotate180", "Rotate270" are
/// rotations, each standing for the rotation of that name.
pub proof fn lemma_rotation_names(name: Seq<char>)
    ensures
        rotation_named(name) == Some(Rotation::Rotate0) <==> name == "Rotate0"@,
        rotation_named(name) == Some(Rotation::Rotate90) <==> name == "Rotate90"@,
        rotation_named(name) == Some(Rotation::Rotate180) <==> name == "Rotate180"@,
        rotation_named(name) == Some(Rotation::Rotate270) <==> name == "Rotate270"@,
        rotation_named(name) is None <==> (name != "Rotate0"@ && name != "Rotate90"@ && name
            != "Rotate180"@ && name != "Rotate270"@),
{
    reveal_strlit("Rotate0");
    reveal_strlit("Rotate90");
    reveal_strlit("Rotate180");
    reveal_strlit("Rotate270");
    assert("Rotate0"@.len() != "Rotate90"@.len());
    assert("Rotate0"@.len() != "Rotate180"@.len());
    assert("Rotate0"@.len() != "Rotate270"@.len());
    assert("Rotate90"@.len() != "Rotate180"@.len());
    assert("Rotate90"@.len() != "Rotate270"@.len());
    assert("Rotate180"@[6] != "Rotate270"@[6]);
}

/// Parses the configured rotation name.
pub fn parse_rotation(s: &str) -> (r: Result<Rotation, DisplayError>)
    ensures
        match rotation_named(s@) {
            Some(rot) => r == Ok::<Rotation, DisplayError>(rot),
            None => r matches Err(DisplayError::UnknownRotation(other)) && other@ == s@,
        },
{
    if str_eq(s, "Rotate0") {
        Ok(Rotation::Rotate0)
    } else if str_eq(s, "Rotate90") {
        Ok(Rotation::Rotate90)
    } else if str_eq(s, "Rotate180") {
        Ok(Rotation::Rotate180)
    } else if str_eq(s, "Rotate270") {
        Ok(Rotation::Rotate270)
    } else {
        Err(DisplayError::UnknownRotation(s.to_string()))
    }
}

/// Selects the interface named by the configuration.
pub fn select_interface(name: &str) -> (r: Result<Interface, DisplayError>)
    ensures
        name@ == "i2c"@ ==> r == Ok::<Interface, DisplayError>(Interface::I2c),
        name@ == "spi"@ ==> r matches Err(DisplayError::SpiUnsupported),
        name@ != "i2c"@ && name@ != "spi"@ ==> (r matches Err(DisplayError::UnknownInterface(other))
            && other@ == name@),
{
    proof {
        reveal_strlit("i2c");
        reveal_strlit("spi");
        assert("i2c"@[0] != "spi"@[0]);
    }
    if str_eq(name, "i2c") {
        Ok(Interface::I2c)
    } else if str_eq(name, "spi") {
        Err(DisplayError::SpiUnsupported)
    } else {
        Err(DisplayError::UnknownInterface(name.to_string()))
    }
}

/// The 7-bit bus address handed to the panel interface: the low byte of the
/// configured address.
pub fn i2c_address_byte(address: u16) -> (r: u8)
    ensures
        r == address % 256,
{
    (address % 256) as u8
}

/// The baseline of text row `row` (0 to 3) on the 64-pixel-high panel:
/// rows are 16 pixels apart, the first baseline at 12.
pub fn row_baseline(row: u8) -> (y: i32)
    requires
        row < 4,
    ensures
        y == 12 + 16 * row,
{
    12 + 16 * (row as i32)
}

/// The default configuration brings the panel up as the documentation says:
/// over I2C, on bus 1, at address 0x3C, not rotated.
pub proof fn lemma_default_config_is_usable(c: Config)
    requires
        c.is_default(),
    ensures
        c.display.interface@ == "i2c"@,
        rotation_named(c.display.rotation@) == Some(Rotation::Rotate0),
        c.i2c.bus == 1,
        c.i2c.address % 256 == 0x3C,
{
}

impl DisplayError {
    /// The message reported for this error.
    pub fn message(&self) -> (m: String)
        ensures
            match self {
                DisplayError::UnknownRotation(other) => m@ == "unknown rotation: "@ + other@,
                DisplayError::SpiUnsupported => m@
                    == "interface = \"spi\" は未対応（次フェーズ）。現状は \"i2c\" のみ"@,
                DisplayError::UnknownInterface(other) => m@ == "unknown interface: "@ + other@,
            },
    {
        match self {
            DisplayError::UnknownRotation(other) => String::from_str("unknown rotation: ").concat(
                other.as_str(),
            ),
            DisplayError::SpiUnsupported => String::from_str(
                "interface = \"spi\" は未対応（次フェーズ）。現状は \"i2c\" のみ",
            ),
            DisplayError::UnknownInterface(other) => String::from_str(
                "unknown interface: ",
            ).concat(other.as_str()),
        }
    }
}

} // verus!
