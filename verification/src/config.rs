//! Configuration of the display writer, with the defaults used for every
//! field that a configuration file leaves out.

use vstd::prelude::*;

verus! {

broadcast use vstd::string::group_string_axioms;

/// The whole configuration.
#[derive(Debug, Clone)]
pub struct Config {
    pub display: DisplayConfig,
    pub i2c: I2cConfig,
    pub timing: TimingConfig,
    pub input: InputConfig,
}

/// The panel and how it is attached.
#[derive(Debug, Clone)]
pub struct DisplayConfig {
    /// Only "i2c" is supported ("spi" is refused).
    pub interface: String,
    pub width: u32,
    pub height: u32,
    /// "Rotate0" / "Rotate90" / "Rotate180" / "Rotate270".
    pub rotation: String,
}

/// The I2C bus and the panel's address on it.
#[derive(Debug, Clone)]
pub struct I2cConfig {
    pub bus: u8,
    pub address: u16,
    /// For reference only: the bus clock is set by the firmware configuration.
    pub baudrate_hz: u32,
}

/// Timing of the polling loop.
#[derive(Debug, Clone)]
pub struct TimingConfig {
    pub poll_interval_ms: u64,
}

/// Where the shared frame file lives.
#[derive(Debug, Clone)]
pub struct InputConfig {
    pub shm_dir: String,
    pub filename: String,
}

impl DisplayConfig {
    /// The default panel: I2C, 128x64, not rotated.
    pub open spec fn is_default(&self) -> bool {
        &&& self.interface@ == "i2c"@
        &&& self.width == 128
        &&& self.height == 64
        &&& self.rotation@ == "Rotate0"@
    }
}

impl I2cConfig {
    /// The default bus: bus 1, address 0x3C (the SSD1306 default), 400 kHz.
    pub open spec fn is_default(&self) -> bool {
        &&& self.bus == 1
        &&& self.address == 0x3C
        &&& self.baudrate_hz == 400_000
    }
}

impl TimingConfig {
    /// The default polling interval: 20 ms.
    pub open spec fn is_default(&self) -> bool {
        self.poll_interval_ms == 20
    }
}

impl InputConfig {
    /// The default frame file: /run/disp-shm/display_latest.bin.
    pub open spec fn is_default(&self) -> bool {
        &&& self.shm_dir@ == "/run/disp-shm"@
        &&& self.filename@ == "display_latest.bin"@
    }
}

impl Config {
    /// Every section holds its defaults.
    pub open spec fn is_default(&self) -> bool {
        &&& self.display.is_default()
        &&& self.i2c.is_default()
        &&& self.timing.is_default()
        &&& self.input.is_default()
    }
}

/// The documented defaults: I2C panel of 128x64 not rotated, bus 1 at
/// address 0x3C and 400 kHz, polled every 20 ms, reading
/// /run/disp-shm/display_latest.bin.
pub proof fn lemma_default_values(c: Config)
    requires
        c.is_default(),
    ensures
        c.display.interface@ == "i2c"@,
        c.display.width == 128,
        c.display.height == 64,
        c.display.rotation@ == "Rotate0"@,
        c.i2c.bus == 1,
        c.i2c.address == 0x3C,
        c.i2c.baudrate_hz == 400_000,
        c.timing.poll_interval_ms == 20,
        c.input.shm_dir@ == "/run/disp-shm"@,
        c.input.filename@ == "display_latest.bin"@,
{
}

impl Default for Config {
    fn default() -> (r: Self)
        ensures
            r.is_default(),
    {
        Config {
            display: DisplayConfig::default(),
            i2c: I2cConfig::default(),
            timing: TimingConfig::default(),
            input: InputConfig::default(),
        }
    }
}

impl Default for DisplayConfig {
    fn default() -> (r: Self)
        ensures
            r.is_default(),
    {
        DisplayConfig {
            interface: "i2c".to_string(),
            width: 128,
            height: 64,
            rotation: "Rotate0".to_string(),
        }
    }
}

impl Default for I2cConfig {
    fn default() -> (r: Self)
        ensures
            r.is_default(),
    {
        I2cConfig { bus: 1, address: 0x3C, baudrate_hz: 400_000 }
    }
}

impl Default for TimingConfig {
    fn default() -> (r: Self)
        ensures
            r.is_default(),
    {
        TimingConfig { poll_interval_ms: 20 }
    }
}

impl Default for InputConfig {
    fn default() -> (r: Self)
        ensures
            r.is_default(),
    {
        InputConfig {
            shm_dir: "/run/disp-shm".to_string(),
            filename: "display_latest.bin".to_string(),
        }
    }
}

} // verus!
