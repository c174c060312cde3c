//! The configuration of a run.
use vstd::prelude::*;

verus! {

/// All that a configuration sets.
#[derive(Debug)]
pub struct Configs {
    pub general: GeneralConfig,
    pub probe: ProbeConfig,
    pub flashing: FlashingConfig,
    pub gdb: GdbConfig,
    pub rtt: RttConfig,
}

/// The target.
#[derive(Debug)]
pub struct GeneralConfig {
    /// The name of the chip, where it is not to be found out.
    pub chip: Option<String>,
    /// Files that describe further chips.
    pub chip_descriptions: Vec<String>,
}

/// The debug probe.
#[derive(Debug)]
pub struct ProbeConfig {
    /// The vendor id of the probe, in hexadecimal.
    pub usb_vid: Option<String>,
    /// The product id of the probe, in hexadecimal.
    pub usb_pid: Option<String>,
    /// The serial number of the probe.
    pub serial: Option<String>,
    /// The protocol to speak with the target.
    pub protocol: WireProtocol,
    /// The speed of that protocol, in kHz.
    pub speed: Option<u32>,
}

/// A protocol between a probe and a target.
#[derive(Debug, Clone, Copy, PartialEq, Eq, Structural)]
pub enum WireProtocol {
    Swd,
    Jtag,
}

/// Writing to the target's flash.
#[derive(Debug)]
pub struct FlashingConfig {
    /// Whether to flash at all.
    pub enabled: bool,
    /// Whether bytes of an erased sector that the file does not set are written back.
    pub restore_unwritten_bytes: bool,
    /// Where a picture of the flash layout goes.
    pub flash_layout_output_path: Option<String>,
    /// Whether the target stays halted after it was reset.
    pub halt_afterwards: bool,
}

/// The GDB server.
#[derive(Debug)]
pub struct GdbConfig {
    /// Whether to serve GDB.
    pub enabled: bool,
    /// Where to listen for GDB.
    pub gdb_connection_string: Option<String>,
}

/// The terminal on the target's RTT channels.
#[derive(Debug)]
pub struct RttConfig {
    /// Whether to open the terminal.
    pub enabled: bool,
    /// For how many milliseconds to try to reach the target's channels.
    pub timeout: usize,
}

} // verus!
