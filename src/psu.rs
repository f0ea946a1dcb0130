use vstd::prelude::*;

use crate::linear::LinearValue;
use crate::session::{write_requests, read_requests, RegisterTransaction};

verus! {

/// What the program is asked to do, and which device to look for.
#[derive(Clone, Copy, Debug)]
pub struct Config {
    pub vendor_id: u16,
    pub product_id: u16,
    pub print_endpoints: bool,
    pub print_status: bool,
    pub fan_percent: Option<u8>,
}

impl Config {
    /// The settings for the supported power supply, with the fan left in
    /// automatic mode.
    pub fn default() -> (r: Config)
        ensures
            r.vendor_id == 0x1b1c,
            r.product_id == 0x1c11,
            !r.print_endpoints,
            !r.print_status,
            r.fan_percent is None,
    {
        Config {
            vendor_id: 0x1b1c,
            product_id: 0x1c11,
            print_endpoints: false,
            print_status: false,
            fan_percent: None,
        }
    }

    /// The fan mode to set: manual (1) when a speed is given, else automatic
    /// (0).
    pub fn fan_mode(&self) -> (r: u8)
        ensures
            r == (if self.fan_percent is Some {
                1u8
            } else {
                0u8
            }),
    {
        match self.fan_percent {
            Some(_) => 1,
            None => 0,
        }
    }
}

/// The register that selects the active output rail.
pub const RAIL_SELECT_REGISTER: u8 = 0x00;
/// The register that selects the active page of the 12 V rail.
pub const PAGE_SELECT_REGISTER: u8 = 0xe7;
/// The register that holds the fan mode.
pub const FAN_MODE_REGISTER: u8 = 0xf0;
/// The register that holds the fan speed in percent.
pub const FAN_SPEED_REGISTER: u8 = 0x3b;
/// The register that holds the device's name.
pub const NAME_REGISTER: u8 = 0x9a;
/// The register that counts the seconds of uptime.
pub const UPTIME_REGISTER: u8 = 0xd2;
/// The time the device needs after a selection before it is read back.
pub const SETTLE_MILLIS: u64 = 5;

/// A telemetry snapshot: the decoded values of one status run.
#[derive(Clone, Copy, Debug)]
pub struct PsuStatus {
    pub input_voltage: LinearValue,
    pub input_current: LinearValue,
    pub input_power: LinearValue,
    pub uptime_seconds: Option<u16>,
    pub temp1: LinearValue,
    pub temp2: LinearValue,
    pub fan_speed: LinearValue,
}

/// A selection of a rail or a page: the value is written to its register,
/// the device is given `SETTLE_MILLIS` to settle, and the register is read
/// back.
#[derive(Clone, Copy, Debug, PartialEq, Eq, Structural)]
pub struct PageSelection {
    pub register: u8,
    pub value: u8,
}

impl PageSelection {
    /// The write of the value.
    pub fn write(&self) -> (r: RegisterTransaction)
        ensures
            r.wf(),
            r.requests() == write_requests(self.register, seq![self.value]),
            r.stage() == 0,
    {
        let data: [u8; 1] = [self.value];
        proof {
            assert(data@ =~= seq![self.value]);
        }
        RegisterTransaction::write(self.register, &data)
    }

    /// The read back of the register, one byte.
    pub fn read_back(&self) -> (r: RegisterTransaction)
        ensures
            r.wf(),
            r.requests() == read_requests(1, self.register),
            r.stage() == 0,
    {
        RegisterTransaction::read(1, self.register)
    }
}

/// The protocol session with one power supply: the requests that its
/// commands are made of.
#[derive(Clone, Copy, Debug)]
pub struct Psu {
    pub config: Config,
}

impl Psu {
    /// A session under the given settings.
    pub fn new(config: Config) -> (r: Psu)
        ensures
            r.config == config,
    {
        Psu { config }
    }

    /// The request that sets the dongle up; its reply is a single zero.
    pub fn setup_dongle(&self) -> (r: Vec<u8>)
        ensures
            r@ == seq![0x11u8, 0x02u8, 0x64u8, 0x00u8, 0x00u8, 0x00u8, 0x00u8],
    {
        let r = vec![0x11, 0x02, 0x64, 0x00, 0x00, 0x00, 0x00];
        proof {
            assert(r@ =~= seq![0x11u8, 0x02u8, 0x64u8, 0x00u8, 0x00u8, 0x00u8, 0x00u8]);
        }
        r
    }

    /// The request whose reply is the firmware string.
    pub fn firmware_request(&self) -> (r: Vec<u8>)
        ensures
            r@ == seq![0x02u8],
    {
        let r = vec![0x02];
        proof {
            assert(r@ =~= seq![0x02u8]);
        }
        r
    }

    /// The request whose reply is the version.
    pub fn version_request(&self) -> (r: Vec<u8>)
        ensures
            r@ == seq![0x00u8],
    {
        let r = vec![0x00];
        proof {
            assert(r@ =~= seq![0x00u8]);
        }
        r
    }

    /// Sets the fan mode: 0 automatic, 1 manual.
    pub fn set_fan_mode(&self, mode: u8) -> (r: RegisterTransaction)
        ensures
            r.wf(),
            r.requests() == write_requests(FAN_MODE_REGISTER, seq![mode]),
            r.stage() == 0,
    {
        let data: [u8; 1] = [mode];
        proof {
            assert(data@ =~= seq![mode]);
        }
        RegisterTransaction::write(FAN_MODE_REGISTER, &data)
    }

    /// Sets the fan speed in percent.
    pub fn set_fan_speed_percent(&self, speed: u8) -> (r: RegisterTransaction)
        ensures
            r.wf(),
            r.requests() == write_requests(FAN_SPEED_REGISTER, seq![speed]),
            r.stage() == 0,
    {
        let data: [u8; 1] = [speed];
        proof {
            assert(data@ =~= seq![speed]);
        }
        RegisterTransaction::write(FAN_SPEED_REGISTER, &data)
    }

    /// Selects an output rail.
    pub fn set_rail(&self, rail: u8) -> (r: PageSelection)
        ensures
            r == (PageSelection { register: RAIL_SELECT_REGISTER, value: rail }),
    {
        PageSelection { register: RAIL_SELECT_REGISTER, value: rail }
    }

    /// Selects a page of the 12 V rail.
    pub fn set_12v_page(&self, page: u8) -> (r: PageSelection)
        ensures
            r == (PageSelection { register: PAGE_SELECT_REGISTER, value: page }),
    {
        PageSelection { register: PAGE_SELECT_REGISTER, value: page }
    }

    /// Reads the seven-byte register that holds the device's name.
    pub fn read_device_name(&self) -> (r: RegisterTransaction)
        ensures
            r.wf(),
            r.requests() == read_requests(7, NAME_REGISTER),
            r.stage() == 0,
    {
        RegisterTransaction::read(7, NAME_REGISTER)
    }

    /// Reads the two-byte register that counts the seconds of uptime.
    pub fn read_uptime(&self) -> (r: RegisterTransaction)
        ensures
            r.wf(),
            r.requests() == read_requests(2, UPTIME_REGISTER),
            r.stage() == 0,
    {
        RegisterTransaction::read(2, UPTIME_REGISTER)
    }

    /// Reads a two-byte register that holds a value in the linear format.
    pub fn read_linear(&self, address: u8) -> (r: RegisterTransaction)
        ensures
            r.wf(),
            r.requests() == read_requests(2, address),
            r.stage() == 0,
    {
        RegisterTransaction::read(2, address)
    }
}

} // verus!
