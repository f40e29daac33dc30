use vstd::prelude::*;

use crate::commands::{
    CXN0102Notify, CommandError, Request, ShutdownOption, ShutdownReboot,
};

verus! {

/// How many bytes are read from the device for one notify.
pub const NOTIFY_READ_SIZE: usize = 32;

/// Where the projector module is attached: its I2C bus and address, and the GPIO line on
/// which it signals that a notify is waiting.
#[derive(Debug, Clone, Copy)]
pub struct CXN0102 {
    pub i2c_address: u16,
    pub i2c_path: &'static str,
    pub gpio_chip_path: &'static str,
    pub gpio_line_offset: u32,
}

impl Default for CXN0102 {
    fn default() -> (r: CXN0102)
        ensures
            r.i2c_address == 0x77,
            r.i2c_path@ == "/dev/i2c-7"@,
            r.gpio_chip_path@ == "/dev/gpiochip0"@,
            r.gpio_line_offset == 144,
    {
        CXN0102 {
            i2c_address: 0x77,
            i2c_path: "/dev/i2c-7",
            gpio_chip_path: "/dev/gpiochip0",
            gpio_line_offset: 144,
        }
    }
}

/// Whether `address` is a 7-bit I2C address, the only kind the bus access supports.
pub fn is_seven_bit_address(address: u16) -> (yes: bool)
    ensures
        yes == (address <= 0x7f),
{
    address <= 0x7f
}

/// Why the bytes read from the device hold no notify.
#[derive(Debug, Clone, Copy, PartialEq, Eq)]
pub enum NotifyReadError {
    /// Fewer than two bytes were read, so there is no size byte.
    MissingOp0,
    /// The size byte names more bytes than were read.
    PayloadTooLarge { payload_size: usize, read_size: usize },
    /// The frame could not be decoded.
    Parse(CommandError),
}

/// The notify in the bytes read from the device: the frame is the command id, the size
/// byte and that many operands; what follows is ignored.
pub open spec fn spec_notify_from_read(data: Seq<u8>) -> Result<CXN0102Notify, NotifyReadError> {
    if data.len() < 2 {
        Err(NotifyReadError::MissingOp0)
    } else if data[1] + 2 > data.len() {
        Err(
            NotifyReadError::PayloadTooLarge {
                payload_size: data[1] as usize,
                read_size: data.len() as usize,
            },
        )
    } else {
        match CXN0102Notify::spec_from_bytes(data.take(data[1] + 2)) {
            Ok(n) => Ok(n),
            Err(e) => Err(NotifyReadError::Parse(e)),
        }
    }
}

impl CXN0102 {
    /// The frame that shuts the module down (`ShutdownReboot` with
    /// `StopsAllFunctions`).
    pub fn shutdown_request(&self) -> (bytes: Vec<u8>)
        ensures
            bytes@ == (ShutdownReboot { option: ShutdownOption::StopsAllFunctions }).spec_to_bytes(),
            bytes@ == seq![0x0Bu8, 0x01, 0x00],
    {
        proof {
            crate::commands::lemma_request_command_ids();
        }
        let request = ShutdownReboot { option: ShutdownOption::StopsAllFunctions };
        request.to_bytes()
    }

    /// Decodes the notify in the bytes read from the device.
    pub fn notify_from_read(data: &[u8]) -> (r: Result<CXN0102Notify, NotifyReadError>)
        ensures
            r == spec_notify_from_read(data@),
    {
        if data.len() < 2 {
            return Err(NotifyReadError::MissingOp0);
        }
        let payload_size = data[1] as usize;
        let notify_size = payload_size + 2;
        if notify_size > data.len() {
            return Err(
                NotifyReadError::PayloadTooLarge { payload_size, read_size: data.len() },
            );
        }
        let frame = crate::text::bytes_prefix(data, notify_size);
        match CXN0102Notify::from_bytes(frame.as_slice()) {
            Ok(n) => Ok(n),
            Err(e) => Err(NotifyReadError::Parse(e)),
        }
    }
}

} // verus!
