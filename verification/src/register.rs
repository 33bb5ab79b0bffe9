//! The status registers of IEEE 488.2. Each is a byte of which some bits have a name; a
//! register keeps all eight bits as the instrument sent them, named or not.
use crate::error::Error;
use crate::text::{
    all_whitespace, decimal, is_digit, lemma_decimal_digits, lemma_trimmed_padding,
    parse_decimal_u8, parse_u8, trim, trimmed, without_plus,
};
use vstd::prelude::*;

verus! {

/// Whether the bit at `index` of `bits` is set, the lowest bit being at index 0.
pub open spec fn has_bit(bits: u8, index: u8) -> bool {
    (bits >> index) & 1 == 1
}

fn bit(bits: u8, index: u8) -> (r: bool)
    requires
        index < 8,
    ensures
        r == has_bit(bits, index),
{
    (bits >> index) & 1 == 1
}

/// The value of a register that a response holds: the response without the white space
/// around it, read as a byte in decimal.
pub open spec fn register_value(response: Seq<char>) -> Option<u8> {
    parse_u8(trimmed(response))
}

/// A bit is set exactly if the mask of that one bit finds something in the byte.
pub proof fn lemma_bit_mask(bits: u8, index: u8)
    requires
        index < 8,
    ensures
        has_bit(bits, index) == (bits & (1u8 << index) != 0),
{
    assert(((bits >> index) & 1 == 1) == (bits & (1u8 << index) != 0)) by (bit_vector)
        requires
            index < 8,
    ;
}

/// What is written as a register's value is read back as that value: the decimal text of
/// any byte, with any white space around it, reads as that byte, with all its bits.
pub proof fn lemma_decimal_round_trip(value: u8, before: Seq<char>, after: Seq<char>)
    requires
        all_whitespace(before),
        all_whitespace(after),
    ensures
        register_value(before + decimal(value as nat) + after) == Some(value),
{
    let text = decimal(value as nat);
    lemma_decimal_digits(value as nat);
    assert(is_digit(text[0]));
    assert(is_digit(text.last()));
    lemma_trimmed_padding(before, text, after);
    assert(without_plus(text) == text);
}

/// The Standard Event Status Register: what has happened in the instrument since the
/// register was last read.
#[derive(Debug, Clone, Copy, PartialEq, Eq, Structural)]
pub struct StandardEventStatusRegister {
    bits: u8,
}

impl View for StandardEventStatusRegister {
    type V = u8;

    closed spec fn view(&self) -> u8 {
        self.bits
    }
}

impl StandardEventStatusRegister {
    /// All pending operations have completed, after the operation-complete command.
    pub const OPERATION_COMPLETE: u8 = 0x01;

    /// The device asks to become the controller in charge.
    pub const REQUEST_CONTROL: u8 = 0x02;

    /// A query was improperly formed, or the response queue overflowed.
    pub const QUERY_ERROR: u8 = 0x04;

    /// An error condition that depends on the instrument.
    pub const DEVICE_SPECIFIC_ERROR: u8 = 0x08;

    /// A command could not be executed in the instrument's current state.
    pub const EXECUTION_ERROR: u8 = 0x10;

    /// A received command had a syntax or semantic error.
    pub const COMMAND_ERROR: u8 = 0x20;

    /// A local control or front-panel action occurred.
    pub const USER_REQUEST: u8 = 0x40;

    /// The device was powered on.
    pub const POWER_ON: u8 = 0x80;

    /// The register with exactly the given bits, whether they have a name or not.
    pub fn from_bits_retain(bits: u8) -> (r: StandardEventStatusRegister)
        ensures
            r@ == bits,
    {
        StandardEventStatusRegister { bits }
    }

    /// All eight bits of the register.
    pub fn bits(&self) -> (r: u8)
        ensures
            r == self@,
    {
        self.bits
    }

    /// The register as the number that stands for it on the wire.
    pub fn value(&self) -> (r: u8)
        ensures
            r == self@,
    {
        self.bits
    }

    /// Whether every bit of `flags` is set in the register.
    pub fn contains(&self, flags: u8) -> (r: bool)
        ensures
            r == (self@ & flags == flags),
    {
        self.bits & flags == flags
    }

    /// Bit 0. All pending operations have completed, after the operation-complete command.
    pub fn operation_complete(&self) -> (r: bool)
        ensures
            r == has_bit(self@, 0),
    {
        bit(self.bits, 0)
    }

    /// Bit 1. The device asks to become the controller in charge.
    pub fn request_control(&self) -> (r: bool)
        ensures
            r == has_bit(self@, 1),
    {
        bit(self.bits, 1)
    }

    /// Bit 2. A query was improperly formed, or the response queue overflowed.
    pub fn query_error(&self) -> (r: bool)
        ensures
            r == has_bit(self@, 2),
    {
        bit(self.bits, 2)
    }

    /// Bit 3. An error condition that depends on the instrument.
    pub fn device_specific_error(&self) -> (r: bool)
        ensures
            r == has_bit(self@, 3),
    {
        bit(self.bits, 3)
    }

    /// Bit 4. A command could not be executed in the instrument's current state.
    pub fn execution_error(&self) -> (r: bool)
        ensures
            r == has_bit(self@, 4),
    {
        bit(self.bits, 4)
    }

    /// Bit 5. A received command had a syntax or semantic error.
    pub fn command_error(&self) -> (r: bool)
        ensures
            r == has_bit(self@, 5),
    {
        bit(self.bits, 5)
    }

    /// Bit 6. A local control or front-panel action occurred.
    pub fn user_request(&self) -> (r: bool)
        ensures
            r == has_bit(self@, 6),
    {
        bit(self.bits, 6)
    }

    /// Bit 7. The device was powered on.
    pub fn power_on(&self) -> (r: bool)
        ensures
            r == has_bit(self@, 7),
    {
        bit(self.bits, 7)
    }

    /// Reads the register from a response: the text without the white space around it
    /// must be a decimal number of at most 255, whose bits are all kept. Any other
    /// response is handed back in the error.
    pub fn try_from(value: &str) -> (r: Result<StandardEventStatusRegister, Error>)
        ensures
            match r {
                Ok(register) => register_value(value@) == Some(register@),
                Err(Error::StandardEventStatusRegisterParse(text)) => {
                    register_value(value@) is None && text@ == value@
                },
                Err(_) => false,
            },
    {
        match parse_decimal_u8(trim(value)) {
            Some(bits) => Ok(StandardEventStatusRegister { bits }),
            None => Err(Error::StandardEventStatusRegisterParse(value.to_owned())),
        }
    }
}

/// The Standard Event Status Enable Register: which events of the Standard Event Status
/// Register are summed up in the event-status bit of the status byte.
#[derive(Debug, Clone, Copy, PartialEq, Eq, Structural)]
pub struct StandardEventStatusEnableRegister {
    bits: u8,
}

impl View for StandardEventStatusEnableRegister {
    type V = u8;

    closed spec fn view(&self) -> u8 {
        self.bits
    }
}

impl StandardEventStatusEnableRegister {
    /// All pending operations have completed, after the operation-complete command.
    pub const OPERATION_COMPLETE: u8 = 0x01;

    /// The device asks to become the controller in charge.
    pub const REQUEST_CONTROL: u8 = 0x02;

    /// A query was improperly formed, or the response queue overflowed.
    pub const QUERY_ERROR: u8 = 0x04;

    /// An error condition that depends on the instrument.
    pub const DEVICE_SPECIFIC_ERROR: u8 = 0x08;

    /// A command could not be executed in the instrument's current state.
    pub const EXECUTION_ERROR: u8 = 0x10;

    /// A received command had a syntax or semantic error.
    pub const COMMAND_ERROR: u8 = 0x20;

    /// A local control or front-panel action occurred.
    pub const USER_REQUEST: u8 = 0x40;

    /// The device was powered on.
    pub const POWER_ON: u8 = 0x80;

    /// The register with exactly the given bits, whether they have a name or not.
    pub fn from_bits_retain(bits: u8) -> (r: StandardEventStatusEnableRegister)
        ensures
            r@ == bits,
    {
        StandardEventStatusEnableRegister { bits }
    }

    /// All eight bits of the register.
    pub fn bits(&self) -> (r: u8)
        ensures
            r == self@,
    {
        self.bits
    }

    /// The register as the number that stands for it on the wire.
    pub fn value(&self) -> (r: u8)
        ensures
            r == self@,
    {
        self.bits
    }

    /// Whether every bit of `flags` is set in the register.
    pub fn contains(&self, flags: u8) -> (r: bool)
        ensures
            r == (self@ & flags == flags),
    {
        self.bits & flags == flags
    }

    /// Bit 0. All pending operations have completed, after the operation-complete command.
    pub fn operation_complete(&self) -> (r: bool)
        ensures
            r == has_bit(self@, 0),
    {
        bit(self.bits, 0)
    }

    /// Bit 1. The device asks to become the controller in charge.
    pub fn request_control(&self) -> (r: bool)
        ensures
            r == has_bit(self@, 1),
    {
        bit(self.bits, 1)
    }

    /// Bit 2. A query was improperly formed, or the response queue overflowed.
    pub fn query_error(&self) -> (r: bool)
        ensures
            r == has_bit(self@, 2),
    {
        bit(self.bits, 2)
    }

    /// Bit 3. An error condition that depends on the instrument.
    pub fn device_specific_error(&self) -> (r: bool)
        ensures
            r == has_bit(self@, 3),
    {
        bit(self.bits, 3)
    }

    /// Bit 4. A command could not be executed in the instrument's current state.
    pub fn execution_error(&self) -> (r: bool)
        ensures
            r == has_bit(self@, 4),
    {
        bit(self.bits, 4)
    }

    /// Bit 5. A received command had a syntax or semantic error.
    pub fn command_error(&self) -> (r: bool)
        ensures
            r == has_bit(self@, 5),
    {
        bit(self.bits, 5)
    }

    /// Bit 6. A local control or front-panel action occurred.
    pub fn user_request(&self) -> (r: bool)
        ensures
            r == has_bit(self@, 6),
    {
        bit(self.bits, 6)
    }

    /// Bit 7. The device was powered on.
    pub fn power_on(&self) -> (r: bool)
        ensures
            r == has_bit(self@, 7),
    {
        bit(self.bits, 7)
    }

    /// Reads the register from a response: the text without the white space around it
    /// must be a decimal number of at most 255, whose bits are all kept. Any other
    /// response is handed back in the error.
    pub fn try_from(value: &str) -> (r: Result<StandardEventStatusEnableRegister, Error>)
        ensures
            match r {
                Ok(register) => register_value(value@) == Some(register@),
                Err(Error::StandardEventStatusEnableRegisterParse(text)) => {
                    register_value(value@) is None && text@ == value@
                },
                Err(_) => false,
            },
    {
        match parse_decimal_u8(trim(value)) {
            Some(bits) => Ok(StandardEventStatusEnableRegister { bits }),
            None => Err(Error::StandardEventStatusEnableRegisterParse(value.to_owned())),
        }
    }
}

/// The Status Byte Register: the summary of the instrument's state.
#[derive(Debug, Clone, Copy, PartialEq, Eq, Structural)]
pub struct StatusByteRegister {
    bits: u8,
}

impl View for StatusByteRegister {
    type V = u8;

    closed spec fn view(&self) -> u8 {
        self.bits
    }
}

impl StatusByteRegister {
    /// A condition of the questionable-status group is active.
    pub const QUESTIONABLE_STATUS_SUMMARY: u8 = 0x08;

    /// A response message is waiting in the output buffer.
    pub const MESSAGE_AVAILABLE: u8 = 0x10;

    /// At least one enabled event of the Standard Event Status Register is set.
    pub const EVENT_STATUS_BIT: u8 = 0x20;

    /// The instrument requests service. This bit mirrors the hardware signal and cannot
    /// be written.
    pub const REQUEST_SERVICE: u8 = 0x40;

    /// A condition of the operation-status group is active.
    pub const OPERATION_STATUS_SUMMARY: u8 = 0x80;

    /// The register with exactly the given bits, whether they have a name or not.
    pub fn from_bits_retain(bits: u8) -> (r: StatusByteRegister)
        ensures
            r@ == bits,
    {
        StatusByteRegister { bits }
    }

    /// All eight bits of the register.
    pub fn bits(&self) -> (r: u8)
        ensures
            r == self@,
    {
        self.bits
    }

    /// The register as the number that stands for it on the wire.
    pub fn value(&self) -> (r: u8)
        ensures
            r == self@,
    {
        self.bits
    }

    /// Whether every bit of `flags` is set in the register.
    pub fn contains(&self, flags: u8) -> (r: bool)
        ensures
            r == (self@ & flags == flags),
    {
        self.bits & flags == flags
    }

    /// Bit 3. A condition of the questionable-status group is active.
    pub fn questionable_status_summary(&self) -> (r: bool)
        ensures
            r == has_bit(self@, 3),
    {
        bit(self.bits, 3)
    }

    /// Bit 4. A response message is waiting in the output buffer.
    pub fn message_available(&self) -> (r: bool)
        ensures
            r == has_bit(self@, 4),
    {
        bit(self.bits, 4)
    }

    /// Bit 5. At least one enabled event of the Standard Event Status Register is set.
    pub fn event_status_bit(&self) -> (r: bool)
        ensures
            r == has_bit(self@, 5),
    {
        bit(self.bits, 5)
    }

    /// Bit 6. The instrument requests service. This bit mirrors the hardware signal and cannot
    /// be written.
    pub fn request_service(&self) -> (r: bool)
        ensures
            r == has_bit(self@, 6),
    {
        bit(self.bits, 6)
    }

    /// Bit 7. A condition of the operation-status group is active.
    pub fn operation_status_summary(&self) -> (r: bool)
        ensures
            r == has_bit(self@, 7),
    {
        bit(self.bits, 7)
    }

    /// Reads the register from a response: the text without the white space around it
    /// must be a decimal number of at most 255, whose bits are all kept. Any other
    /// response is handed back in the error.
    pub fn try_from(value: &str) -> (r: Result<StatusByteRegister, Error>)
        ensures
            match r {
                Ok(register) => register_value(value@) == Some(register@),
                Err(Error::StatusByteRegisterQueryParse(text)) => {
                    register_value(value@) is None && text@ == value@
                },
                Err(_) => false,
            },
    {
        match parse_decimal_u8(trim(value)) {
            Some(bits) => Ok(StatusByteRegister { bits }),
            None => Err(Error::StatusByteRegisterQueryParse(value.to_owned())),
        }
    }
}

/// The Service Request Enable Register: which bits of the status byte raise a service
/// request. Bit 6 has no name here, since it mirrors a read-only hardware signal.
#[derive(Debug, Clone, Copy, PartialEq, Eq, Structural)]
pub struct ServiceRequestEnable {
    bits: u8,
}

impl View for ServiceRequestEnable {
    type V = u8;

    closed spec fn view(&self) -> u8 {
        self.bits
    }
}

impl ServiceRequestEnable {
    /// Request service on questionable status.
    pub const QUESTIONABLE_STATUS: u8 = 0x08;

    /// Request service when a message is available.
    pub const MESSAGE_AVAILABLE: u8 = 0x10;

    /// Request service on an enabled standard event.
    pub const EVENT_STATUS: u8 = 0x20;

    /// Request service on operation status.
    pub const OPERATION_STATUS: u8 = 0x80;

    /// The register with exactly the given bits, whether they have a name or not.
    pub fn from_bits_retain(bits: u8) -> (r: ServiceRequestEnable)
        ensures
            r@ == bits,
    {
        ServiceRequestEnable { bits }
    }

    /// All eight bits of the register.
    pub fn bits(&self) -> (r: u8)
        ensures
            r == self@,
    {
        self.bits
    }

    /// The register as the number that stands for it on the wire.
    pub fn value(&self) -> (r: u8)
        ensures
            r == self@,
    {
        self.bits
    }

    /// Whether every bit of `flags` is set in the register.
    pub fn contains(&self, flags: u8) -> (r: bool)
        ensures
            r == (self@ & flags == flags),
    {
        self.bits & flags == flags
    }

    /// Bit 3. Request service on questionable status.
    pub fn questionable_status(&self) -> (r: bool)
        ensures
            r == has_bit(self@, 3),
    {
        bit(self.bits, 3)
    }

    /// Bit 4. Request service when a message is available.
    pub fn message_available(&self) -> (r: bool)
        ensures
            r == has_bit(self@, 4),
    {
        bit(self.bits, 4)
    }

    /// Bit 5. Request service on an enabled standard event.
    pub fn event_status(&self) -> (r: bool)
        ensures
            r == has_bit(self@, 5),
    {
        bit(self.bits, 5)
    }

    /// Bit 7. Request service on operation status.
    pub fn operation_status(&self) -> (r: bool)
        ensures
            r == has_bit(self@, 7),
    {
        bit(self.bits, 7)
    }

    /// Reads the register from a response: the text without the white space around it
    /// must be a decimal number of at most 255, whose bits are all kept. Any other
    /// response is handed back in the error.
    pub fn try_from(value: &str) -> (r: Result<ServiceRequestEnable, Error>)
        ensures
            match r {
                Ok(register) => register_value(value@) == Some(register@),
                Err(Error::ServiceRequestEnableQueryParse(text)) => {
                    register_value(value@) is None && text@ == value@
                },
                Err(_) => false,
            },
    {
        match parse_decimal_u8(trim(value)) {
            Some(bits) => Ok(ServiceRequestEnable { bits }),
            None => Err(Error::ServiceRequestEnableQueryParse(value.to_owned())),
        }
    }
}

} // verus!
