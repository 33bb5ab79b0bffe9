//! The values that sessions are opened and configured with, the decoding of the buffers
//! and identification lines that come back, and the mandatory commands of IEEE 488.2.
pub use crate::commands::{AsScpi, MandatoryCommands};
use crate::error::Error;
pub use crate::register::{
    ServiceRequestEnable, StandardEventStatusEnableRegister, StandardEventStatusRegister,
    StatusByteRegister,
};
use crate::text::{fields, split, trim, trimmed};
use core::time::Duration;
use vstd::prelude::*;
use vstd::slice::slice_subrange;
use vstd::std_specs::convert::{FromSpecImpl, TryFromSpecImpl};
use vstd::utf8::{decode_utf8, valid_utf8};

verus! {

/// The timeout value that makes a call return at once.
pub const VI_TMO_IMMEDIATE: u32 = 0;

/// The largest finite timeout, in milliseconds.
pub const VI_TMO_MAXIMUM: u32 = 0xFFFF_FFFE;

/// The timeout value that lets a call wait for ever.
pub const VI_TMO_INFINITE: u32 = 0xFFFF_FFFF;

/// The access mode that takes no lock.
pub const VI_NO_LOCK: u32 = 0;

/// The access mode that takes the resource for one session alone.
pub const VI_EXCLUSIVE_LOCK: u32 = 1;

/// The access mode that shares the resource with the sessions that hold the same key.
pub const VI_SHARED_LOCK: u32 = 2;

/// The flush masks of the VISA standard, one bit each.
pub const VI_READ_BUF: u16 = 1;

pub const VI_WRITE_BUF: u16 = 2;

pub const VI_READ_BUF_DISCARD: u16 = 4;

pub const VI_WRITE_BUF_DISCARD: u16 = 8;

pub const VI_IO_IN_BUF: u16 = 16;

pub const VI_IO_OUT_BUF: u16 = 32;

pub const VI_IO_IN_BUF_DISCARD: u16 = 64;

pub const VI_IO_OUT_BUF_DISCARD: u16 = 128;

/// How long a blocking call waits before it gives up.
#[derive(Debug, Clone, Copy, PartialEq, Eq)]
pub enum Timeout {
    Immediate,
    Custom(Duration),
    Maximum,
    Infinite,
}

/// The whole milliseconds that a duration holds.
pub uninterp spec fn duration_millis(duration: Duration) -> nat;

/// `Clone::clone` of std's `Duration`, which is a `Copy` type: the clone is the duration
/// itself.
pub assume_specification[ <Duration as Clone>::clone ](duration: &Duration) -> (copy: Duration)
    ensures
        copy == *duration,
;

/// `Duration::as_millis` of std: the whole milliseconds that the duration holds.
#[verifier::external_body]
pub(crate) fn as_millis(duration: Duration) -> (millis: u128)
    ensures
        millis == duration_millis(duration),
{
    duration.as_millis()
}

/// The wire value of a timeout of `millis` milliseconds that `duration` stands for: the
/// milliseconds themselves where they fit the transport's 32 bits, and no value at all
/// where they do not. Nothing is clamped.
pub fn custom_timeout(duration: Duration, millis: u128) -> (r: Result<u32, Error>)
    ensures
        millis <= u32::MAX ==> r == Ok::<u32, Error>(millis as u32),
        millis > u32::MAX ==> r == Err::<u32, Error>(Error::InvalidTimeout(duration)),
{
    if millis <= 0xFFFF_FFFF {
        Ok(millis as u32)
    } else {
        Err(Error::InvalidTimeout(duration))
    }
}

impl Timeout {
    /// The 32-bit value that the transport takes for this timeout, in milliseconds.
    pub open spec fn wire(self) -> Result<u32, Error> {
        match self {
            Timeout::Immediate => Ok(VI_TMO_IMMEDIATE),
            Timeout::Custom(duration) => if duration_millis(duration) <= u32::MAX {
                Ok(duration_millis(duration) as u32)
            } else {
                Err(Error::InvalidTimeout(duration))
            },
            Timeout::Maximum => Ok(VI_TMO_MAXIMUM),
            Timeout::Infinite => Ok(VI_TMO_INFINITE),
        }
    }

    /// The same value widened to an attribute state.
    pub open spec fn attribute_state(self) -> Result<u64, Error> {
        match self.wire() {
            Ok(value) => Ok(value as u64),
            Err(error) => Err(error),
        }
    }
}

impl TryFrom<Timeout> for u32 {
    type Error = Error;

    fn try_from(value: Timeout) -> (r: Result<u32, Error>) {
        match value {
            Timeout::Immediate => Ok(VI_TMO_IMMEDIATE),
            Timeout::Custom(duration) => custom_timeout(duration, as_millis(duration)),
            Timeout::Maximum => Ok(VI_TMO_MAXIMUM),
            Timeout::Infinite => Ok(VI_TMO_INFINITE),
        }
    }
}

impl TryFromSpecImpl<Timeout> for u32 {
    open spec fn obeys_try_from_spec() -> bool {
        true
    }

    open spec fn try_from_spec(v: Timeout) -> Result<u32, Error> {
        v.wire()
    }
}

impl TryFrom<Timeout> for u64 {
    type Error = Error;

    fn try_from(value: Timeout) -> (r: Result<u64, Error>) {
        match u32::try_from(value) {
            Ok(value) => Ok(value as u64),
            Err(error) => Err(error),
        }
    }
}

impl TryFromSpecImpl<Timeout> for u64 {
    open spec fn obeys_try_from_spec() -> bool {
        true
    }

    open spec fn try_from_spec(v: Timeout) -> Result<u64, Error> {
        v.attribute_state()
    }
}

/// The wire value of every timeout: zero for `Immediate`, the two largest 32-bit values
/// for `Maximum` and `Infinite`, and for a custom duration its milliseconds where they
/// fit 32 bits; where they do not, the conversion fails and hands the duration back.
pub proof fn lemma_timeout_wire(timeout: Timeout)
    ensures
        timeout is Immediate ==> timeout.wire() == Ok::<u32, Error>(0),
        timeout is Maximum ==> timeout.wire() == Ok::<u32, Error>(0xFFFF_FFFE),
        timeout is Infinite ==> timeout.wire() == Ok::<u32, Error>(0xFFFF_FFFF),
        timeout matches Timeout::Custom(d) ==> (duration_millis(d) > 0xFFFF_FFFF ==> timeout.wire()
            == Err::<u32, Error>(Error::InvalidTimeout(d))),
        timeout matches Timeout::Custom(d) ==> (duration_millis(d) <= 0xFFFF_FFFF
            ==> timeout.wire() == Ok::<u32, Error>(duration_millis(d) as u32)),
{
}

/// How a session shares its resource with other sessions.
#[derive(Debug, Clone, Copy, PartialEq, Eq, Structural)]
pub enum AccessMode {
    Exclusive,
    Shared,
    NoLock,
}

impl AccessMode {
    /// The value that the transport takes for this access mode.
    pub open spec fn wire(self) -> u32 {
        match self {
            AccessMode::Exclusive => VI_EXCLUSIVE_LOCK,
            AccessMode::Shared => VI_SHARED_LOCK,
            AccessMode::NoLock => VI_NO_LOCK,
        }
    }
}

impl From<AccessMode> for u32 {
    fn from(value: AccessMode) -> (r: u32) {
        match value {
            AccessMode::Exclusive => VI_EXCLUSIVE_LOCK,
            AccessMode::Shared => VI_SHARED_LOCK,
            AccessMode::NoLock => VI_NO_LOCK,
        }
    }
}

impl FromSpecImpl<AccessMode> for u32 {
    open spec fn obeys_from_spec() -> bool {
        true
    }

    open spec fn from_spec(v: AccessMode) -> u32 {
        v.wire()
    }
}

/// Which buffers of a session one flush call empties, and how: a set of flags, one bit
/// each, of which any combination can be handed over in one call.
#[derive(Debug, Clone, Copy, PartialEq, Eq, Structural)]
pub struct FlushMode {
    bits: u16,
}

impl View for FlushMode {
    type V = u16;

    closed spec fn view(&self) -> u16 {
        self.bits
    }
}

impl FlushMode {
    /// Discard the read buffer's contents; where a message was read only in part, read on
    /// from the device to its end first.
    pub const READ_BUFFER: u16 = VI_READ_BUF;

    /// Discard the read buffer's contents without any I/O to the device.
    pub const READ_BUFFER_DISCARD: u16 = VI_READ_BUF_DISCARD;

    /// Write the write buffer's contents out to the device.
    pub const WRITE_BUFFER: u16 = VI_WRITE_BUF;

    /// Discard the write buffer's contents without any I/O to the device.
    pub const WRITE_BUFFER_DISCARD: u16 = VI_WRITE_BUF_DISCARD;

    /// Discard the low-level receive buffer's contents.
    pub const IO_INPUT_BUFFER: u16 = VI_IO_IN_BUF;

    /// Discard the low-level receive buffer's contents without any I/O to the device.
    pub const IO_INPUT_BUFFER_DISCARD: u16 = VI_IO_IN_BUF_DISCARD;

    /// Write the low-level transmit buffer's contents out to the device.
    pub const IO_OUTPUT_BUFFER: u16 = VI_IO_OUT_BUF;

    /// Discard the low-level transmit buffer's contents without any I/O to the device.
    pub const IO_OUTPUT_BUFFER_DISCARD: u16 = VI_IO_OUT_BUF_DISCARD;

    /// The flush mode with exactly the given bits, whether they have a name or not.
    pub fn from_bits_retain(bits: u16) -> (r: FlushMode)
        ensures
            r@ == bits,
    {
        FlushMode { bits }
    }

    /// The bits of this mode, as the transport takes them.
    pub fn bits(&self) -> (r: u16)
        ensures
            r == self@,
    {
        self.bits
    }

    /// Whether every flag of `flags` is set in this mode.
    pub fn contains(&self, flags: u16) -> (r: bool)
        ensures
            r == (self@ & flags == flags),
    {
        self.bits & flags == flags
    }
}

/// Where the first zero byte of `bytes` stands; their length where there is none.
pub open spec fn first_nul(bytes: Seq<u8>) -> int
    decreases bytes.len(),
{
    if bytes.len() == 0 || bytes[0] == 0 {
        0
    } else {
        1 + first_nul(bytes.drop_first())
    }
}

/// The text that std's lossy decoding makes of bytes: their UTF-8 reading, with the
/// replacement character U+FFFD wherever they are no valid UTF-8.
pub uninterp spec fn utf8_lossy(bytes: Seq<u8>) -> Seq<char>;

/// `String::from_utf8_lossy` of std, the result taken as an owned `String`: the lossy
/// decoding of the bytes, which for valid UTF-8 is the text that they encode.
#[verifier::external_body]
fn from_utf8_lossy(bytes: &[u8]) -> (text: String)
    ensures
        text@ == utf8_lossy(bytes@),
        valid_utf8(bytes@) ==> text@ == decode_utf8(bytes@),
{
    String::from_utf8_lossy(bytes).into_owned()
}

/// The zero-terminated string that a buffer of fixed size holds: the text of the bytes
/// before the first zero byte, whatever follows it. A buffer without a zero byte holds
/// no such string.
pub open spec fn buffer_text(buffer: Seq<u8>) -> Option<Seq<char>> {
    if first_nul(buffer) < buffer.len() {
        Some(utf8_lossy(buffer.subrange(0, first_nul(buffer))))
    } else {
        None
    }
}

/// Reads the zero-terminated string that a buffer holds. Bytes before the zero byte that
/// are valid UTF-8 give the text that they encode.
pub fn stringify_buffer(buffer: &[u8]) -> (r: Result<String, Error>)
    ensures
        match r {
            Ok(text) => buffer_text(buffer@) == Some(text@) && (valid_utf8(
                buffer@.subrange(0, first_nul(buffer@)),
            ) ==> text@ == decode_utf8(buffer@.subrange(0, first_nul(buffer@)))),
            Err(error) => buffer_text(buffer@) is None && error == Error::InvalidNullString,
        },
{
    let mut i: usize = 0;
    assert(buffer@.subrange(0, buffer@.len() as int) =~= buffer@);
    while i < buffer.len() && buffer[i] != 0
        invariant
            i <= buffer@.len(),
            first_nul(buffer@) == i + first_nul(buffer@.subrange(i as int, buffer@.len() as int)),
        decreases buffer@.len() - i,
    {
        proof {
            let rest = buffer@.subrange(i as int, buffer@.len() as int);
            assert(rest.drop_first() =~= buffer@.subrange(i as int + 1, buffer@.len() as int));
        }
        i += 1;
    }
    if i == buffer.len() {
        Err(Error::InvalidNullString)
    } else {
        Ok(from_utf8_lossy(slice_subrange(buffer, 0, i)))
    }
}

/// What an instrument says of itself in answer to the identification query.
#[derive(Debug, Clone, PartialEq, Eq)]
pub struct Identification {
    pub manufacturer: String,
    pub model: String,
    pub serial: String,
    pub firmware: String,
}

/// The four fields of an identification as texts.
pub struct IdentificationView {
    pub manufacturer: Seq<char>,
    pub model: Seq<char>,
    pub serial: Seq<char>,
    pub firmware: Seq<char>,
}

impl View for Identification {
    type V = IdentificationView;

    open spec fn view(&self) -> IdentificationView {
        IdentificationView {
            manufacturer: self.manufacturer@,
            model: self.model@,
            serial: self.serial@,
            firmware: self.firmware@,
        }
    }
}

/// The fields of an identification line: the line without the white space around it, cut
/// at its commas.
pub open spec fn identification_fields(line: Seq<char>) -> Seq<Seq<char>> {
    fields(trimmed(line), ',')
}

impl Identification {
    /// Reads an identification line. It must hold exactly four fields, which are taken
    /// as they stand; any other line is handed back in the error.
    pub fn try_from(value: &str) -> (r: Result<Identification, Error>)
        ensures
            match r {
                Ok(id) => identification_fields(value@).len() == 4 && id@ == (IdentificationView {
                    manufacturer: identification_fields(value@)[0],
                    model: identification_fields(value@)[1],
                    serial: identification_fields(value@)[2],
                    firmware: identification_fields(value@)[3],
                }),
                Err(Error::IdentityParse(line)) => identification_fields(value@).len() != 4
                    && line@ == value@,
                Err(_) => false,
            },
    {
        let parts = split(trim(value), ',');
        if parts.len() != 4 {
            return Err(Error::IdentityParse(value.to_owned()));
        }
        Ok(
            Identification {
                manufacturer: parts[0].clone(),
                model: parts[1].clone(),
                serial: parts[2].clone(),
                firmware: parts[3].clone(),
            },
        )
    }
}

} // verus!
