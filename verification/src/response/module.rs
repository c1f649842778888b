//! The module identity frame: 23 bytes that name the module, its serial
//! number and its firmware.

use vstd::prelude::*;
use crate::checksum::flip_bit;
use crate::error::Error;
use crate::frame::{
    check_envelope, checksum_matches, envelope_fault, has_header, lemma_bit_flip_breaks_checksum,
    lemma_header_bytes,
};
use crate::wire::{be_u64_at, read_u64};

verus! {

/// Length of a module identity frame.
pub const MODULE_LEN: usize = 23;

/// Offset of the name and type of the module.
pub const NAME_AT: usize = 4;

/// Length of the name and type of the module.
pub const NAME_LEN: usize = 6;

/// Offset of the serial number.
pub const SERIAL_NUMBER_AT: usize = 10;

/// Offset of the delimiter character.
pub const DELIMITER_AT: usize = 18;

/// Offset of the major firmware version.
pub const FW_VERSION_MAJOR_AT: usize = 19;

/// Offset of the minor firmware version.
pub const FW_VERSION_MINOR_AT: usize = 20;

/// `String::push` of the standard library appends one character to the
/// string and leaves what was there in place.
pub assume_specification[ String::push ](text: &mut String, ch: char)
    ensures
        final(text)@ == old(text)@.push(ch),
;

/// What the device says of itself.
#[derive(Debug, PartialEq, Eq)]
pub struct Module {
    /// Name and type of the module, one character per byte of the frame.
    pub name_and_type: String,
    /// Serial number of the module.
    pub serial_number: u64,
    /// The character that parts name and type in `name_and_type`.
    pub delimiter: char,
    /// Major version of the firmware.
    pub fw_version_major: u8,
    /// Minor version of the firmware.
    pub fw_version_minor: u8,
}

/// A `Module` with its name as a sequence of characters.
pub struct ModuleView {
    pub name_and_type: Seq<char>,
    pub serial_number: u64,
    pub delimiter: char,
    pub fw_version_major: u8,
    pub fw_version_minor: u8,
}

impl View for Module {
    type V = ModuleView;

    open spec fn view(&self) -> ModuleView {
        ModuleView {
            name_and_type: self.name_and_type@,
            serial_number: self.serial_number,
            delimiter: self.delimiter,
            fw_version_major: self.fw_version_major,
            fw_version_minor: self.fw_version_minor,
        }
    }
}

/// The characters of the name field of `frame`: each byte stands for the
/// character with that code, printable or not.
pub open spec fn name_of(frame: Seq<u8>) -> Seq<char> {
    Seq::new(NAME_LEN as nat, |i: int| frame[NAME_AT + i] as char)
}

/// The fields that `frame` holds, each read at its offset.
pub open spec fn module_of(frame: Seq<u8>) -> ModuleView {
    ModuleView {
        name_and_type: name_of(frame),
        serial_number: be_u64_at(frame, SERIAL_NUMBER_AT as int),
        delimiter: frame[DELIMITER_AT as int] as char,
        fw_version_major: frame[FW_VERSION_MAJOR_AT as int],
        fw_version_minor: frame[FW_VERSION_MINOR_AT as int],
    }
}

/// Whether `frame` is a module identity frame that decodes: checksum and
/// header are right.
pub open spec fn module_accepted(frame: Seq<u8>) -> bool {
    &&& checksum_matches(frame)
    &&& has_header(frame)
}

/// What decoding `frame` as a module identity gives: the checksum is judged
/// first, then the header; only then are fields read.
pub open spec fn module_result(frame: Seq<u8>) -> Result<ModuleView, Error> {
    match envelope_fault(frame) {
        Some(fault) => Err(fault),
        None => Ok(module_of(frame)),
    }
}

/// The outcome of a decoding, with the module taken by its view.
pub open spec fn decoded_view(result: Result<Module, Error>) -> Result<ModuleView, Error> {
    match result {
        Ok(module) => Ok(module@),
        Err(fault) => Err(fault),
    }
}

/// Reads the name field of a module identity frame.
fn read_name(frame: &[u8]) -> (name: String)
    requires
        frame.len() == MODULE_LEN,
    ensures
        name@ == name_of(frame@),
{
    let mut name = String::new();
    let mut i: usize = 0;
    while i < NAME_LEN
        invariant
            i <= NAME_LEN,
            frame.len() == MODULE_LEN,
            name@ == Seq::new(i as nat, |k: int| frame@[NAME_AT + k] as char),
        decreases NAME_LEN - i,
    {
        name.push(frame[NAME_AT + i] as char);
        i += 1;
    }
    name
}

/// Decodes a module identity frame.
pub fn decode_module(buf: &[u8; 23]) -> (result: Result<Module, Error>)
    ensures
        decoded_view(result) == module_result(buf@),
        result is Ok <==> module_accepted(buf@),
{
    let frame: &[u8] = buf.as_slice();
    if let Some(fault) = check_envelope(frame) {
        return Err(fault);
    }
    Ok(
        Module {
            name_and_type: read_name(frame),
            serial_number: read_u64(frame, SERIAL_NUMBER_AT),
            delimiter: frame[DELIMITER_AT] as char,
            fw_version_major: frame[FW_VERSION_MAJOR_AT],
            fw_version_minor: frame[FW_VERSION_MINOR_AT],
        },
    )
}

impl TryFrom<&[u8; 23]> for Module {
    type Error = Error;

    /// Decodes a module identity frame.
    fn try_from(value: &[u8; 23]) -> (result: Result<Module, Error>)
        ensures
            decoded_view(result) == module_result(value@),
            result is Ok <==> module_accepted(value@),
    {
        decode_module(value)
    }
}

/// A string is known to specifications by its view alone, so the
/// conversion is stated on `try_from` itself, over views, and not here.
impl vstd::std_specs::convert::TryFromSpecImpl<&[u8; 23]> for Module {
    open spec fn obeys_try_from_spec() -> bool {
        false
    }

    open spec fn try_from_spec(value: &[u8; 23]) -> Result<Module, Error> {
        choose|result: Result<Module, Error>| decoded_view(result) == module_result(value@)
    }
}

/// The header of a module identity frame is the magic number and the
/// length 19: the 23 bytes of the frame less the four of the header.
pub proof fn lemma_module_header(frame: Seq<u8>)
    requires
        frame.len() == MODULE_LEN,
    ensures
        has_header(frame) <==> frame.take(4) == seq![0x42u8, 0x4D, 0x00, 0x13],
{
    lemma_header_bytes(frame);
}

/// A module identity frame decodes exactly when its checksum matches and
/// its header is the one of a 23-byte frame; each failure has its own
/// error, and the checksum is judged first.
pub proof fn lemma_module_outcomes(frame: Seq<u8>)
    ensures
        module_result(frame) is Ok <==> module_accepted(frame),
        module_accepted(frame) ==> module_result(frame) == Ok::<ModuleView, Error>(
            module_of(frame),
        ),
        module_result(frame) matches Err(Error::Checksum { expected, actual })
            <==> !checksum_matches(frame),
        module_result(frame) == Err::<ModuleView, Error>(Error::InvalidHeader)
            <==> checksum_matches(frame) && !has_header(frame),
        !(module_result(frame) matches Err(Error::Device(code))),
{
}

/// Decoding is a function of the frame: two decodings of one frame fail
/// with the same error or give modules that agree in every field.
pub proof fn lemma_module_repeatable(
    frame: Seq<u8>,
    first: Result<Module, Error>,
    second: Result<Module, Error>,
)
    requires
        decoded_view(first) == module_result(frame),
        decoded_view(second) == module_result(frame),
    ensures
        decoded_view(first) == decoded_view(second),
        first is Ok <==> second is Ok,
        first matches Ok(a) ==> second matches Ok(b) && a@ == b@,
        first matches Err(a) ==> second matches Err(b) && a == b,
{
}

/// A module identity frame with one bit inverted never decodes: from a
/// frame whose checksum matches, every single-bit error gives
/// `Error::Checksum`.
pub proof fn lemma_module_bit_flip_refused(frame: Seq<u8>, i: int, bit: u8)
    requires
        frame.len() == MODULE_LEN,
        checksum_matches(frame),
        0 <= i < frame.len(),
        bit < 8,
    ensures
        module_result(frame.update(i, flip_bit(frame[i], bit))) matches Err(
            Error::Checksum { expected, actual },
        ) && expected != actual,
{
    lemma_bit_flip_breaks_checksum(frame, i, bit);
}

} // verus!
