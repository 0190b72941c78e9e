//! The frame codec: decodes a hex-encoded Modbus RTU frame into a structured
//! record and verifies its checksum.
//!
//! Wire layout: `[device_id: 1 byte][function_code: 1 byte][data: n bytes]
//! [checksum: 2 bytes, little-endian]`.  A frame must decode to at least 4
//! bytes.  A checksum mismatch is not a decode failure — the frame is returned
//! with `crc_valid == false`, so a caller can tell a corrupted frame from an
//! unparseable one.
use crate::checksum::{calculate_crc16, crc16};
use vstd::prelude::*;
use vstd::slice::{slice_subrange, slice_to_vec};
use vstd::string::StringSliceAdditionalSpecFns;

verus! {

/// A decode failure: structurally malformed input.  A mere checksum mismatch
/// is reported inside a successfully decoded [`ModbusFrame`] instead.
#[derive(Debug, Clone, Copy, PartialEq, Eq, Structural)]
pub enum DecodeError {
    /// The input is not a sequence of hex-digit pairs; `offset` is the byte
    /// position of the first pair that is invalid or incomplete.
    MalformedHex { offset: usize },
    /// The input decoded to fewer than the 4 bytes a frame needs.
    FrameTooShort,
}

/// A decoded Modbus RTU frame.
#[derive(Debug, Clone, PartialEq, Eq)]
pub struct ModbusFrame {
    /// Device address.
    pub device_id: u8,
    /// Function code (1 = read coils, 3 = read holding registers, ...).
    pub function_code: u8,
    /// Payload bytes (everything between the function code and the checksum).
    pub data: Vec<u8>,
    /// Whether the declared checksum matches the one computed over the frame.
    pub crc_valid: bool,
}

/// The Modbus function codes the service recognises; [`Self::code`] gives
/// each variant's value on the wire.
#[derive(Debug, Clone, Copy, PartialEq, Eq, Structural)]
pub enum ModbusFunction {
    ReadCoils,
    ReadDiscreteInputs,
    ReadHoldingRegisters,
    ReadInputRegisters,
    WriteSingleCoil,
    WriteSingleRegister,
    WriteMultipleCoils,
    WriteMultipleRegisters,
}

/// The wire value of each Modbus function code.
pub open spec fn function_code_value(f: ModbusFunction) -> u8 {
    match f {
        ModbusFunction::ReadCoils => 0x01,
        ModbusFunction::ReadDiscreteInputs => 0x02,
        ModbusFunction::ReadHoldingRegisters => 0x03,
        ModbusFunction::ReadInputRegisters => 0x04,
        ModbusFunction::WriteSingleCoil => 0x05,
        ModbusFunction::WriteSingleRegister => 0x06,
        ModbusFunction::WriteMultipleCoils => 0x0F,
        ModbusFunction::WriteMultipleRegisters => 0x10,
    }
}

impl ModbusFunction {
    /// This function code as it appears on the wire.
    pub fn code(&self) -> (c: u8)
        ensures
            c == function_code_value(*self),
    {
        match self {
            ModbusFunction::ReadCoils => 0x01,
            ModbusFunction::ReadDiscreteInputs => 0x02,
            ModbusFunction::ReadHoldingRegisters => 0x03,
            ModbusFunction::ReadInputRegisters => 0x04,
            ModbusFunction::WriteSingleCoil => 0x05,
            ModbusFunction::WriteSingleRegister => 0x06,
            ModbusFunction::WriteMultipleCoils => 0x0F,
            ModbusFunction::WriteMultipleRegisters => 0x10,
        }
    }
}

/// Whether `b` is the ASCII code of a base-16 digit.
pub open spec fn is_hex_digit(b: u8) -> bool {
    (48 <= b && b <= 57) || (97 <= b && b <= 102) || (65 <= b && b <= 70)
}

/// The value of the base-16 digit with ASCII code `b` (0 when `b` is not a
/// hex digit).
pub open spec fn hex_digit_val(b: u8) -> u8 {
    if 48 <= b && b <= 57 {
        (b - 48) as u8
    } else if 97 <= b && b <= 102 {
        (b - 87) as u8
    } else if 65 <= b && b <= 70 {
        (b - 55) as u8
    } else {
        0
    }
}

/// Whether the byte sequence `s` is well-formed hex: even length, every byte
/// a hex digit.
pub open spec fn valid_hex(s: Seq<u8>) -> bool {
    s.len() % 2 == 0 && (forall|j: int| 0 <= j < s.len() ==> is_hex_digit(#[trigger] s[j]))
}

/// The byte encoded by the digit pair starting at position `2 * k` of `s`.
pub open spec fn hex_pair(s: Seq<u8>, k: int) -> u8
    recommends
        0 <= k,
        2 * k + 1 < s.len(),
{
    (hex_digit_val(s[2 * k]) * 16 + hex_digit_val(s[2 * k + 1])) as u8
}

/// The bytes encoded by the hex text `s` (meaningful when `valid_hex(s)`).
pub open spec fn hex_bytes(s: Seq<u8>) -> Seq<u8> {
    Seq::new(s.len() / 2, |k: int| hex_pair(s, k))
}

/// Where decoding the hex text `s` fails: the position of the unpaired final
/// byte when the length is odd, otherwise the start of the first pair that is
/// not two hex digits.
pub open spec fn malformed_offset(s: Seq<u8>, offset: int) -> bool {
    if s.len() % 2 != 0 {
        offset == s.len() - 1
    } else {
        &&& 0 <= offset
        &&& offset % 2 == 0
        &&& offset + 1 < s.len()
        &&& !(is_hex_digit(s[offset]) && is_hex_digit(s[offset + 1]))
        &&& forall|j: int| 0 <= j < offset ==> is_hex_digit(#[trigger] s[j])
    }
}

/// The value of one hex digit, or `None` when `b` is not a hex digit.
fn hex_digit_value(b: u8) -> (r: Option<u8>)
    ensures
        r is Some <==> is_hex_digit(b),
        r matches Some(v) ==> v == hex_digit_val(b) && v < 16,
{
    if 48 <= b && b <= 57 {
        Some(b - 48)
    } else if 97 <= b && b <= 102 {
        Some(b - 87)
    } else if 65 <= b && b <= 70 {
        Some(b - 55)
    } else {
        None
    }
}

/// Decodes hex text into bytes.  Succeeds exactly on well-formed hex (even
/// length, every byte a hex digit, taken over the UTF-8 bytes of `hex`);
/// otherwise reports the offset of the first offending pair.
pub fn hex_decode(hex: &str) -> (r: Result<Vec<u8>, DecodeError>)
    ensures
        r is Ok <==> valid_hex(hex.spec_bytes()),
        r matches Ok(v) ==> v@ == hex_bytes(hex.spec_bytes()),
        r matches Err(e) ==> e matches DecodeError::MalformedHex { offset }
            && malformed_offset(hex.spec_bytes(), offset as int),
{
    let bytes: &[u8] = hex.as_bytes();
    let n = bytes.len();
    if n % 2 != 0 {
        return Err(DecodeError::MalformedHex { offset: n - 1 });
    }
    let mut out: Vec<u8> = Vec::new();
    let mut i: usize = 0;
    while i < n
        invariant
            i % 2 == 0,
            i <= n,
            out@.len() == i / 2,
            forall|j: int| 0 <= j < i ==> is_hex_digit(#[trigger] bytes@[j]),
            forall|k: int| 0 <= k < i / 2 ==> out@[k] == hex_pair(bytes@, k),
        decreases n - i,
    {
        let hi = bytes[i];
        let lo = bytes[i + 1];
        match (hex_digit_value(hi), hex_digit_value(lo)) {
            (Some(h), Some(l)) => {
                out.push(h * 16 + l);
            },
            _ => {
                return Err(DecodeError::MalformedHex { offset: i });
            },
        }
        i = i + 2;
    }
    proof {
        assert(out@ =~= hex_bytes(bytes@));
    }
    Ok(out)
}

/// The checksum declared in the last two bytes of a frame, read
/// little-endian.
pub open spec fn declared_crc(b: Seq<u8>) -> u16
    recommends
        b.len() >= 2,
{
    (b[b.len() - 2] + 256 * b[b.len() - 1]) as u16
}

/// What it means for the byte sequence `b` to decode to the frame `f`:
/// `b` is long enough, the fields come from their wire positions, and
/// `crc_valid` records whether the declared checksum matches the one computed
/// over everything before it.
pub open spec fn frame_decodes_to(b: Seq<u8>, f: ModbusFrame) -> bool {
    &&& b.len() >= 4
    &&& f.device_id == b[0]
    &&& f.function_code == b[1]
    &&& f.data@ == b.subrange(2, b.len() - 2)
    &&& f.crc_valid == (declared_crc(b) == crc16(b.subrange(0, b.len() - 2)))
}

/// Builds a frame from decoded bytes.  Succeeds exactly on inputs of at
/// least 4 bytes; a checksum mismatch is reported in the frame, not as an
/// error.
pub fn frame_from_bytes(bytes: &[u8]) -> (r: Result<ModbusFrame, DecodeError>)
    ensures
        r is Ok <==> bytes@.len() >= 4,
        r matches Ok(f) ==> frame_decodes_to(bytes@, f),
        r matches Err(e) ==> e == DecodeError::FrameTooShort,
{
    let n = bytes.len();
    if n < 4 {
        return Err(DecodeError::FrameTooShort);
    }
    let device_id = bytes[0];
    let function_code = bytes[1];
    let data = slice_to_vec(slice_subrange(bytes, 2, n - 2));
    let declared: u16 = bytes[n - 2] as u16 + 256 * (bytes[n - 1] as u16);
    let computed = calculate_crc16(slice_subrange(bytes, 0, n - 2));
    Ok(ModbusFrame { device_id, function_code, data, crc_valid: declared == computed })
}

/// Decodes a hex-encoded Modbus RTU frame.  Succeeds exactly when the text is
/// well-formed hex encoding at least 4 bytes; only structurally malformed
/// input is an error, a checksum mismatch comes back as `crc_valid == false`.
pub fn parse_modbus_frame(hex: &str) -> (r: Result<ModbusFrame, DecodeError>)
    ensures
        r is Ok <==> valid_hex(hex.spec_bytes()) && hex_bytes(hex.spec_bytes()).len() >= 4,
        r matches Ok(f) ==> frame_decodes_to(hex_bytes(hex.spec_bytes()), f),
        r matches Err(e) ==> e matches DecodeError::MalformedHex { offset }
            ==> malformed_offset(hex.spec_bytes(), offset as int),
        r == Err::<ModbusFrame, DecodeError>(DecodeError::FrameTooShort)
            <==> valid_hex(hex.spec_bytes()) && hex_bytes(hex.spec_bytes()).len() < 4,
{
    let bytes = match hex_decode(hex) {
        Ok(v) => v,
        Err(e) => {
            return Err(e);
        },
    };
    frame_from_bytes(bytes.as_slice())
}

/// The two leading fields and the payload of a frame: everything the
/// checksum is computed over.
pub open spec fn frame_payload(f: ModbusFrame) -> Seq<u8> {
    seq![f.device_id, f.function_code] + f.data@
}

/// A checksum split into its little-endian wire bytes.
pub open spec fn crc_le_bytes(c: u16) -> Seq<u8> {
    seq![(c & 0xFF) as u8, (c >> 8) as u8]
}

/// The wire bytes of a frame: its payload followed by the checksum computed
/// over that payload.
pub open spec fn frame_bytes(f: ModbusFrame) -> Seq<u8> {
    frame_payload(f) + crc_le_bytes(crc16(frame_payload(f)))
}

/// Encodes a frame back to wire bytes: device id, function code, payload,
/// then the checksum computed over them, little-endian.
pub fn encode_frame(frame: &ModbusFrame) -> (out: Vec<u8>)
    requires
        frame.data@.len() + 4 <= usize::MAX,
    ensures
        out@ == frame_bytes(*frame),
{
    let mut out: Vec<u8> = Vec::new();
    out.push(frame.device_id);
    out.push(frame.function_code);
    let mut i: usize = 0;
    while i < frame.data.len()
        invariant
            i <= frame.data@.len(),
            out@ =~= seq![frame.device_id, frame.function_code] + frame.data@.subrange(0, i as int),
        decreases frame.data@.len() - i,
    {
        out.push(frame.data[i]);
        i = i + 1;
        proof {
            assert(out@ =~= seq![frame.device_id, frame.function_code]
                + frame.data@.subrange(0, i as int));
        }
    }
    proof {
        assert(out@ =~= frame_payload(*frame));
    }
    let crc = calculate_crc16(out.as_slice());
    proof {
        assert(crc & 0xFF < 256) by (bit_vector);
        assert(crc >> 8 < 256) by (bit_vector);
    }
    out.push((crc & 0xFF) as u8);
    out.push((crc >> 8) as u8);
    proof {
        assert(out@ =~= frame_bytes(*frame));
    }
    out
}

/// Splitting a checksum into little-endian bytes and reading them back gives
/// the checksum.
proof fn lemma_crc_le_bytes_roundtrip(c: u16)
    ensures
        (c & 0xFF) + 256 * (c >> 8) == c,
        c & 0xFF < 256,
        c >> 8 < 256,
{
    assert((c & 0xFF) + 256 * (c >> 8) == c) by (bit_vector);
    assert(c & 0xFF < 256) by (bit_vector);
    assert(c >> 8 < 256) by (bit_vector);
}

/// Law: decoding the encoding of any frame succeeds and yields the same
/// device id, function code and payload, with a checksum that verifies.
pub proof fn lemma_encode_then_decode(f: ModbusFrame)
    ensures
        frame_bytes(f).len() == f.data@.len() + 4,
        frame_decodes_to(
            frame_bytes(f),
            ModbusFrame {
                device_id: f.device_id,
                function_code: f.function_code,
                data: f.data,
                crc_valid: true,
            },
        ),
{
    let b = frame_bytes(f);
    let c = crc16(frame_payload(f));
    assert(b.subrange(2, b.len() - 2) =~= f.data@);
    assert(b.subrange(0, b.len() - 2) =~= frame_payload(f));
    lemma_crc_le_bytes_roundtrip(c);
    assert(b[b.len() - 2] == (c & 0xFF) as u8);
    assert(b[b.len() - 1] == (c >> 8) as u8);
}

/// Law (round trip): a decoded frame whose checksum verified re-encodes to
/// exactly the bytes it was decoded from, so decoding those bytes again
/// yields an identical frame.
pub proof fn lemma_frame_round_trip(b: Seq<u8>, f: ModbusFrame)
    requires
        frame_decodes_to(b, f),
        f.crc_valid,
    ensures
        frame_bytes(f) == b,
        frame_decodes_to(frame_bytes(f), f),
{
    assert(frame_payload(f) =~= b.subrange(0, b.len() - 2));
    let c = crc16(frame_payload(f));
    assert(c == declared_crc(b));
    lemma_crc_le_bytes_roundtrip(c);
    let lo = b[b.len() - 2];
    let hi = b[b.len() - 1];
    assert(lo + 256 * hi < 0x10000);
    assert(c == lo + 256 * hi);
    assert((c & 0xFF) as u8 == lo && (c >> 8) as u8 == hi) by {
        assert((c & 0xFF) + 256 * (c >> 8) == lo + 256 * hi);
        assert(c & 0xFF < 256 && c >> 8 < 256 && lo < 256);
        assert((c & 0xFF) == lo as u16 && (c >> 8) == hi as u16) by (nonlinear_arith)
            requires
                (c & 0xFF) + 256 * (c >> 8) == lo + 256 * hi,
                c & 0xFF < 256,
                c >> 8 < 256,
                lo < 256,
                hi < 256,
        ;
    }
    assert(frame_bytes(f) =~= b);
}

} // verus!
