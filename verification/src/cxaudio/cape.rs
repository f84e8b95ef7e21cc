//! CAPE (CX20805) command protocol.
//!
//! The CAPE chip uses 60-byte command payloads sent via HID report ID 0x01.
//!
//! ## CAPE_FW_FULL_COMMAND layout (60 bytes)
//!
//! ```text
//! Offset  Size  Field
//! 0x00    4     command_header:
//!               bits[15:0]  = num_32b_words (negative in responses)
//!               bits[30:16] = command_id
//!               bit[31]     = direction (0=request, 1=response)
//! 0x04    4     app_module_id (includes magic 0xB32D23)
//! 0x08    52    data payload (up to 13 x u32 words)
//! ```

use vstd::prelude::*;
use crate::bits::{le_bytes_u32, le_u32, u32_from_le, u32_to_le};
use crate::error::DecodeError;
use crate::report::{build, Report};

verus! {

/// Size of a CAPE command payload.
pub const CAPE_PAYLOAD_SIZE: usize = 60;

/// Size of the full HID report for CAPE commands.
pub const CAPE_REPORT_SIZE: usize = 62;

/// CAPE report ID.
pub const CAPE_REPORT_ID: u8 = 0x01;

/// A CAPE firmware command.
#[derive(Debug, Clone, Copy)]
pub struct CapeCommand {
    /// Number of 32-bit data words.
    pub num_words: u16,
    /// Command identifier.
    pub command_id: u16,
    /// Module identifier (includes CAPE magic bytes).
    pub module_id: u32,
    /// Data payload (up to 52 bytes / 13 dwords).
    pub data: [u8; 52],
}

/// The request header: word count in bits 15:0, the command ID's low 15 bits
/// in bits 30:16, and bit 31 (the direction) clear.
pub open spec fn header_value(num_words: u16, command_id: u16) -> u32 {
    (num_words as nat + 65536 * (command_id as nat % 32768)) as u32
}

/// How many data bytes a command with `num_words` words carries (at most 52).
pub open spec fn data_len(num_words: u16) -> nat {
    if 4 * (num_words as nat) < 52 { 4 * (num_words as nat) } else { 52 }
}

/// The 52-byte data area of a request: the first `data_len` data bytes,
/// then zeros.
pub open spec fn data_area(num_words: u16, data: Seq<u8>) -> Seq<u8> {
    Seq::new(52, |i: int| if i < data_len(num_words) { data[i] } else { 0u8 })
}

/// The 60-byte payload of a CAPE request: header and module ID little-endian,
/// then the data area.
pub open spec fn cape_payload(num_words: u16, command_id: u16, module_id: u32, data: Seq<u8>) -> Seq<u8> {
    le_bytes_u32(header_value(num_words, command_id)) + le_bytes_u32(module_id) + data_area(num_words, data)
}

/// Where each part of a request lands in its payload.
proof fn lemma_cape_payload_index(num_words: u16, command_id: u16, module_id: u32, data: Seq<u8>)
    ensures
        ({
            let p = cape_payload(num_words, command_id, module_id, data);
            let h = le_bytes_u32(header_value(num_words, command_id));
            let m = le_bytes_u32(module_id);
            &&& p.len() == 60
            &&& forall|k: int| 0 <= k < 4 ==> #[trigger] p[k] == h[k]
            &&& forall|k: int| 0 <= k < 4 ==> #[trigger] p[4 + k] == m[k]
            &&& forall|k: int| 0 <= k < 52 ==> #[trigger] p[8 + k] == data_area(num_words, data)[k]
        }),
{
    let h = le_bytes_u32(header_value(num_words, command_id));
    let m = le_bytes_u32(module_id);
    let hm = h + m;
    assert(hm.len() == 8);
    assert forall|k: int| 0 <= k < 4 implies #[trigger] hm[k] == h[k] && hm[4 + k] == m[k] by {}
}

/// The header word at the start of a CAPE response payload.
pub open spec fn response_header(p: Seq<u8>) -> nat {
    le_u32(p[0], p[1], p[2], p[3])
}

/// The module ID word of a CAPE payload.
pub open spec fn response_module(p: Seq<u8>) -> nat {
    le_u32(p[4], p[5], p[6], p[7])
}

proof fn lemma_header_bits(a: u16, b: u16, x: u32)
    ensures
        ((a as u32) | (((b & 0x7FFF) as u32) << 16u32)) == (a as u32) + ((b % 32768) as u32) * 65536,
        x & 0xFFFF == x % 65536,
        (x >> 16u32) & 0x7FFF == (x / 65536) % 32768,
        (x & 0x8000_0000 == 0) == (x < 0x8000_0000),
{
    assert(((a as u32) | (((b & 0x7FFF) as u32) << 16u32)) == (a as u32) + ((b % 32768) as u32) * 65536)
        by (bit_vector);
    assert(x & 0xFFFF == x % 65536) by (bit_vector);
    assert((x >> 16u32) & 0x7FFF == (x / 65536) % 32768) by (bit_vector);
    assert((x & 0x8000_0000 == 0) == (x < 0x8000_0000)) by (bit_vector);
}

impl CapeCommand {
    /// Create a new CAPE command with a zeroed data payload.
    pub fn new(command_id: u16, module_id: u32, num_words: u16) -> (c: Self)
        ensures
            c.num_words == num_words,
            c.command_id == command_id,
            c.module_id == module_id,
            c.data@ == Seq::new(52, |_i: int| 0u8),
    {
        let c = Self { num_words, command_id, module_id, data: [0u8; 52] };
        assert(c.data@ =~= Seq::new(52, |_i: int| 0u8));
        c
    }

    /// Build the 4-byte command header for a request. The command ID is
    /// masked to its 15 bits, so the direction bit of a request is always 0.
    pub fn request_header(&self) -> (h: u32)
        ensures
            h == header_value(self.num_words, self.command_id),
            h < 0x8000_0000,
    {
        proof {
            lemma_header_bits(self.num_words, self.command_id, 0);
        }
        (self.num_words as u32) | (((self.command_id & 0x7FFF) as u32) << 16)
    }

    /// Encode this command into a HID report (report ID 0x01, 60-byte payload).
    pub fn encode(&self) -> (r: Report)
        ensures
            r.carries(CAPE_REPORT_ID, cape_payload(self.num_words, self.command_id, self.module_id, self.data@)),
    {
        let mut payload = [0u8; 60];
        let header = u32_to_le(self.request_header());
        let module = u32_to_le(self.module_id);
        payload[0] = header[0];
        payload[1] = header[1];
        payload[2] = header[2];
        payload[3] = header[3];
        payload[4] = module[0];
        payload[5] = module[1];
        payload[6] = module[2];
        payload[7] = module[3];
        let words = (self.num_words as usize) * 4;
        let n: usize = if words < 52 { words } else { 52 };
        let ghost expected = cape_payload(self.num_words, self.command_id, self.module_id, self.data@);
        proof {
            lemma_cape_payload_index(self.num_words, self.command_id, self.module_id, self.data@);
        }
        let mut i: usize = 0;
        while i < n
            invariant
                n == data_len(self.num_words),
                n <= 52,
                i <= n,
                payload@.len() == 60,
                self.data@.len() == 52,
                expected == cape_payload(self.num_words, self.command_id, self.module_id, self.data@),
                forall|j: int| 0 <= j < 8 + i ==> payload@[j] == expected[j],
                forall|j: int| 8 + i <= j < 60 ==> payload@[j] == 0u8,
            decreases n - i,
        {
            proof {
                lemma_cape_payload_index(self.num_words, self.command_id, self.module_id, self.data@);
                assert((i as int) < data_len(self.num_words));
                assert(data_area(self.num_words, self.data@)[i as int] == self.data@[i as int]);
                assert(expected[8 + i as int] == data_area(self.num_words, self.data@)[i as int]);
            }
            payload[8 + i] = self.data[i];
            i = i + 1;
        }
        assert(payload@ =~= expected);
        build(CAPE_REPORT_ID, &payload)
    }

    /// Decode a CAPE response from a HID input report.
    ///
    /// Validates report ID, payload length, and response direction bit (bit 31).
    pub fn decode_response(report: &Report) -> (res: Result<Self, DecodeError>)
        ensures
            report.report_id() != 0x01 ==> res == Err::<CapeCommand, DecodeError>(
                DecodeError::WrongReportId { expected: 0x01, actual: report.report_id() }),
            report.report_id() == 0x01 && report.payload_len() < 60 ==> res == Err::<CapeCommand, DecodeError>(
                DecodeError::TooShort { need: 60, got: report.payload_len() as usize }),
            report.report_id() == 0x01 && report.payload_len() >= 60
                && response_header(report.buffer()) < 0x8000_0000 ==> res == Err::<CapeCommand, DecodeError>(
                DecodeError::InvalidValue { field: "cape_direction", value: 0 }),
            report.report_id() == 0x01 && report.payload_len() >= 60
                && response_header(report.buffer()) >= 0x8000_0000 ==> res is Ok,
            res matches Ok(c) ==> {
                let p = report.buffer();
                &&& c.num_words == response_header(p) % 65536
                &&& c.command_id == (response_header(p) / 65536) % 32768
                &&& c.module_id == response_module(p)
                &&& c.data@ == p.subrange(8, 60)
            },
    {
        let id = report.id();
        if id != CAPE_REPORT_ID {
            return Err(DecodeError::WrongReportId { expected: CAPE_REPORT_ID, actual: id });
        }
        let len = report.len();
        if len < CAPE_PAYLOAD_SIZE {
            return Err(DecodeError::TooShort { need: CAPE_PAYLOAD_SIZE, got: len });
        }
        let p = report.payload();
        let header = u32_from_le(p[0], p[1], p[2], p[3]);
        proof {
            lemma_header_bits(0, 0, header);
        }
        if header & 0x8000_0000 == 0 {
            return Err(DecodeError::InvalidValue { field: "cape_direction", value: 0 });
        }
        let num_words = (header & 0xFFFF) as u16;
        let command_id = ((header >> 16) & 0x7FFF) as u16;
        let module_id = u32_from_le(p[4], p[5], p[6], p[7]);
        let mut data = [0u8; 52];
        let mut i: usize = 0;
        while i < 52
            invariant
                p@.len() == 64,
                i <= 52,
                data@.len() == 52,
                forall|j: int| 0 <= j < i ==> data@[j] == p@[8 + j],
            decreases 52 - i,
        {
            data[i] = p[8 + i];
            i = i + 1;
        }
        assert(data@ =~= p@.subrange(8, 60));
        Ok(Self { num_words, command_id, module_id, data })
    }
}

/// The fields of a request header word.
proof fn lemma_header_value(num_words: u16, command_id: u16)
    ensures
        header_value(num_words, command_id) as nat == num_words as nat + 65536 * (command_id as nat % 32768),
        header_value(num_words, command_id) < 0x8000_0000,
        header_value(num_words, command_id) as nat % 65536 == num_words,
        (header_value(num_words, command_id) as nat / 65536) % 32768 == command_id as nat % 32768,
{
    let n = num_words as nat;
    let c = command_id as nat % 32768;
    assert(c < 32768);
    assert(n + 65536 * c < 0x8000_0000) by (nonlinear_arith)
        requires n < 65536, c < 32768;
    assert((n + 65536 * c) % 65536 == n && (n + 65536 * c) / 65536 == c) by (nonlinear_arith)
        requires n < 65536;
}

/// Reading back a request: the payload of an encoded command holds, field
/// by field, the command. The word count and module ID come back whole,
/// the command ID as its low 15 bits; the direction bit is clear, so a
/// request is never taken for a response; the data come back as the first
/// `data_len` bytes of the data followed by zeros.
pub proof fn lemma_cape_payload_fields(num_words: u16, command_id: u16, module_id: u32, data: Seq<u8>)
    ensures
        ({
            let p = cape_payload(num_words, command_id, module_id, data);
            &&& p.len() == 60
            &&& response_header(p) == num_words as nat + 65536 * (command_id as nat % 32768)
            &&& response_header(p) % 65536 == num_words
            &&& (response_header(p) / 65536) % 32768 == command_id as nat % 32768
            &&& response_header(p) < 0x8000_0000
            &&& response_module(p) == module_id
            &&& p.subrange(8, 60) == data_area(num_words, data)
        }),
{
    let p = cape_payload(num_words, command_id, module_id, data);
    let h = header_value(num_words, command_id);
    lemma_header_value(num_words, command_id);
    lemma_cape_payload_index(num_words, command_id, module_id, data);
    crate::bits::lemma_le_u32_roundtrip(h);
    crate::bits::lemma_le_u32_roundtrip(module_id);
    assert(p[0] == le_bytes_u32(h)[0] && p[1] == le_bytes_u32(h)[1]
        && p[2] == le_bytes_u32(h)[2] && p[3] == le_bytes_u32(h)[3]);
    assert(p[4 + 0int] == le_bytes_u32(module_id)[0] && p[4 + 1int] == le_bytes_u32(module_id)[1]
        && p[4 + 2int] == le_bytes_u32(module_id)[2] && p[4 + 3int] == le_bytes_u32(module_id)[3]);
    assert(response_header(p) == h);
    assert(response_module(p) == module_id);
    assert(p.subrange(8, 60) =~= data_area(num_words, data)) by {
        assert forall|k: int| 0 <= k < 52 implies #[trigger] p.subrange(8, 60)[k] == data_area(num_words, data)[k] by {
            assert(p[8 + k] == data_area(num_words, data)[k]);
        }
    }
}

/// The zeroed 52-byte data area.
pub open spec fn zero_data() -> Seq<u8> {
    Seq::new(52, |_i: int| 0u8)
}

/// Encode a CAPE "get firmware version" command
/// (command 0x0006, module 0x01B32D23, 4 words, zero data).
pub fn encode_get_firmware_version() -> (r: Report)
    ensures
        r.carries(CAPE_REPORT_ID, cape_payload(4, 0x0006, 0x01B32D23, zero_data())),
{
    let cmd = CapeCommand::new(0x0006, 0x01B32D23, 4);
    cmd.encode()
}

/// The data of a "read DRAM" command: memory type and address as
/// little-endian words, then zeros.
pub open spec fn read_dram_data(mem_type: u8, address: u32) -> Seq<u8> {
    le_bytes_u32(mem_type as u32) + le_bytes_u32(address) + Seq::new(44, |_i: int| 0u8)
}

/// Encode a CAPE "read DRAM dword" command
/// (command 0x0006, module 0x01B32D23, 4 words).
pub fn encode_read_dram(mem_type: u8, address: u32) -> (r: Report)
    ensures
        r.carries(CAPE_REPORT_ID, cape_payload(4, 0x0006, 0x01B32D23, read_dram_data(mem_type, address))),
{
    let mut cmd = CapeCommand::new(0x0006, 0x01B32D23, 4);
    let m = u32_to_le(mem_type as u32);
    let a = u32_to_le(address);
    cmd.data[0] = m[0];
    cmd.data[1] = m[1];
    cmd.data[2] = m[2];
    cmd.data[3] = m[3];
    cmd.data[4] = a[0];
    cmd.data[5] = a[1];
    cmd.data[6] = a[2];
    cmd.data[7] = a[3];
    assert(cmd.data@ =~= read_dram_data(mem_type, address));
    cmd.encode()
}

} // verus!
