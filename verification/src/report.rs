//! HID reports: a report ID plus a payload of at most 64 bytes.

use vstd::prelude::*;
use crate::text::{hex_text, push_decimal, push_hex_padded, push_str, zero_pad, dec_text};

verus! {

/// Maximum HID report payload size for Corsair devices.
///
/// The actual wire size varies per report ID (from 1 byte for RequestData
/// to 63 bytes for feature reports). This constant defines the size of the
/// internal buffer.
pub const MAX_REPORT_SIZE: usize = 64;

/// `payload` followed by zeros up to the buffer size.
pub open spec fn padded(payload: Seq<u8>) -> Seq<u8> {
    payload + Seq::new((64 - payload.len()) as nat, |_i: int| 0u8)
}

/// How the raw bytes of an input report split into report ID and payload:
/// the first byte is the ID, the rest is the payload, which must fit the
/// buffer. `None` for an empty input or an oversized payload.
pub open spec fn input_parts(data: Seq<u8>) -> Option<(u8, Seq<u8>)> {
    if data.len() == 0 || data.len() > 65 {
        None
    } else {
        Some((data[0], data.drop_first()))
    }
}

/// A HID report with ID and variable-length payload.
///
/// The report ID is stored separately from the payload, matching how
/// `IOHIDDeviceSetReport` (macOS) and `hidapi` handle reports: the ID
/// is passed as a parameter, not embedded in the data buffer.
///
/// When sending via `hidapi::write()`, the buffer is `[report_id, payload...]`;
/// [`wire_bytes`](Report::wire_bytes) gives exactly that.
#[derive(Clone, Copy, Debug)]
pub struct Report {
    /// HID report ID (e.g., 0xC8, 0xFF).
    id: u8,
    /// Payload buffer, zero-padded to `MAX_REPORT_SIZE`.
    buf: [u8; 64],
    /// Meaningful payload length (bytes written, not including padding).
    len: usize,
}

impl Report {
    #[verifier::type_invariant]
    spec fn inv(self) -> bool {
        self.len <= 64
    }

    /// The HID report ID.
    pub closed spec fn report_id(self) -> u8 {
        self.id
    }

    /// The full 64-byte buffer, padding included.
    pub closed spec fn buffer(self) -> Seq<u8> {
        self.buf@
    }

    /// The meaningful payload length.
    pub closed spec fn payload_len(self) -> nat {
        self.len as nat
    }

    /// A report's payload fits its 64-byte buffer.
    pub open spec fn well_formed(self) -> bool {
        self.buffer().len() == 64 && self.payload_len() <= 64
    }

    /// The meaningful payload bytes.
    pub open spec fn payload_bytes(self) -> Seq<u8> {
        self.buffer().take(self.payload_len() as int)
    }

    /// The bytes sent on the wire: report ID, then the meaningful payload.
    pub open spec fn wire(self) -> Seq<u8> {
        seq![self.report_id()] + self.payload_bytes()
    }

    /// The report has ID `id` and meaningful payload `payload`, with zeros
    /// after the payload in its buffer.
    pub open spec fn carries(self, id: u8, payload: Seq<u8>) -> bool {
        &&& self.well_formed()
        &&& self.report_id() == id
        &&& self.payload_len() == payload.len()
        &&& self.buffer() == padded(payload)
    }

    /// Create a new report with the given ID and an empty (zeroed) payload.
    pub fn new(id: u8) -> (r: Self)
        ensures
            r.well_formed(),
            r.report_id() == id,
            r.payload_len() == 0,
            r.buffer() == padded(Seq::empty()),
    {
        let r = Self { id, buf: [0u8; 64], len: 0 };
        assert(r.buffer() =~= padded(Seq::empty()));
        r
    }

    /// Create a report with the given ID and payload bytes.
    ///
    /// Returns `None` if `payload` exceeds [`MAX_REPORT_SIZE`].
    pub fn with_payload(id: u8, payload: &[u8]) -> (r: Option<Self>)
        ensures
            r is None <==> payload@.len() > 64,
            r matches Some(r) ==> {
                &&& r.well_formed()
                &&& r.report_id() == id
                &&& r.payload_len() == payload@.len()
                &&& r.buffer() == padded(payload@)
            },
    {
        if payload.len() > MAX_REPORT_SIZE {
            return None;
        }
        let mut buf = [0u8; 64];
        let n = payload.len();
        let mut i: usize = 0;
        while i < n
            invariant
                n == payload@.len(),
                n <= 64,
                i <= n,
                buf@.len() == 64,
                forall|j: int| 0 <= j < i ==> buf@[j] == payload@[j],
                forall|j: int| i <= j < 64 ==> buf@[j] == 0u8,
            decreases n - i,
        {
            buf[i] = payload[i];
            i = i + 1;
        }
        let r = Self { id, buf, len: n };
        assert(r.buffer() =~= padded(payload@));
        Some(r)
    }

    /// Parse a report from raw HID input data where `data[0]` is the report ID.
    ///
    /// This is the format received from HID input report callbacks (hidapi
    /// `read()` on macOS prefixes the report ID).
    pub fn from_input(data: &[u8]) -> (r: Option<Self>)
        ensures
            r is None <==> input_parts(data@) is None,
            r matches Some(r) ==> {
                let (id, payload) = input_parts(data@).unwrap();
                &&& r.well_formed()
                &&& r.report_id() == id
                &&& r.payload_len() == payload.len()
                &&& r.buffer() == padded(payload)
            },
    {
        if data.len() == 0 {
            return None;
        }
        let id = data[0];
        let n = data.len() - 1;
        if n > MAX_REPORT_SIZE {
            return None;
        }
        let mut buf = [0u8; 64];
        let mut i: usize = 0;
        while i < n
            invariant
                n + 1 == data@.len(),
                n <= 64,
                i <= n,
                buf@.len() == 64,
                forall|j: int| 0 <= j < i ==> buf@[j] == data@[j + 1],
                forall|j: int| i <= j < 64 ==> buf@[j] == 0u8,
            decreases n - i,
        {
            buf[i] = data[i + 1];
            i = i + 1;
        }
        let r = Self { id, buf, len: n };
        assert(r.buffer() =~= padded(data@.drop_first()));
        Some(r)
    }

    /// The HID report ID.
    pub fn id(&self) -> (id: u8)
        ensures
            id == self.report_id(),
            self.well_formed(),
    {
        proof {
            use_type_invariant(self);
        }
        self.id
    }

    /// The payload data buffer (full internal buffer including zero-padding).
    ///
    /// For the meaningful portion only, use the first `len()` bytes.
    pub fn payload(&self) -> (p: &[u8])
        ensures
            p@ == self.buffer(),
            self.well_formed(),
    {
        proof {
            use_type_invariant(self);
        }
        &self.buf
    }

    /// Mutable access to the payload buffer.
    pub fn payload_mut(&mut self) -> (p: &mut [u8])
        ensures
            p@ == old(self).buffer(),
            final(p)@ == final(self).buffer(),
            final(self).report_id() == old(self).report_id(),
            final(self).payload_len() == old(self).payload_len(),
    {
        proof {
            use_type_invariant(&*self);
        }
        &mut self.buf
    }

    /// The meaningful payload length.
    pub fn len(&self) -> (n: usize)
        ensures
            n == self.payload_len(),
            self.well_formed(),
    {
        proof {
            use_type_invariant(self);
        }
        self.len
    }

    /// Whether the payload is empty.
    pub fn is_empty(&self) -> (b: bool)
        ensures
            b == (self.payload_len() == 0),
    {
        self.len == 0
    }

    /// The wire-format bytes for sending via `hidapi::write()`:
    /// `[report_id, payload[0..len]]`.
    pub fn wire_bytes(&self) -> (out: Vec<u8>)
        ensures
            out@ == self.wire(),
    {
        proof {
            use_type_invariant(self);
        }
        let mut out: Vec<u8> = Vec::with_capacity(1 + self.len);
        out.push(self.id);
        let mut i: usize = 0;
        while i < self.len
            invariant
                self.len <= 64,
                self.buf@.len() == 64,
                i <= self.len,
                out@ == seq![self.id] + self.buf@.take(i as int),
            decreases self.len - i,
        {
            out.push(self.buf[i]);
            i = i + 1;
            assert(out@ =~= seq![self.id] + self.buf@.take(i as int));
        }
        out
    }

    /// The full internal buffer (zero-padded to [`MAX_REPORT_SIZE`]).
    pub fn as_bytes(&self) -> (b: &[u8; 64])
        ensures
            b@ == self.buffer(),
    {
        &self.buf
    }
}

/// Two-digit upper-case hex of each byte, separated by spaces.
pub open spec fn spaced_hex(bytes: Seq<u8>) -> Seq<char>
    decreases bytes.len(),
{
    if bytes.len() == 0 {
        Seq::empty()
    } else if bytes.len() == 1 {
        zero_pad(hex_text(bytes[0] as nat), 2)
    } else {
        spaced_hex(bytes.drop_last()) + " "@ + zero_pad(hex_text(bytes.last() as nat), 2)
    }
}

impl Report {
    /// How many buffer bytes the debug text shows: the payload up to 16
    /// bytes, or the first 4 bytes of an empty report.
    pub open spec fn shown_len(self) -> nat {
        if self.payload_len() == 0 { 4 } else if self.payload_len() > 16 { 16 } else { self.payload_len() }
    }

    /// The debug text of a report.
    pub open spec fn debug_view(self) -> Seq<char> {
        "Report { id: 0x"@ + zero_pad(hex_text(self.report_id() as nat), 2) + ", len: "@
            + dec_text(self.payload_len()) + ", ["@
            + spaced_hex(self.buffer().take(self.shown_len() as int))
            + (if self.payload_len() > 16 { " ..."@ } else { Seq::empty() }) + "] }"@
    }

    /// Debug text, e.g. `Report { id: 0xC9, len: 1, [64] }`: the ID, the
    /// payload length, and the first payload bytes in hex.
    pub fn debug_text(&self) -> (s: String)
        ensures
            s@ == self.debug_view(),
    {
        proof {
            use_type_invariant(self);
        }
        let mut s = String::from_str("Report { id: 0x");
        push_hex_padded(&mut s, self.id as u64, 2);
        push_str(&mut s, ", len: ");
        push_decimal(&mut s, self.len as u64);
        push_str(&mut s, ", [");
        let show: usize = if self.len == 0 { 4 } else if self.len > 16 { 16 } else { self.len };
        let ghost start = s@;
        let mut i: usize = 0;
        while i < show
            invariant
                show <= 16,
                i <= show,
                self.buf@.len() == 64,
                s@ == start + spaced_hex(self.buf@.take(i as int)),
            decreases show - i,
        {
            let ghost prev = s@;
            if i > 0 {
                push_str(&mut s, " ");
            }
            push_hex_padded(&mut s, self.buf[i] as u64, 2);
            proof {
                let t = self.buf@.take(i as int + 1);
                assert(t.drop_last() =~= self.buf@.take(i as int));
                assert(t.last() == self.buf@[i as int]);
                if i == 0 {
                    assert(self.buf@.take(0) =~= Seq::<u8>::empty());
                    assert(spaced_hex(self.buf@.take(0)) =~= Seq::<char>::empty());
                }
            }
            i = i + 1;
            assert(s@ =~= start + spaced_hex(self.buf@.take(i as int)));
        }
        if self.len > 16 {
            push_str(&mut s, " ...");
        }
        push_str(&mut s, "] }");
        assert(s@ =~= self.debug_view());
        s
    }
}

/// A report with the given ID and payload, which must fit the buffer.
///
/// The encoders use this for their fixed-size payloads.
pub(crate) fn build(id: u8, payload: &[u8]) -> (r: Report)
    requires
        payload@.len() <= 64,
    ensures
        r.carries(id, payload@),
{
    match Report::with_payload(id, payload) {
        Some(r) => r,
        None => Report::new(id),
    }
}

/// The meaningful payload of a report that carries `payload` is `payload`.
pub proof fn lemma_carries_payload(r: Report, id: u8, payload: Seq<u8>)
    requires
        r.carries(id, payload),
    ensures
        r.payload_bytes() == payload,
        r.wire() == seq![id] + payload,
{
    assert(padded(payload).take(payload.len() as int) =~= payload);
}

/// Reading back what was written: the wire bytes of a report parse as an
/// input report with the same report ID and the same meaningful payload.
pub proof fn lemma_wire_then_input(r: Report)
    requires
        r.well_formed(),
    ensures
        input_parts(r.wire()) == Some((r.report_id(), r.payload_bytes())),
{
    assert(r.wire().drop_first() =~= r.payload_bytes());
}

/// Writing back what was read: an input report's ID and payload, put back on
/// the wire, give exactly the bytes that were read.
pub proof fn lemma_input_then_wire(data: Seq<u8>)
    requires
        input_parts(data) is Some,
    ensures
        ({
            let (id, payload) = input_parts(data).unwrap();
            &&& seq![id] + padded(payload).take(payload.len() as int) == data
            &&& padded(payload).len() == 64
        }),
{
    let (id, payload) = input_parts(data).unwrap();
    assert(padded(payload).take(payload.len() as int) =~= payload);
    assert(seq![id] + payload =~= data);
}

} // verus!
