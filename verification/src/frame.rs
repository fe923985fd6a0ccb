//! The frame buffer and the capability accessors every command composes.
//!
//! A frame is a fixed-size byte buffer with this layout (`n` its length):
//!
//! | offset     | field                                              |
//! |------------|----------------------------------------------------|
//! | `0`        | start marker, always `0x02`                        |
//! | `1`        | length byte, equals `n`                            |
//! | `2`        | control byte: class bits `4..=6`, address bits `0..=3` |
//! | `3..n-4`   | data region (command-specific payload)             |
//! | `n-3`      | command subtype byte (auxiliary-command family)    |
//! | `n-2`      | end marker, always `0x03`                          |
//! | `n-1`      | checksum: XOR of the bytes at `1 ..= n-3`          |
//!
//! [`Frame`] keeps the offsets and the checksum discipline in one place: every
//! mutator rewrites its field and then the checksum byte, so a frame handed
//! out by [`Frame::as_bytes`] is well formed at all times.

use vstd::prelude::*;

use crate::catalog::AuxCommand;
use crate::catalog::MessageType;
use crate::catalog::spec_aux_command_byte;
use crate::catalog::spec_aux_command_from_byte;
use crate::catalog::spec_message_type_code;
use crate::catalog::spec_message_type_from_code;
use crate::checksum::checksum_spec;
use crate::checksum::compute_checksum;
use crate::checksum::lemma_checksum_ignores_last;
use crate::checksum::with_checksum;

verus! {

/// The start marker of every frame.
pub const STX: u8 = 0x02;

/// The end marker of every frame.
pub const ETX: u8 = 0x03;

/// The smallest layout a frame can have: start, length, control, subtype,
/// end and checksum byte, with an empty data region.
pub const MIN_FRAME_LEN: usize = 6;

/// The largest frame: its length must fit in the one-byte length field.
pub const MAX_FRAME_LEN: usize = 255;

/// A failure of [`Frame::from_buf`]; the only failure modes of decoding.
#[derive(Clone, Copy, Debug, PartialEq, Eq, Structural)]
pub enum Error {
    /// The input's byte count, or its length byte, does not equal the
    /// command's fixed size.
    LengthMismatch,
    /// The first byte is not the start marker `0x02`.
    InvalidStart,
    /// The end-marker byte is not `0x03`.
    InvalidEnd,
    /// The stored checksum byte does not equal the recomputed XOR reduction.
    ChecksumMismatch,
}

/// The fixed header and trailer of a frame hold: the markers stand at their
/// offsets and the length byte equals the frame's own size.
pub open spec fn headers_ok(s: Seq<u8>) -> bool {
    &&& MIN_FRAME_LEN <= s.len() <= MAX_FRAME_LEN
    &&& s[0] == STX
    &&& s[1] == s.len() as u8
    &&& s[s.len() - 2] == ETX
}

/// A well-formed frame: headers hold and the stored checksum byte equals the
/// checksum of the frame.
pub open spec fn frame_ok(s: Seq<u8>) -> bool {
    &&& headers_ok(s)
    &&& s[s.len() - 1] == checksum_spec(s)
}

/// What decoding `s` into a frame of fixed size `n` yields: the first check
/// that fails, or `None` when `s` is accepted. Checks run in this order:
/// byte count and length byte, start marker, end marker, checksum.
pub open spec fn decode_err(n: nat, s: Seq<u8>) -> Option<Error>
    recommends
        MIN_FRAME_LEN <= n <= MAX_FRAME_LEN,
{
    if s.len() != n || s[1] != n as u8 {
        Some(Error::LengthMismatch)
    } else if s[0] != STX {
        Some(Error::InvalidStart)
    } else if s[s.len() - 2] != ETX {
        Some(Error::InvalidEnd)
    } else if s[s.len() - 1] != checksum_spec(s) {
        Some(Error::ChecksumMismatch)
    } else {
        None
    }
}

/// The class code packed into the control byte: its bits `4..=6`. Bit `7`
/// is reserved and kept zero by the accessors.
pub open spec fn spec_class_code(s: Seq<u8>) -> u8
    recommends
        s.len() >= 3,
{
    (s[2] >> 4u8) & 0x07
}

/// The message class of a frame, decoded from the control byte's class bits.
pub open spec fn spec_message_class(s: Seq<u8>) -> MessageType
    recommends
        s.len() >= 3,
{
    spec_message_type_from_code(spec_class_code(s))
}

/// The device-address bits packed into the control byte: its bits `0..=3`.
pub open spec fn spec_address(s: Seq<u8>) -> u8
    recommends
        s.len() >= 3,
{
    s[2] & 0x0F
}

/// The control byte `c` with its class bits replaced by the low three bits of
/// `code`; address bits and the reserved bit are preserved.
pub open spec fn ctrl_with_class(c: u8, code: u8) -> u8 {
    (c & 0x8F) | ((code << 4u8) & 0x70)
}

/// The control byte `c` with its address bits replaced by the low four bits
/// of `a`; class bits and the reserved bit are preserved.
pub open spec fn ctrl_with_address(c: u8, a: u8) -> u8 {
    (c & 0xF0) | (a & 0x0F)
}

/// The auxiliary-command subtype of a frame, decoded from the subtype byte at
/// its fixed offset `len - 3`.
pub open spec fn spec_aux_command(s: Seq<u8>) -> AuxCommand
    recommends
        s.len() >= MIN_FRAME_LEN,
{
    spec_aux_command_from_byte(s[s.len() - 3])
}

/// The smallest frame with an omnibus data region: two data bytes standing
/// strictly between the control byte and the subtype byte.
pub const MIN_OMNIBUS_FRAME_LEN: usize = 8;

/// The ack/nak flag: bit `0` of data byte A (offset `3`).
pub open spec fn spec_acknak(s: Seq<u8>) -> bool
    recommends
        s.len() >= MIN_OMNIBUS_FRAME_LEN,
{
    s[3] & 0x01 == 1
}

/// The device-type code: bits `1..=3` of data byte A (offset `3`).
pub open spec fn spec_device_type(s: Seq<u8>) -> u8
    recommends
        s.len() >= MIN_OMNIBUS_FRAME_LEN,
{
    (s[3] >> 1u8) & 0x07
}

/// The operational-mode code: bits `4..=6` of data byte A (offset `3`).
pub open spec fn spec_operational_mode(s: Seq<u8>) -> u8
    recommends
        s.len() >= MIN_OMNIBUS_FRAME_LEN,
{
    (s[3] >> 4u8) & 0x07
}

/// The denomination bits: bits `0..=3` of data byte B (offset `4`).
pub open spec fn spec_denomination(s: Seq<u8>) -> u8
    recommends
        s.len() >= MIN_OMNIBUS_FRAME_LEN,
{
    s[4] & 0x0F
}

/// The configuration bits: bits `4..=7` of data byte B (offset `4`).
pub open spec fn spec_configuration(s: Seq<u8>) -> u8
    recommends
        s.len() >= MIN_OMNIBUS_FRAME_LEN,
{
    (s[4] >> 4u8) & 0x0F
}

/// Data byte A with its ack/nak bit replaced.
pub open spec fn data_a_with_acknak(d: u8, v: bool) -> u8 {
    if v {
        d | 0x01
    } else {
        d & 0xFE
    }
}

/// Data byte A with its device-type bits replaced by the low three bits of
/// `v`.
pub open spec fn data_a_with_device_type(d: u8, v: u8) -> u8 {
    (d & 0xF1) | ((v << 1u8) & 0x0E)
}

/// Data byte A with its operational-mode bits replaced by the low three bits
/// of `v`.
pub open spec fn data_a_with_operational_mode(d: u8, v: u8) -> u8 {
    (d & 0x8F) | ((v << 4u8) & 0x70)
}

/// Data byte B with its denomination bits replaced by the low four bits of
/// `v`.
pub open spec fn data_b_with_denomination(d: u8, v: u8) -> u8 {
    (d & 0xF0) | (v & 0x0F)
}

/// Data byte B with its configuration bits replaced by the low four bits of
/// `v`.
pub open spec fn data_b_with_configuration(d: u8, v: u8) -> u8 {
    (d & 0x0F) | ((v << 4u8) & 0xF0)
}

/// The frame a fresh command starts from: markers and length byte stamped,
/// everything else zero, before the checksum byte is rewritten.
pub open spec fn blank_spec(n: nat) -> Seq<u8>
    recommends
        MIN_FRAME_LEN <= n <= MAX_FRAME_LEN,
{
    Seq::new(
        n,
        |i: int|
            if i == 0 {
                STX
            } else if i == 1 {
                n as u8
            } else if i == n - 2 {
                ETX
            } else {
                0u8
            },
    )
}

/// Accepting bytes that decode without error always yields a well-formed
/// frame.
pub proof fn lemma_decode_ok_frame_ok(n: nat, s: Seq<u8>)
    requires
        MIN_FRAME_LEN <= n <= MAX_FRAME_LEN,
        decode_err(n, s) is None,
    ensures
        frame_ok(s),
        s.len() == n,
{
}

/// A well-formed frame decodes against its own length without error: the
/// round trip from a frame through its bytes back to a frame never fails,
/// and `from_buf` then reproduces exactly the serialized bytes.
pub proof fn lemma_round_trip(s: Seq<u8>)
    requires
        frame_ok(s),
    ensures
        decode_err(s.len(), s) is None,
{
}

/// Rewriting the checksum byte of a frame whose headers hold yields a
/// well-formed frame; the checksum byte itself is outside the covered range.
pub proof fn lemma_with_checksum_ok(s: Seq<u8>)
    requires
        headers_ok(s),
    ensures
        frame_ok(with_checksum(s)),
        with_checksum(s).len() == s.len(),
        headers_ok(with_checksum(s)),
        checksum_spec(with_checksum(s)) == checksum_spec(s),
        forall|i: int| 0 <= i < s.len() - 1 ==> with_checksum(s)[i] == s[i],
{
    lemma_checksum_ignores_last(s, checksum_spec(s));
}

/// Recomputing the checksum always leaves a frame that validates: the stored
/// checksum byte of `with_checksum(s)` equals the checksum of
/// `with_checksum(s)`, whatever field assignments `s` holds.
pub proof fn lemma_recompute_validates(s: Seq<u8>)
    requires
        s.len() >= 3,
    ensures
        with_checksum(s)[s.len() - 1] == checksum_spec(with_checksum(s)),
{
    lemma_checksum_ignores_last(s, checksum_spec(s));
}

/// The checksum detects every single-byte corruption in the covered range:
/// flipping any nonzero set of bits `m` of one byte at an index `1 ..= len-3`
/// of a frame whose checksum validates leaves a frame whose checksum no
/// longer validates.
pub proof fn lemma_bit_flip_detected(s: Seq<u8>, i: int, m: u8)
    requires
        s.len() >= 3,
        s[s.len() - 1] == checksum_spec(s),
        1 <= i <= s.len() - 3,
        m != 0,
    ensures
        s.update(i, s[i] ^ m)[s.len() - 1] != checksum_spec(s.update(i, s[i] ^ m)),
        !frame_ok(s.update(i, s[i] ^ m)),
{
    crate::checksum::lemma_checksum_update_covered(s, i, s[i] ^ m);
    let c = checksum_spec(s);
    let b = s[i];
    assert((c ^ b) ^ (b ^ m) == c ^ m) by (bit_vector);
    assert(c ^ m != c) by (bit_vector)
        requires
            m != 0u8,
    ;
}

/// One message frame: a fixed-size byte buffer whose layout and checksum are
/// kept consistent by the accessors below.
#[derive(Clone, Debug)]
pub struct Frame {
    buf: Vec<u8>,
}

impl View for Frame {
    type V = Seq<u8>;

    closed spec fn view(&self) -> Seq<u8> {
        self.buf@
    }
}

impl Frame {
    /// The frame is a well-formed message.
    pub open spec fn wf(self) -> bool {
        frame_ok(self@)
    }

    /// Builds a zero-initialized frame of the given fixed size: markers and
    /// length byte stamped, control and data bytes zero, checksum valid.
    pub fn init(size: usize) -> (f: Frame)
        requires
            MIN_FRAME_LEN <= size <= MAX_FRAME_LEN,
        ensures
            f@ == with_checksum(blank_spec(size as nat)),
            f@.len() == size,
            f.wf(),
    {
        let mut buf: Vec<u8> = Vec::new();
        let mut i: usize = 0;
        while i < size
            invariant
                i <= size,
                buf@.len() == i,
                forall|k: int| 0 <= k < i ==> buf@[k] == 0u8,
            decreases size - i,
        {
            buf.push(0u8);
            i = i + 1;
        }
        buf[0] = STX;
        buf[1] = size as u8;
        buf[size - 2] = ETX;
        let mut f = Frame { buf };
        proof {
            assert(f@ =~= blank_spec(size as nat));
            lemma_with_checksum_ok(blank_spec(size as nat));
        }
        f.recompute_checksum();
        f
    }

    /// The frame's fixed size in bytes.
    pub fn len(&self) -> (n: usize)
        ensures
            n == self@.len(),
    {
        self.buf.len()
    }

    /// The frame's bytes, ready for transmission; well formed whenever the
    /// frame is.
    pub fn as_bytes(&self) -> (r: &[u8])
        ensures
            r@ == self@,
    {
        self.buf.as_slice()
    }

    /// The stored checksum byte.
    pub fn checksum(&self) -> (r: u8)
        requires
            self@.len() >= 1,
        ensures
            r == self@[self@.len() - 1],
    {
        self.buf[self.buf.len() - 1]
    }

    /// Whether the stored checksum byte equals the checksum of the frame.
    pub fn validate_checksum(&self) -> (r: bool)
        requires
            self@.len() >= 3,
        ensures
            r == (self@[self@.len() - 1] == checksum_spec(self@)),
    {
        let c = compute_checksum(self.buf.as_slice());
        self.buf[self.buf.len() - 1] == c
    }

    /// Recomputes the checksum of the frame and stores it in the checksum
    /// byte; called by every mutator after it rewrites its field.
    pub fn recompute_checksum(&mut self)
        requires
            old(self)@.len() >= 3,
        ensures
            final(self)@ == with_checksum(old(self)@),
    {
        let n: usize = self.buf.len();
        let c = compute_checksum(self.buf.as_slice());
        self.buf[n - 1] = c;
    }

    /// Byte-for-byte equality of two frames.
    pub fn bytes_eq(&self, other: &Frame) -> (r: bool)
        ensures
            r == (self@ == other@),
    {
        let n: usize = self.buf.len();
        if other.buf.len() != n {
            return false;
        }
        let mut i: usize = 0;
        while i < n
            invariant
                i <= n,
                self@.len() == n,
                other@.len() == n,
                forall|k: int| 0 <= k < i ==> self@[k] == other@[k],
            decreases n - i,
        {
            if self.buf[i] != other.buf[i] {
                return false;
            }
            i = i + 1;
        }
        proof {
            assert(self@ =~= other@);
        }
        true
    }

    /// The message class, decoded from the control byte's class bits; total,
    /// an unknown class code decodes to `Unrecognized`.
    pub fn message_type(&self) -> (t: MessageType)
        requires
            self@.len() >= 3,
        ensures
            t == spec_message_class(self@),
    {
        MessageType::from_code((self.buf[2] >> 4u8) & 0x07)
    }

    /// Writes the class bits of the control byte from the low three bits of
    /// the class's code, preserving the address bits, and rewrites the
    /// checksum byte.
    pub fn set_message_type(&mut self, t: MessageType)
        requires
            MIN_FRAME_LEN <= old(self)@.len(),
        ensures
            final(self)@ == with_checksum(
                old(self)@.update(2, ctrl_with_class(old(self)@[2], spec_message_type_code(t))),
            ),
            final(self)@.len() == old(self)@.len(),
            spec_class_code(final(self)@) == spec_message_type_code(t) & 0x07,
            spec_address(final(self)@) == spec_address(old(self)@),
            spec_aux_command(final(self)@) == spec_aux_command(old(self)@),
            headers_ok(old(self)@) ==> final(self).wf(),
    {
        let ghost s0 = self@;
        let ghost c0 = self@[2];
        let code = t.code();
        let c = self.buf[2];
        self.buf[2] = (c & 0x8F) | ((code << 4u8) & 0x70);
        proof {
            assert(self@ =~= s0.update(2, ctrl_with_class(c0, spec_message_type_code(t))));
        }
        self.recompute_checksum();
        proof {
            let cc = ctrl_with_class(c0, spec_message_type_code(t));
            let cd = spec_message_type_code(t);
            assert(((((c0 & 0x8F) | ((cd << 4u8) & 0x70)) >> 4u8) & 0x07) == (cd & 0x07))
                by (bit_vector);
            assert((((c0 & 0x8F) | ((cd << 4u8) & 0x70)) & 0x0F) == (c0 & 0x0F)) by (bit_vector);
            if headers_ok(s0) {
                lemma_with_checksum_ok(s0.update(2, cc));
            }
        }
    }

    /// The device-address bits of the control byte.
    pub fn address(&self) -> (a: u8)
        requires
            self@.len() >= 3,
        ensures
            a == spec_address(self@),
    {
        self.buf[2] & 0x0F
    }

    /// Writes the address bits of the control byte from the low four bits of
    /// `a`, preserving the class bits, and rewrites the checksum byte.
    pub fn set_address(&mut self, a: u8)
        requires
            MIN_FRAME_LEN <= old(self)@.len(),
        ensures
            final(self)@ == with_checksum(
                old(self)@.update(2, ctrl_with_address(old(self)@[2], a)),
            ),
            final(self)@.len() == old(self)@.len(),
            spec_address(final(self)@) == a & 0x0F,
            spec_class_code(final(self)@) == spec_class_code(old(self)@),
            spec_aux_command(final(self)@) == spec_aux_command(old(self)@),
            headers_ok(old(self)@) ==> final(self).wf(),
    {
        let ghost s0 = self@;
        let ghost c0 = self@[2];
        let c = self.buf[2];
        self.buf[2] = (c & 0xF0) | (a & 0x0F);
        proof {
            assert(self@ =~= s0.update(2, ctrl_with_address(c0, a)));
        }
        self.recompute_checksum();
        proof {
            assert((((c0 & 0xF0) | (a & 0x0F)) & 0x0F) == (a & 0x0F)) by (bit_vector);
            assert(((((c0 & 0xF0) | (a & 0x0F)) >> 4u8) & 0x07) == ((c0 >> 4u8) & 0x07))
                by (bit_vector);
            if headers_ok(s0) {
                lemma_with_checksum_ok(s0.update(2, ctrl_with_address(c0, a)));
            }
        }
    }

    /// The auxiliary-command subtype, decoded from the subtype byte; total,
    /// an unknown byte decodes to `Unrecognized` carrying the raw value.
    pub fn aux_command(&self) -> (c: AuxCommand)
        requires
            self@.len() >= MIN_FRAME_LEN,
        ensures
            c == spec_aux_command(self@),
    {
        AuxCommand::from_byte(self.buf[self.buf.len() - 3])
    }

    /// Writes the subtype byte from the subtype's code and rewrites the
    /// checksum byte.
    pub fn set_aux_command(&mut self, c: AuxCommand)
        requires
            MIN_FRAME_LEN <= old(self)@.len(),
        ensures
            final(self)@ == with_checksum(
                old(self)@.update(old(self)@.len() - 3, spec_aux_command_byte(c)),
            ),
            final(self)@.len() == old(self)@.len(),
            spec_aux_command(final(self)@) == spec_aux_command_from_byte(spec_aux_command_byte(c)),
            spec_class_code(final(self)@) == spec_class_code(old(self)@),
            spec_address(final(self)@) == spec_address(old(self)@),
            headers_ok(old(self)@) ==> final(self).wf(),
    {
        let ghost s0 = self@;
        let n: usize = self.buf.len();
        let b = c.to_byte();
        self.buf[n - 3] = b;
        proof {
            assert(self@ =~= s0.update(s0.len() - 3, spec_aux_command_byte(c)));
        }
        self.recompute_checksum();
        proof {
            if headers_ok(s0) {
                lemma_with_checksum_ok(s0.update(s0.len() - 3, spec_aux_command_byte(c)));
            }
        }
    }

    /// The ack/nak flag of the omnibus data region.
    pub fn acknak(&self) -> (v: bool)
        requires
            self@.len() >= MIN_OMNIBUS_FRAME_LEN,
        ensures
            v == spec_acknak(self@),
    {
        self.buf[3] & 0x01 == 1
    }

    /// Writes the ack/nak flag, preserving the other data-byte-A fields, and
    /// rewrites the checksum byte.
    pub fn set_acknak(&mut self, v: bool)
        requires
            MIN_OMNIBUS_FRAME_LEN <= old(self)@.len(),
        ensures
            final(self)@ == with_checksum(
                old(self)@.update(3, data_a_with_acknak(old(self)@[3], v)),
            ),
            final(self)@.len() == old(self)@.len(),
            spec_acknak(final(self)@) == v,
            spec_device_type(final(self)@) == spec_device_type(old(self)@),
            spec_operational_mode(final(self)@) == spec_operational_mode(old(self)@),
            spec_denomination(final(self)@) == spec_denomination(old(self)@),
            spec_configuration(final(self)@) == spec_configuration(old(self)@),
            spec_class_code(final(self)@) == spec_class_code(old(self)@),
            spec_address(final(self)@) == spec_address(old(self)@),
            spec_aux_command(final(self)@) == spec_aux_command(old(self)@),
            headers_ok(old(self)@) ==> final(self).wf(),
    {
        let ghost s0 = self@;
        let ghost d0 = self@[3];
        let d = self.buf[3];
        self.buf[3] = if v {
            d | 0x01
        } else {
            d & 0xFE
        };
        proof {
            assert(self@ =~= s0.update(3, data_a_with_acknak(d0, v)));
        }
        self.recompute_checksum();
        proof {
            assert((d0 | 0x01) & 0x01 == 1 && ((d0 | 0x01) >> 1u8) & 0x07 == (d0 >> 1u8) & 0x07
                && ((d0 | 0x01) >> 4u8) & 0x07 == (d0 >> 4u8) & 0x07) by (bit_vector);
            assert((d0 & 0xFE) & 0x01 == 0 && ((d0 & 0xFE) >> 1u8) & 0x07 == (d0 >> 1u8) & 0x07
                && ((d0 & 0xFE) >> 4u8) & 0x07 == (d0 >> 4u8) & 0x07) by (bit_vector);
            if headers_ok(s0) {
                lemma_with_checksum_ok(s0.update(3, data_a_with_acknak(d0, v)));
            }
        }
    }

    /// The device-type code of the omnibus data region.
    pub fn device_type(&self) -> (v: u8)
        requires
            self@.len() >= MIN_OMNIBUS_FRAME_LEN,
        ensures
            v == spec_device_type(self@),
    {
        (self.buf[3] >> 1u8) & 0x07
    }

    /// Writes the device-type code from the low three bits of `v`, preserving
    /// the other data-byte-A fields, and rewrites the checksum byte.
    pub fn set_device_type(&mut self, v: u8)
        requires
            MIN_OMNIBUS_FRAME_LEN <= old(self)@.len(),
        ensures
            final(self)@ == with_checksum(
                old(self)@.update(3, data_a_with_device_type(old(self)@[3], v)),
            ),
            final(self)@.len() == old(self)@.len(),
            spec_device_type(final(self)@) == v & 0x07,
            spec_acknak(final(self)@) == spec_acknak(old(self)@),
            spec_operational_mode(final(self)@) == spec_operational_mode(old(self)@),
            spec_denomination(final(self)@) == spec_denomination(old(self)@),
            spec_configuration(final(self)@) == spec_configuration(old(self)@),
            spec_class_code(final(self)@) == spec_class_code(old(self)@),
            spec_address(final(self)@) == spec_address(old(self)@),
            spec_aux_command(final(self)@) == spec_aux_command(old(self)@),
            headers_ok(old(self)@) ==> final(self).wf(),
    {
        let ghost s0 = self@;
        let ghost d0 = self@[3];
        let d = self.buf[3];
        self.buf[3] = (d & 0xF1) | ((v << 1u8) & 0x0E);
        proof {
            assert(self@ =~= s0.update(3, data_a_with_device_type(d0, v)));
        }
        self.recompute_checksum();
        proof {
            let nd = (d0 & 0xF1) | ((v << 1u8) & 0x0E);
            assert((nd >> 1u8) & 0x07 == v & 0x07 && (nd & 0x01 == 1) == (d0 & 0x01 == 1) && (nd
                >> 4u8) & 0x07 == (d0 >> 4u8) & 0x07) by (bit_vector)
                requires
                    nd == (d0 & 0xF1) | ((v << 1u8) & 0x0E),
            ;
            if headers_ok(s0) {
                lemma_with_checksum_ok(s0.update(3, data_a_with_device_type(d0, v)));
            }
        }
    }

    /// The operational-mode code of the omnibus data region.
    pub fn operational_mode(&self) -> (v: u8)
        requires
            self@.len() >= MIN_OMNIBUS_FRAME_LEN,
        ensures
            v == spec_operational_mode(self@),
    {
        (self.buf[3] >> 4u8) & 0x07
    }

    /// Writes the operational-mode code from the low three bits of `v`,
    /// preserving the other data-byte-A fields, and rewrites the checksum
    /// byte.
    pub fn set_operational_mode(&mut self, v: u8)
        requires
            MIN_OMNIBUS_FRAME_LEN <= old(self)@.len(),
        ensures
            final(self)@ == with_checksum(
                old(self)@.update(3, data_a_with_operational_mode(old(self)@[3], v)),
            ),
            final(self)@.len() == old(self)@.len(),
            spec_operational_mode(final(self)@) == v & 0x07,
            spec_acknak(final(self)@) == spec_acknak(old(self)@),
            spec_device_type(final(self)@) == spec_device_type(old(self)@),
            spec_denomination(final(self)@) == spec_denomination(old(self)@),
            spec_configuration(final(self)@) == spec_configuration(old(self)@),
            spec_class_code(final(self)@) == spec_class_code(old(self)@),
            spec_address(final(self)@) == spec_address(old(self)@),
            spec_aux_command(final(self)@) == spec_aux_command(old(self)@),
            headers_ok(old(self)@) ==> final(self).wf(),
    {
        let ghost s0 = self@;
        let ghost d0 = self@[3];
        let d = self.buf[3];
        self.buf[3] = (d & 0x8F) | ((v << 4u8) & 0x70);
        proof {
            assert(self@ =~= s0.update(3, data_a_with_operational_mode(d0, v)));
        }
        self.recompute_checksum();
        proof {
            let nd = (d0 & 0x8F) | ((v << 4u8) & 0x70);
            assert((nd >> 4u8) & 0x07 == v & 0x07 && (nd & 0x01 == 1) == (d0 & 0x01 == 1) && (nd
                >> 1u8) & 0x07 == (d0 >> 1u8) & 0x07) by (bit_vector)
                requires
                    nd == (d0 & 0x8F) | ((v << 4u8) & 0x70),
            ;
            if headers_ok(s0) {
                lemma_with_checksum_ok(s0.update(3, data_a_with_operational_mode(d0, v)));
            }
        }
    }

    /// The denomination bits of the omnibus data region.
    pub fn denomination(&self) -> (v: u8)
        requires
            self@.len() >= MIN_OMNIBUS_FRAME_LEN,
        ensures
            v == spec_denomination(self@),
    {
        self.buf[4] & 0x0F
    }

    /// Writes the denomination bits from the low four bits of `v`, preserving
    /// the configuration bits, and rewrites the checksum byte.
    pub fn set_denomination(&mut self, v: u8)
        requires
            MIN_OMNIBUS_FRAME_LEN <= old(self)@.len(),
        ensures
            final(self)@ == with_checksum(
                old(self)@.update(4, data_b_with_denomination(old(self)@[4], v)),
            ),
            final(self)@.len() == old(self)@.len(),
            spec_denomination(final(self)@) == v & 0x0F,
            spec_configuration(final(self)@) == spec_configuration(old(self)@),
            spec_acknak(final(self)@) == spec_acknak(old(self)@),
            spec_device_type(final(self)@) == spec_device_type(old(self)@),
            spec_operational_mode(final(self)@) == spec_operational_mode(old(self)@),
            spec_class_code(final(self)@) == spec_class_code(old(self)@),
            spec_address(final(self)@) == spec_address(old(self)@),
            spec_aux_command(final(self)@) == spec_aux_command(old(self)@),
            headers_ok(old(self)@) ==> final(self).wf(),
    {
        let ghost s0 = self@;
        let ghost d0 = self@[4];
        let d = self.buf[4];
        self.buf[4] = (d & 0xF0) | (v & 0x0F);
        proof {
            assert(self@ =~= s0.update(4, data_b_with_denomination(d0, v)));
        }
        self.recompute_checksum();
        proof {
            assert(((d0 & 0xF0) | (v & 0x0F)) & 0x0F == v & 0x0F && (((d0 & 0xF0) | (v & 0x0F))
                >> 4u8) & 0x0F == (d0 >> 4u8) & 0x0F) by (bit_vector);
            if headers_ok(s0) {
                lemma_with_checksum_ok(s0.update(4, data_b_with_denomination(d0, v)));
            }
        }
    }

    /// The configuration bits of the omnibus data region.
    pub fn configuration(&self) -> (v: u8)
        requires
            self@.len() >= MIN_OMNIBUS_FRAME_LEN,
        ensures
            v == spec_configuration(self@),
    {
        (self.buf[4] >> 4u8) & 0x0F
    }

    /// Writes the configuration bits from the low four bits of `v`,
    /// preserving the denomination bits, and rewrites the checksum byte.
    pub fn set_configuration(&mut self, v: u8)
        requires
            MIN_OMNIBUS_FRAME_LEN <= old(self)@.len(),
        ensures
            final(self)@ == with_checksum(
                old(self)@.update(4, data_b_with_configuration(old(self)@[4], v)),
            ),
            final(self)@.len() == old(self)@.len(),
            spec_configuration(final(self)@) == v & 0x0F,
            spec_denomination(final(self)@) == spec_denomination(old(self)@),
            spec_acknak(final(self)@) == spec_acknak(old(self)@),
            spec_device_type(final(self)@) == spec_device_type(old(self)@),
            spec_operational_mode(final(self)@) == spec_operational_mode(old(self)@),
            spec_class_code(final(self)@) == spec_class_code(old(self)@),
            spec_address(final(self)@) == spec_address(old(self)@),
            spec_aux_command(final(self)@) == spec_aux_command(old(self)@),
            headers_ok(old(self)@) ==> final(self).wf(),
    {
        let ghost s0 = self@;
        let ghost d0 = self@[4];
        let d = self.buf[4];
        self.buf[4] = (d & 0x0F) | ((v << 4u8) & 0xF0);
        proof {
            assert(self@ =~= s0.update(4, data_b_with_configuration(d0, v)));
        }
        self.recompute_checksum();
        proof {
            let nd = (d0 & 0x0F) | ((v << 4u8) & 0xF0);
            assert((nd >> 4u8) & 0x0F == v & 0x0F && nd & 0x0F == d0 & 0x0F) by (bit_vector)
                requires
                    nd == (d0 & 0x0F) | ((v << 4u8) & 0xF0),
            ;
            if headers_ok(s0) {
                lemma_with_checksum_ok(s0.update(4, data_b_with_configuration(d0, v)));
            }
        }
    }

    /// Validates `bytes` as a frame of this frame's fixed size and replaces
    /// the buffer wholesale on success; on failure the frame is left exactly
    /// as it was and the first failing check is returned, in the order given
    /// by [`decode_err`].
    pub fn from_buf(&mut self, bytes: &[u8]) -> (r: Result<(), Error>)
        requires
            MIN_FRAME_LEN <= old(self)@.len() <= MAX_FRAME_LEN,
        ensures
            final(self)@.len() == old(self)@.len(),
            match r {
                Ok(()) => {
                    &&& decode_err(old(self)@.len(), bytes@) is None
                    &&& final(self)@ == bytes@
                    &&& final(self).wf()
                },
                Err(e) => {
                    &&& decode_err(old(self)@.len(), bytes@) == Some(e)
                    &&& final(self)@ == old(self)@
                },
            },
    {
        let n: usize = self.buf.len();
        if bytes.len() != n || bytes[1] != n as u8 {
            return Err(Error::LengthMismatch);
        }
        if bytes[0] != STX {
            return Err(Error::InvalidStart);
        }
        if bytes[n - 2] != ETX {
            return Err(Error::InvalidEnd);
        }
        let c = compute_checksum(bytes);
        if bytes[n - 1] != c {
            return Err(Error::ChecksumMismatch);
        }
        let mut i: usize = 0;
        while i < n
            invariant
                i <= n,
                self@.len() == n,
                bytes@.len() == n,
                forall|k: int| 0 <= k < i ==> self@[k] == bytes@[k],
            decreases n - i,
        {
            self.buf[i] = bytes[i];
            i = i + 1;
        }
        proof {
            assert(self@ =~= bytes@);
            lemma_decode_ok_frame_ok(n as nat, bytes@);
        }
        Ok(())
    }
}

} // verus!
