//! The fixed-layout protocol message ("report") and its codec: bit-exact
//! serialization to the 90-byte wire frame, the inverse deserialization, the
//! big-endian conversion of `remaining_packets`, and the XOR checksum.
//!
//! A report is held in memory with `remaining_packets` in host order; the
//! byte-order conversions swap that one field, and `pack`/`unpack` compose
//! them with the raw (de)serializer exactly as the wire demands.

use vstd::prelude::*;
use vstd::arithmetic::div_mod::{
    lemma_fundamental_div_mod, lemma_fundamental_div_mod_converse, lemma_mod_pos_bound,
};

verus! {

/// Total size of a report on the wire, in bytes.
pub const REPORT_LEN: usize = 90;

/// Size of the fixed argument buffer, in bytes.
pub const ARGS_LEN: usize = 80;

/// The single wire message type, fields in wire order.  `remaining_packets`
/// is big-endian on the wire; `crc` is the XOR of the frame bytes from
/// `remaining_packets` through the last argument byte.
#[derive(Clone, Copy, PartialEq, Eq, Debug)]
pub struct RazerReport {
    /// Device-set on a response; 0 on a request.
    pub status: u8,
    /// Caller-assigned correlation id, constant per device family.
    pub transaction_id: u8,
    /// Big-endian on the wire; host order in this struct.
    pub remaining_packets: u16,
    /// Always 0.
    pub protocol_type: u8,
    /// Number of meaningful argument bytes.
    pub data_size: u8,
    /// Selects the command family.
    pub command_class: u8,
    /// Selects the command within the family.
    pub command_id: u8,
    /// Fixed-size argument buffer, zero-padded.
    pub arguments: [u8; 80],
    /// XOR checksum; recomputed by `update_crc` before transmission.
    pub crc: u8,
    /// Always 0.
    pub reserved: u8,
}

/// Low byte of a 16-bit value.
pub open spec fn lo16(x: u16) -> u8 {
    (x % 256) as u8
}

/// High byte of a 16-bit value.
pub open spec fn hi16(x: u16) -> u8 {
    (x / 256) as u8
}

/// The 16-bit value with its two bytes exchanged.
pub open spec fn swap16(x: u16) -> u16 {
    ((x % 256) * 256 + (x / 256)) as u16
}

/// The report with `remaining_packets` byte-swapped and all else unchanged.
pub open spec fn swapped(r: RazerReport) -> RazerReport {
    RazerReport { remaining_packets: swap16(r.remaining_packets), ..r }
}

/// The report with the given checksum and all else unchanged.
pub open spec fn with_crc(r: RazerReport, crc: u8) -> RazerReport {
    RazerReport { crc: crc, ..r }
}

/// The 90 bytes of a report laid out in memory order: every field in wire
/// position, with `remaining_packets` still in host order (low byte first).
pub open spec fn host_bytes(r: RazerReport) -> Seq<u8> {
    seq![
        r.status,
        r.transaction_id,
        lo16(r.remaining_packets),
        hi16(r.remaining_packets),
        r.protocol_type,
        r.data_size,
        r.command_class,
        r.command_id,
    ] + r.arguments@ + seq![r.crc, r.reserved]
}

/// The 90 bytes of a report as sent on the wire: as `host_bytes`, but with
/// `remaining_packets` big-endian.
pub open spec fn wire_bytes(r: RazerReport) -> Seq<u8> {
    host_bytes(swapped(r))
}

/// XOR-fold of a byte sequence.
pub open spec fn xor_seq(s: Seq<u8>) -> u8
    decreases s.len(),
{
    if s.len() == 0 {
        0u8
    } else {
        xor_seq(s.drop_last()) ^ s.last()
    }
}

/// The byte window the checksum covers: `remaining_packets` through the last
/// argument byte, i.e. offsets 2..88 of the frame.
pub open spec fn crc_window(r: RazerReport) -> Seq<u8> {
    seq![
        lo16(r.remaining_packets),
        hi16(r.remaining_packets),
        r.protocol_type,
        r.data_size,
        r.command_class,
        r.command_id,
    ] + r.arguments@
}

/// The checksum a report must carry on the wire.
pub open spec fn crc_of(r: RazerReport) -> u8 {
    xor_seq(crc_window(r))
}

/// An all-zero argument buffer.
pub open spec fn zero_args() -> Seq<u8> {
    Seq::new(80, |i: int| 0u8)
}

/// The given arguments zero-padded to the fixed buffer size.
pub open spec fn padded(args: Seq<u8>) -> Seq<u8>
    recommends
        args.len() <= 80,
{
    args + Seq::new((80 - args.len()) as nat, |i: int| 0u8)
}

/// A freshly built request: zero everywhere except the command selectors,
/// the data size and the arguments.
pub open spec fn is_request(r: RazerReport, cls: u8, id: u8, size: u8, args: Seq<u8>) -> bool {
    &&& r.status == 0
    &&& r.transaction_id == 0
    &&& r.remaining_packets == 0
    &&& r.protocol_type == 0
    &&& r.data_size == size
    &&& r.command_class == cls
    &&& r.command_id == id
    &&& r.arguments@ == args
    &&& r.crc == 0
    &&& r.reserved == 0
}

/// `r` is what deserializing `bytes` without byte-order conversion yields:
/// every field read from its wire position, `remaining_packets` read low
/// byte first.
pub open spec fn decode_ok(bytes: Seq<u8>, r: RazerReport) -> bool
    recommends
        bytes.len() == 90,
{
    &&& r.status == bytes[0]
    &&& r.transaction_id == bytes[1]
    &&& r.remaining_packets == bytes[2] + 256 * bytes[3]
    &&& r.protocol_type == bytes[4]
    &&& r.data_size == bytes[5]
    &&& r.command_class == bytes[6]
    &&& r.command_id == bytes[7]
    &&& r.arguments@ == bytes.subrange(8, 88)
    &&& r.crc == bytes[88]
    &&& r.reserved == bytes[89]
}

/// `r` is what decoding the wire frame `bytes` yields: as `decode_ok`, but
/// `remaining_packets` converted back from big-endian.
pub open spec fn wire_decode_ok(bytes: Seq<u8>, r: RazerReport) -> bool
    recommends
        bytes.len() == 90,
{
    &&& r.status == bytes[0]
    &&& r.transaction_id == bytes[1]
    &&& r.remaining_packets == 256 * bytes[2] + bytes[3]
    &&& r.protocol_type == bytes[4]
    &&& r.data_size == bytes[5]
    &&& r.command_class == bytes[6]
    &&& r.command_id == bytes[7]
    &&& r.arguments@ == bytes.subrange(8, 88)
    &&& r.crc == bytes[88]
    &&& r.reserved == bytes[89]
}

/// Byte-level facts about a 16-bit value that the codec proofs lean on.
pub proof fn lemma_u16_bytes(x: u16)
    ensures
        x % 256 < 256,
        x / 256 < 256,
        swap16(x) == (x % 256) * 256 + (x / 256),
        lo16(swap16(x)) == hi16(x),
        hi16(swap16(x)) == lo16(x),
        swap16(swap16(x)) == x,
        256 * hi16(x) + lo16(x) == x,
{
    lemma_mod_pos_bound(x as int, 256);
    lemma_fundamental_div_mod(x as int, 256);
    let l = (x % 256) as int;
    let h = (x / 256) as int;
    assert(x == 256 * h + l);
    assert(h < 256);
    lemma_fundamental_div_mod_converse(l * 256 + h, 256, l, h);
    assert((l * 256 + h) % 256 == h);
    assert((l * 256 + h) / 256 == l);
}

impl Default for RazerReport {
    /// An all-zero report.
    fn default() -> (r: Self)
        ensures
            is_request(r, 0, 0, 0, zero_args()),
    {
        let r = RazerReport {
            status: 0,
            transaction_id: 0,
            remaining_packets: 0,
            protocol_type: 0,
            data_size: 0,
            command_class: 0,
            command_id: 0,
            arguments: [0u8; 80],
            crc: 0,
            reserved: 0,
        };
        proof {
            assert(r.arguments@ =~= zero_args());
        }
        r
    }
}

impl RazerReport {
    /// A request with the given command selectors and declared data size,
    /// and an untouched (all-zero) argument buffer.
    pub fn init(cmd_cls: u8, cmd_id: u8, data_size: u8) -> (r: Self)
        ensures
            is_request(r, cmd_cls, cmd_id, data_size, zero_args()),
    {
        let mut r = Self::default();
        r.command_class = cmd_cls;
        r.command_id = cmd_id;
        r.data_size = data_size;
        r
    }

    /// A request with the given command selectors and arguments; the data
    /// size is the argument count and the remaining buffer stays zero.
    pub fn new(cmd_cls: u8, cmd_id: u8, args: &[u8]) -> (r: Self)
        requires
            args@.len() <= 80,
        ensures
            is_request(r, cmd_cls, cmd_id, args@.len() as u8, padded(args@)),
    {
        let n = args.len();
        let mut r = Self::init(cmd_cls, cmd_id, n as u8);
        let mut i: usize = 0;
        while i < n
            invariant
                i <= n == args@.len() <= 80,
                r.arguments@.len() == 80,
                is_request(r, cmd_cls, cmd_id, args@.len() as u8, r.arguments@),
                forall|j: int| 0 <= j < i ==> r.arguments@[j] == args@[j],
                forall|j: int| i <= j < 80 ==> r.arguments@[j] == 0,
            decreases n - i,
        {
            r.arguments[i] = args[i];
            i = i + 1;
        }
        proof {
            assert(r.arguments@ =~= padded(args@));
        }
        r
    }

    /// The frame bytes of this report exactly as laid out in memory, without
    /// any byte-order conversion.
    pub fn bytes(&self) -> (res: Vec<u8>)
        ensures
            res@ == host_bytes(*self),
    {
        let mut v: Vec<u8> = Vec::new();
        v.push(self.status);
        v.push(self.transaction_id);
        v.push((self.remaining_packets % 256) as u8);
        v.push((self.remaining_packets / 256) as u8);
        v.push(self.protocol_type);
        v.push(self.data_size);
        v.push(self.command_class);
        v.push(self.command_id);
        proof {
            lemma_u16_bytes(self.remaining_packets);
            assert(v@ =~= host_bytes(*self).take(8));
        }
        let mut i: usize = 0;
        while i < 80
            invariant
                i <= 80,
                v@ == host_bytes(*self).take(8 + i),
            decreases 80 - i,
        {
            v.push(self.arguments[i]);
            proof {
                assert(host_bytes(*self).take(8 + i + 1) =~= host_bytes(*self).take(8 + i).push(
                    self.arguments@[i as int],
                ));
            }
            i = i + 1;
        }
        v.push(self.crc);
        v.push(self.reserved);
        proof {
            assert(v@ =~= host_bytes(*self));
        }
        v
    }

    /// Recomputes the checksum over the frame window and stores it, leaving
    /// every other field unchanged.  The prior `crc` contents play no part.
    pub fn update_crc(&mut self)
        ensures
            *final(self) == with_crc(*old(self), crc_of(*old(self))),
    {
        let s = self.bytes();
        let mut acc: u8 = 0;
        let mut i: usize = 2;
        proof {
            assert(s@.subrange(2, 2) =~= Seq::<u8>::empty());
        }
        while i < 88
            invariant
                2 <= i <= 88,
                s@ == host_bytes(*self),
                acc == xor_seq(s@.subrange(2, i as int)),
            decreases 88 - i,
        {
            proof {
                assert(s@.subrange(2, i + 1).drop_last() =~= s@.subrange(2, i as int));
            }
            acc = acc ^ s[i];
            i = i + 1;
        }
        proof {
            assert(s@.subrange(2, 88) =~= crc_window(*self));
        }
        self.crc = acc;
    }

    /// Swaps `remaining_packets` into network (big-endian) byte order.
    pub fn to_network_byte_order_mut(&mut self)
        ensures
            *final(self) == swapped(*old(self)),
    {
        proof {
            lemma_u16_bytes(self.remaining_packets);
        }
        let x = self.remaining_packets;
        self.remaining_packets = (x % 256) * 256 + (x / 256);
    }

    /// A copy of this report in network byte order.
    pub fn to_network_byte_order(self) -> (r: Self)
        ensures
            r == swapped(self),
    {
        let mut r = self;
        r.to_network_byte_order_mut();
        r
    }

    /// Swaps `remaining_packets` back into host byte order.
    pub fn to_host_byte_order_mut(&mut self)
        ensures
            *final(self) == swapped(*old(self)),
    {
        self.to_network_byte_order_mut();
    }

    /// A copy of this report in host byte order.
    pub fn to_host_byte_order(self) -> (r: Self)
        ensures
            r == swapped(self),
    {
        let mut r = self;
        r.to_host_byte_order_mut();
        r
    }

    /// Serializes this report for transmission: the frame bytes with
    /// `remaining_packets` converted to big-endian.
    pub fn pack(self) -> (res: Vec<u8>)
        ensures
            res@ == wire_bytes(self),
    {
        let r = self.to_network_byte_order();
        r.bytes()
    }

    /// Converts to network byte order in place and serializes; equivalent to
    /// `to_network_byte_order_mut` followed by `bytes`.
    pub fn pack_mut(&mut self) -> (res: Vec<u8>)
        ensures
            *final(self) == swapped(*old(self)),
            res@ == wire_bytes(*old(self)),
    {
        self.to_network_byte_order_mut();
        self.bytes()
    }

    /// Deserializes a frame without byte-order conversion; `None` unless the
    /// input is exactly one frame long.
    pub fn from(buffer: &[u8]) -> (res: Option<Self>)
        ensures
            buffer@.len() == 90 ==> (res matches Some(r) && decode_ok(buffer@, r)),
            buffer@.len() != 90 ==> res is None,
    {
        if buffer.len() != 90 {
            return None;
        }
        let mut args = [0u8; 80];
        let mut i: usize = 0;
        while i < 80
            invariant
                i <= 80,
                buffer@.len() == 90,
                args@.len() == 80,
                forall|j: int| 0 <= j < i ==> args@[j] == buffer@[8 + j],
            decreases 80 - i,
        {
            args[i] = buffer[8 + i];
            i = i + 1;
        }
        proof {
            assert(args@ =~= buffer@.subrange(8, 88));
        }
        let lo = buffer[2];
        let hi = buffer[3];
        Some(RazerReport {
            status: buffer[0],
            transaction_id: buffer[1],
            remaining_packets: lo as u16 + 256 * (hi as u16),
            protocol_type: buffer[4],
            data_size: buffer[5],
            command_class: buffer[6],
            command_id: buffer[7],
            arguments: args,
            crc: buffer[88],
            reserved: buffer[89],
        })
    }

    /// Decodes a received frame: deserializes and converts
    /// `remaining_packets` back from big-endian.  `None` unless the input is
    /// exactly one frame long.
    pub fn unpack(buffer: &[u8]) -> (res: Option<Self>)
        ensures
            buffer@.len() == 90 ==> (res matches Some(r) && wire_decode_ok(buffer@, r)),
            buffer@.len() != 90 ==> res is None,
    {
        match Self::from(buffer) {
            Some(rep) => {
                let r = rep.to_host_byte_order();
                proof {
                    if buffer@.len() == 90 {
                        let lo = buffer@[2];
                        let hi = buffer@[3];
                        lemma_fundamental_div_mod_converse(
                            lo + 256 * hi,
                            256,
                            hi as int,
                            lo as int,
                        );
                        assert(rep.remaining_packets % 256 == lo);
                        assert(rep.remaining_packets / 256 == hi);
                        lemma_u16_bytes(rep.remaining_packets);
                    }
                }
                Some(r)
            },
            None => None,
        }
    }
}

/// The checksum window, phrased over the serialized frame: `crc_of` is the
/// XOR-fold of frame offsets 2..88.
pub proof fn lemma_crc_is_frame_window(r: RazerReport)
    ensures
        crc_of(r) == xor_seq(host_bytes(r).subrange(2, 88)),
{
    assert(host_bytes(r).subrange(2, 88) =~= crc_window(r));
}

/// The checksum never depends on the prior `crc` contents: two reports that
/// agree on everything else get the same checksum.
pub proof fn lemma_crc_ignores_stale_crc(r: RazerReport, c1: u8, c2: u8)
    ensures
        crc_of(with_crc(r, c1)) == crc_of(with_crc(r, c2)),
{
    assert(crc_window(with_crc(r, c1)) =~= crc_window(with_crc(r, c2)));
}

/// Round trip: decoding an encoded report restores it, field for field.
pub proof fn lemma_round_trip(r: RazerReport, d: RazerReport)
    requires
        wire_decode_ok(wire_bytes(r), d),
    ensures
        d == r,
{
    let b = wire_bytes(r);
    lemma_u16_bytes(r.remaining_packets);
    assert(b[2] == hi16(r.remaining_packets));
    assert(b[3] == lo16(r.remaining_packets));
    assert(d.arguments@ =~= r.arguments@) by {
        assert(b.subrange(8, 88) =~= r.arguments@);
    }
    assert(d.arguments =~= r.arguments);
}

} // verus!
