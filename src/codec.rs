//! The datagram codec: read and write frames, the CRC-8 check byte and the
//! payload of a reply.
use vstd::prelude::*;

verus! {

/// First byte of every frame sent to the controller.
pub const SYNC: u8 = 0x55;

/// Node address of the controller on the bus.
pub const NODE_ADDRESS: u8 = 0x00;

/// Bit set in the register byte of a write frame.
pub const WRITE_FLAG: u8 = 0x80;

/// Length of a read request.
pub const READ_FRAME_LEN: usize = 4;

/// Length of a write request.
pub const WRITE_FRAME_LEN: usize = 8;

/// Length of the buffer that one reply is read into.
pub const REPLY_LEN: usize = 12;

/// Feeds the low `n` bits of `byte`, least significant first, into the
/// CRC register `crc` (polynomial 0x07).
pub open spec fn crc_bits(crc: u8, byte: u8, n: nat) -> u8
    decreases n,
{
    if n == 0 {
        crc
    } else {
        let shifted = (crc << 1u8) as u8;
        let next = if (crc >> 7u8) ^ (byte & 1u8) > 0 {
            (shifted ^ 0x07u8) as u8
        } else {
            shifted
        };
        crc_bits(next, byte >> 1u8, (n - 1) as nat)
    }
}

/// CRC-8 of a byte sequence, seeded with zero.
pub open spec fn crc_of(s: Seq<u8>) -> u8
    decreases s.len(),
{
    if s.len() == 0 {
        0
    } else {
        crc_bits(crc_of(s.drop_last()), s.last(), 8)
    }
}

/// The check byte of a datagram: the CRC of every byte but the last.
pub open spec fn check_byte(datagram: Seq<u8>) -> u8
    recommends
        datagram.len() >= 1,
{
    crc_of(datagram.subrange(0, datagram.len() - 1))
}

/// Computes the check byte of `datagram`: the CRC over all bytes except the
/// last, which is the slot reserved for the result.
pub fn crc8(datagram: &Vec<u8>) -> (r: u8)
    requires
        datagram@.len() >= 1,
    ensures
        r == check_byte(datagram@),
{
    let n = datagram.len() - 1;
    let mut crc: u8 = 0;
    let mut i: usize = 0;
    while i < n
        invariant
            n == datagram@.len() - 1,
            i <= n,
            crc == crc_of(datagram@.subrange(0, i as int)),
        decreases n - i,
    {
        let byte = datagram[i];
        let ghost start = crc;
        let mut bits = byte;
        let mut k: u8 = 0;
        while k < 8
            invariant
                k <= 8,
                crc_bits(crc, bits, (8 - k) as nat) == crc_bits(start, byte, 8),
            decreases 8 - k,
        {
            if (crc >> 7u8) ^ (bits & 1u8) > 0 {
                crc = (crc << 1u8) ^ 0x07u8;
            } else {
                crc = crc << 1u8;
            }
            bits = bits >> 1u8;
            k = k + 1;
        }
        proof {
            let s = datagram@.subrange(0, i + 1);
            assert(s.drop_last() =~= datagram@.subrange(0, i as int));
        }
        i = i + 1;
    }
    crc
}

/// The four bytes of `v`, most significant first.
pub open spec fn be_bytes(v: u32) -> Seq<u8> {
    seq![
        (v / 0x100_0000) as u8,
        ((v / 0x1_0000) % 0x100) as u8,
        ((v / 0x100) % 0x100) as u8,
        (v % 0x100) as u8,
    ]
}

/// The value of four bytes read most significant first.
pub open spec fn be_value(b: Seq<u8>) -> u32
    recommends
        b.len() == 4,
{
    (b[0] * 0x100_0000 + b[1] * 0x1_0000 + b[2] * 0x100 + b[3]) as u32
}

/// A frame body followed by its check byte.
pub open spec fn sealed(body: Seq<u8>) -> Seq<u8> {
    body.push(crc_of(body))
}

/// The read request for register `reg`: sync, node address, register, CRC.
pub open spec fn read_frame(reg: u8) -> Seq<u8> {
    sealed(seq![SYNC, NODE_ADDRESS, reg])
}

/// The write request that stores `value` in register `reg`: sync, node
/// address, register with the write flag, the value big-endian, CRC.
pub open spec fn write_frame(reg: u8, value: u32) -> Seq<u8> {
    sealed(seq![SYNC, NODE_ADDRESS, reg | WRITE_FLAG] + be_bytes(value))
}

/// The register payload of a reply buffer: its last four bytes, big-endian.
pub open spec fn payload_of(reply: Seq<u8>) -> u32
    recommends
        reply.len() >= 4,
{
    be_value(reply.subrange(reply.len() - 4, reply.len() as int))
}

/// Builds the 4-byte read request for register `reg`.
pub fn encode_read(reg: u8) -> (r: Vec<u8>)
    ensures
        r@ == read_frame(reg),
{
    let mut frame: Vec<u8> = vec![SYNC, NODE_ADDRESS, reg, 0xFF];
    assert(frame@.subrange(0, 3) =~= seq![SYNC, NODE_ADDRESS, reg]);
    let crc = crc8(&frame);
    frame.set(3, crc);
    assert(frame@ =~= read_frame(reg));
    frame
}

/// Builds the 8-byte write request that stores `value` in register `reg`.
pub fn encode_write(reg: u8, value: u32) -> (r: Vec<u8>)
    ensures
        r@ == write_frame(reg, value),
{
    let mut frame: Vec<u8> = vec![
        SYNC,
        NODE_ADDRESS,
        reg | WRITE_FLAG,
        (value / 0x100_0000) as u8,
        ((value / 0x1_0000) % 0x100) as u8,
        ((value / 0x100) % 0x100) as u8,
        (value % 0x100) as u8,
        0xFF,
    ];
    assert(frame@.subrange(0, 7) =~= seq![SYNC, NODE_ADDRESS, reg | WRITE_FLAG] + be_bytes(
        value,
    ));
    let crc = crc8(&frame);
    frame.set(7, crc);
    assert(frame@ =~= write_frame(reg, value));
    frame
}

/// Reads the register payload out of a reply buffer: its last four bytes,
/// reassembled big-endian.
pub fn reply_payload(reply: &Vec<u8>) -> (r: u32)
    requires
        reply@.len() >= 4,
    ensures
        r == payload_of(reply@),
{
    let n = reply.len();
    let b0 = reply[n - 4] as u32;
    let b1 = reply[n - 3] as u32;
    let b2 = reply[n - 2] as u32;
    let b3 = reply[n - 1] as u32;
    proof {
        let tail = reply@.subrange(n - 4, n as int);
        assert(tail[0] == b0 && tail[1] == b1 && tail[2] == b2 && tail[3] == b3);
    }
    b0 * 0x100_0000 + b1 * 0x1_0000 + b2 * 0x100 + b3
}

/// Splitting a value into big-endian bytes and reassembling them gives the
/// value back: a payload read as written.
pub proof fn lemma_be_round_trip(v: u32)
    ensures
        be_value(be_bytes(v)) == v,
{
    let b = be_bytes(v);
    assert(b[0] * 0x100_0000 + b[1] * 0x1_0000 + b[2] * 0x100 + b[3] == v) by (nonlinear_arith)
        requires
            b[0] == v / 0x100_0000,
            b[1] == (v / 0x1_0000) % 0x100,
            b[2] == (v / 0x100) % 0x100,
            b[3] == v % 0x100,
    ;
}

} // verus!
