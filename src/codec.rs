use vstd::prelude::*;

verus! {

/// The line symbol that carries the nibble `n`: each bit of the nibble, lowest
/// first, becomes a pair of line bits, `01` for a zero and `10` for a one.
pub open spec fn nibble_symbol(n: u8) -> u8 {
    match n {
        0 => 0x55u8,
        1 => 0x56u8,
        2 => 0x59u8,
        3 => 0x5au8,
        4 => 0x65u8,
        5 => 0x66u8,
        6 => 0x69u8,
        7 => 0x6au8,
        8 => 0x95u8,
        9 => 0x96u8,
        10 => 0x99u8,
        11 => 0x9au8,
        12 => 0xa5u8,
        13 => 0xa6u8,
        14 => 0xa9u8,
        _ => 0xaau8,
    }
}

/// Looks up the line symbol of a nibble.
pub fn encode_nibble(n: u8) -> (r: u8)
    requires
        n < 16,
    ensures
        r == nibble_symbol(n),
{
    match n {
        0 => 0x55,
        1 => 0x56,
        2 => 0x59,
        3 => 0x5a,
        4 => 0x65,
        5 => 0x66,
        6 => 0x69,
        7 => 0x6a,
        8 => 0x95,
        9 => 0x96,
        10 => 0x99,
        11 => 0x9a,
        12 => 0xa5,
        13 => 0xa6,
        14 => 0xa9,
        _ => 0xaa,
    }
}


/// The nibble that a received line byte stands for. The sixteen data symbols
/// give their nibble back; a command symbol, whose lowest line pair is cleared,
/// gives its (even) nibble; every other byte reads as zero.
pub open spec fn symbol_nibble(b: u8) -> u8 {
    match b {
        0x55u8 => 0u8,
        0x56u8 => 1u8,
        0x59u8 => 2u8,
        0x5au8 => 3u8,
        0x65u8 => 4u8,
        0x66u8 => 5u8,
        0x69u8 => 6u8,
        0x6au8 => 7u8,
        0x95u8 => 8u8,
        0x96u8 => 9u8,
        0x99u8 => 10u8,
        0x9au8 => 11u8,
        0xa5u8 => 12u8,
        0xa6u8 => 13u8,
        0xa9u8 => 14u8,
        0xaau8 => 15u8,
        0x54u8 => 0u8,
        0x58u8 => 2u8,
        0x64u8 => 4u8,
        0x68u8 => 6u8,
        0x94u8 => 8u8,
        0x98u8 => 10u8,
        0xa4u8 => 12u8,
        0xa8u8 => 14u8,
        _ => 0u8,
    }
}

/// Looks up the nibble of a received line byte.
pub fn decode_symbol(b: u8) -> (r: u8)
    ensures
        r == symbol_nibble(b),
        r < 16,
{
    match b {
        0x55 => 0,
        0x56 => 1,
        0x59 => 2,
        0x5a => 3,
        0x65 => 4,
        0x66 => 5,
        0x69 => 6,
        0x6a => 7,
        0x95 => 8,
        0x96 => 9,
        0x99 => 10,
        0x9a => 11,
        0xa5 => 12,
        0xa6 => 13,
        0xa9 => 14,
        0xaa => 15,
        0x54 => 0,
        0x58 => 2,
        0x64 => 4,
        0x68 => 6,
        0x94 => 8,
        0x98 => 10,
        0xa4 => 12,
        0xa8 => 14,
        _ => 0,
    }
}

/// Every data symbol reads back as the nibble it was made from.
pub proof fn lemma_symbol_round_trip(n: u8)
    requires
        n < 16,
    ensures
        symbol_nibble(nibble_symbol(n)) == n,
{
    assert(n == 0 || n == 1 || n == 2 || n == 3 || n == 4 || n == 5 || n == 6 || n == 7 || n
        == 8 || n == 9 || n == 10 || n == 11 || n == 12 || n == 13 || n == 14 || n == 15);
}


/// The largest payload whose frame fits one bulk transfer of 4096 bytes.
pub const MAX_PAYLOAD: usize = 2047;

/// The first byte of a frame: the symbol of `(command << 1) & 0xF`, with its
/// lowest line pair cleared.
pub open spec fn command_symbol(command: usize) -> u8 {
    nibble_symbol((2 * (command % 8)) as u8) & 0xfcu8
}

/// The line byte at position `i` of the frame for `command` and `payload`:
/// the command symbol, then the low and the high nibble of each payload byte,
/// then a zero terminator.
pub open spec fn frame_byte(command: usize, payload: Seq<u8>, i: int) -> u8 {
    if i == 0 {
        command_symbol(command)
    } else if i == 2 * payload.len() + 1 {
        0u8
    } else if (i - 1) % 2 == 0 {
        nibble_symbol(payload[(i - 1) / 2] & 0xfu8)
    } else {
        nibble_symbol(payload[(i - 1) / 2] >> 4u8)
    }
}

/// The frame that carries `payload` under `command`.
pub open spec fn encode_spec(command: usize, payload: Seq<u8>) -> Seq<u8> {
    Seq::new((2 * payload.len() + 2) as nat, |i: int| frame_byte(command, payload, i))
}

/// The byte carried by a pair of line bytes, low nibble first.
pub open spec fn pair_byte(lo: u8, hi: u8) -> u8 {
    (symbol_nibble(lo) + 16 * symbol_nibble(hi)) as u8
}

/// The payload carried by a received frame: the tag byte is skipped and the
/// rest is read in pairs; a trailing odd byte (the terminator) is ignored.
pub open spec fn decode_spec(received: Seq<u8>) -> Seq<u8> {
    if received.len() == 0 {
        Seq::empty()
    } else {
        Seq::new(
            ((received.len() - 1) / 2) as nat,
            |k: int| pair_byte(received[2 * k + 1], received[2 * k + 2]),
        )
    }
}

/// The command number that the tag byte of a received frame carries.
pub open spec fn tag_command(tag: u8) -> u8 {
    (symbol_nibble(tag) & 0xfu8) >> 1u8
}

/// A reply is well tagged when it has a first byte and that byte carries
/// command 7.
pub open spec fn reply_tag_ok(received: Seq<u8>) -> bool {
    received.len() >= 1 && tag_command(received[0]) == 7
}

/// Encodes `payload` as a line frame for `command`.
pub fn encode(command: usize, payload: &[u8]) -> (r: Vec<u8>)
    requires
        payload@.len() <= MAX_PAYLOAD,
    ensures
        r@ == encode_spec(command, payload@),
        r@.len() == 2 * payload@.len() + 2,
        r@.last() == 0,
{
    let n = payload.len();
    let mut out: Vec<u8> = Vec::with_capacity(2 * n + 2);
    let idx: u8 = ((command % 8) as u8) * 2;
    let first = encode_nibble(idx) & 0xfc;
    out.push(first);
    let mut i: usize = 0;
    while i < n
        invariant
            n == payload@.len(),
            n <= MAX_PAYLOAD,
            i <= n,
            out@.len() == 2 * i + 1,
            forall|j: int| 0 <= j < 2 * i + 1 ==> out@[j] == frame_byte(command, payload@, j),
        decreases n - i,
    {
        let b = payload[i];
        let lo_n: u8 = b & 0xf;
        let hi_n: u8 = b >> 4;
        assert(lo_n < 16 && hi_n < 16) by (bit_vector)
            requires
                lo_n == b & 0xf,
                hi_n == b >> 4,
        ;
        let lo = encode_nibble(lo_n);
        let hi = encode_nibble(hi_n);
        out.push(lo);
        out.push(hi);
        i = i + 1;
    }
    out.push(0);
    assert(out@ =~= encode_spec(command, payload@));
    out
}

/// Decodes the payload of a received frame, without regard to its tag.
pub fn decode(received: &[u8]) -> (r: Vec<u8>)
    ensures
        r@ == decode_spec(received@),
{
    let len = received.len();
    let mut out: Vec<u8> = Vec::new();
    if len == 0 {
        assert(out@ =~= decode_spec(received@));
        return out;
    }
    let count = (len - 1) / 2;
    let mut k: usize = 0;
    while k < count
        invariant
            len == received@.len(),
            len >= 1,
            count == (len - 1) / 2,
            k <= count,
            out@.len() == k,
            forall|j: int|
                0 <= j < k ==> out@[j] == pair_byte(received@[2 * j + 1], received@[2 * j + 2]),
        decreases count - k,
    {
        let lo = decode_symbol(received[2 * k + 1]);
        let hi = decode_symbol(received[2 * k + 2]);
        let b = (lo & 0xf) | ((hi & 0xf) << 4);
        assert(b == (lo + 16 * hi) as u8) by (bit_vector)
            requires
                lo < 16,
                hi < 16,
                b == (lo & 0xf) | ((hi & 0xf) << 4),
        ;
        out.push(b);
        k = k + 1;
    }
    assert(out@ =~= decode_spec(received@));
    out
}

/// Tells whether the first byte of a received frame is the reply tag.
pub fn reply_tag_valid(received: &[u8]) -> (r: bool)
    ensures
        r == reply_tag_ok(received@),
{
    if received.len() == 0 {
        return false;
    }
    let t = decode_symbol(received[0]);
    ((t & 0xf) >> 1) == 7
}


/// A byte splits into its low and high nibble and is rebuilt from them.
proof fn lemma_byte_nibbles(b: u8)
    ensures
        (b & 0xfu8) < 16,
        (b >> 4u8) < 16,
        ((b & 0xfu8) + 16 * (b >> 4u8)) as u8 == b,
{
    assert((b & 0xfu8) < 16 && (b >> 4u8) < 16 && ((b & 0xfu8) + 16 * (b >> 4u8)) as u8 == b)
        by (bit_vector);
}

/// Decoding the frame of any payload that fits a transfer gives the payload
/// back, whatever the command.
pub proof fn lemma_round_trip(command: usize, payload: Seq<u8>)
    requires
        payload.len() <= MAX_PAYLOAD,
    ensures
        decode_spec(encode_spec(command, payload)) == payload,
{
    let f = encode_spec(command, payload);
    let d = decode_spec(f);
    assert forall|k: int| 0 <= k < payload.len() implies d[k] == payload[k] by {
        let b = payload[k];
        lemma_byte_nibbles(b);
        lemma_symbol_round_trip(b & 0xfu8);
        lemma_symbol_round_trip(b >> 4u8);
        assert(f[2 * k + 1] == frame_byte(command, payload, 2 * k + 1));
        assert(f[2 * k + 2] == frame_byte(command, payload, 2 * k + 2));
    }
    assert(d =~= payload);
}

/// A frame is two line bytes per payload byte plus the command byte and the
/// terminator, and it ends in the zero terminator.
pub proof fn lemma_frame_shape(command: usize, payload: Seq<u8>)
    requires
        payload.len() <= MAX_PAYLOAD,
    ensures
        encode_spec(command, payload).len() == 2 * payload.len() + 2,
        encode_spec(command, payload).last() == 0,
{
}

} // verus!
