use vstd::prelude::*;

verus! {

/// The four bytes of a frame's length prefix: the value in big-endian order.
pub open spec fn spec_len_prefix(n: u32) -> Seq<u8> {
    seq![
        (n >> 24) as u8,
        ((n >> 16) & 0xff) as u8,
        ((n >> 8) & 0xff) as u8,
        (n & 0xff) as u8,
    ]
}

/// The length that four prefix bytes encode, read big-endian.
pub open spec fn spec_prefix_value(b0: u8, b1: u8, b2: u8, b3: u8) -> u32 {
    ((b0 as u32) << 24) | ((b1 as u32) << 16) | ((b2 as u32) << 8) | (b3 as u32)
}

/// A payload framed for the wire: its length prefix, then the payload itself.
pub open spec fn spec_encode_frame(p: Seq<u8>) -> Seq<u8> {
    spec_len_prefix(p.len() as u32) + p
}

/// Reading the prefix of an encoded length gives that length back.
pub proof fn lemma_prefix_roundtrip(n: u32)
    ensures
        spec_prefix_value(
            (n >> 24) as u8,
            ((n >> 16) & 0xff) as u8,
            ((n >> 8) & 0xff) as u8,
            (n & 0xff) as u8,
        ) == n,
{
    assert((((((n >> 24) as u8) as u32) << 24) | (((((n >> 16) & 0xff) as u8) as u32) << 16)
        | (((((n >> 8) & 0xff) as u8) as u32) << 8) | (((n & 0xff) as u8) as u32)) == n)
        by (bit_vector);
}

/// Encode the 4-byte big-endian length prefix of a frame.
pub fn encode_prefix(n: u32) -> (r: Vec<u8>)
    ensures
        r@ == spec_len_prefix(n),
{
    proof {
        assert(n >> 24 <= 0xff && (n >> 16) & 0xff <= 0xff && (n >> 8) & 0xff <= 0xff
            && n & 0xff <= 0xff) by (bit_vector);
    }
    let mut r: Vec<u8> = Vec::new();
    r.push((n >> 24) as u8);
    r.push(((n >> 16) & 0xff) as u8);
    r.push(((n >> 8) & 0xff) as u8);
    r.push((n & 0xff) as u8);
    proof {
        assert(r@ =~= spec_len_prefix(n));
    }
    r
}

/// Decode a 4-byte big-endian length prefix.
pub fn decode_prefix(b: &[u8]) -> (n: u32)
    requires
        b@.len() == 4,
    ensures
        n == spec_prefix_value(b@[0], b@[1], b@[2], b@[3]),
{
    ((b[0] as u32) << 24) | ((b[1] as u32) << 16) | ((b[2] as u32) << 8) | (b[3] as u32)
}

/// Frame a payload for the wire. A zero-length payload frames to the bare
/// termination marker.
pub fn encode_frame(payload: &[u8]) -> (r: Vec<u8>)
    requires
        payload@.len() < 0x1_0000_0000,
    ensures
        r@ == spec_encode_frame(payload@),
{
    let n = payload.len() as u32;
    let mut r = encode_prefix(n);
    let mut i: usize = 0;
    while i < payload.len()
        invariant
            i <= payload@.len(),
            payload@.len() < 0x1_0000_0000,
            n == payload@.len() as u32,
            r@ == spec_len_prefix(n) + payload@.take(i as int),
        decreases payload@.len() - i,
    {
        r.push(payload[i]);
        proof {
            assert(spec_len_prefix(n) + payload@.take(i as int) + seq![payload@[i as int]]
                =~= spec_len_prefix(n) + payload@.take(i as int + 1));
        }
        i = i + 1;
    }
    proof {
        assert(payload@.take(payload@.len() as int) =~= payload@);
    }
    r
}

/// The termination marker: a frame whose length prefix is zero and which
/// carries no payload.
pub fn terminator_frame() -> (r: Vec<u8>)
    ensures
        r@ == spec_len_prefix(0),
{
    encode_prefix(0)
}

/// What the front of a received byte sequence holds.
pub enum SpecFrameParse {
    /// Not yet a complete frame; more bytes must arrive first.
    NeedMore,
    /// A zero length prefix: the clean termination marker.
    Terminator,
    /// A complete frame: its payload, and how many bytes it occupied.
    Frame(Seq<u8>, int),
}

/// Read one frame from the front of a received byte sequence.
pub open spec fn spec_parse_frame(data: Seq<u8>) -> SpecFrameParse {
    if data.len() < 4 {
        SpecFrameParse::NeedMore
    } else {
        let n = spec_prefix_value(data[0], data[1], data[2], data[3]) as int;
        if n == 0 {
            SpecFrameParse::Terminator
        } else if data.len() < 4 + n {
            SpecFrameParse::NeedMore
        } else {
            SpecFrameParse::Frame(data.subrange(4, 4 + n), 4 + n)
        }
    }
}

/// Executable counterpart of `spec_parse_frame`.
pub enum FrameParse {
    /// Not yet a complete frame; more bytes must arrive first.
    NeedMore,
    /// A zero length prefix: the clean termination marker.
    Terminator,
    /// A complete frame: its payload, and how many bytes it occupied.
    Frame(Vec<u8>, usize),
}

/// Read one frame from the front of a buffer of received bytes.
pub fn parse_frame(data: &Vec<u8>) -> (r: FrameParse)
    ensures
        match r {
            FrameParse::NeedMore => spec_parse_frame(data@) is NeedMore,
            FrameParse::Terminator => spec_parse_frame(data@) is Terminator,
            FrameParse::Frame(p, c) => (spec_parse_frame(data@) matches SpecFrameParse::Frame(
                sp,
                sc,
            ) && p@ == sp && c == sc),
        },
{
    if data.len() < 4 {
        return FrameParse::NeedMore;
    }
    let prefix = vstd::slice::slice_subrange(data.as_slice(), 0, 4);
    let n = decode_prefix(prefix);
    if n == 0 {
        return FrameParse::Terminator;
    }
    if (n as usize) > data.len() - 4 {
        return FrameParse::NeedMore;
    }
    let end: usize = 4 + (n as usize);
    let payload = vstd::slice::slice_to_vec(vstd::slice::slice_subrange(data.as_slice(), 4, end));
    FrameParse::Frame(payload, end)
}

/// Round trip: parsing an encoded frame gives back exactly the payload that
/// was framed; the empty payload frames to the termination marker.
pub proof fn lemma_frame_round_trip(p: Seq<u8>)
    requires
        p.len() < 0x1_0000_0000,
    ensures
        p.len() > 0 ==> spec_parse_frame(spec_encode_frame(p)) == SpecFrameParse::Frame(
            p,
            4 + p.len() as int,
        ),
        p.len() == 0 ==> spec_parse_frame(spec_encode_frame(p)) is Terminator,
{
    let n = p.len() as u32;
    let data = spec_encode_frame(p);
    assert(data[0] == (n >> 24) as u8);
    assert(data[1] == ((n >> 16) & 0xff) as u8);
    assert(data[2] == ((n >> 8) & 0xff) as u8);
    assert(data[3] == (n & 0xff) as u8);
    lemma_prefix_roundtrip(n);
    if p.len() > 0 {
        assert(data.subrange(4, 4 + p.len() as int) =~= p);
    }
}

} // verus!
