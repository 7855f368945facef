//! Wire replies of the Fastboot protocol: a 4-byte tag followed by an
//! ASCII payload, truncated to the 256-byte response ceiling.

use vstd::prelude::*;
use vstd::string::StringSliceAdditionalSpecFns;

verus! {

/// The hard ceiling on the size of an encoded reply, in bytes.
pub const MAX_REPLY_BYTES: usize = 256;

/// One protocol reply, as handed to the reply encoder.
#[derive(Clone, Copy, Debug)]
pub enum FbReply<'a> {
    Info(&'a str),
    Text(&'a str),
    Fail(&'a str),
    Okay(&'a str),
    Data(u32),
}

/// The ASCII byte for one hex nibble, lowercase.
pub open spec fn spec_hex_digit_byte(d: u32) -> u8 {
    if d < 10 {
        (0x30 + d) as u8
    } else {
        (0x57 + d) as u8
    }
}

/// The eight lowercase hex digits of `n`, most significant nibble first.
pub open spec fn spec_hex8(n: u32) -> Seq<u8> {
    Seq::new(8, |i: int| spec_hex_digit_byte((n >> ((28 - 4 * i) as u32)) & 0xf))
}

/// The untruncated encoding of a reply: tag, then payload.
pub open spec fn spec_reply_raw(r: FbReply<'_>) -> Seq<u8> {
    match r {
        FbReply::Info(v) => seq![0x49u8, 0x4e, 0x46, 0x4f] + v.spec_bytes(),
        FbReply::Text(v) => seq![0x54u8, 0x45, 0x58, 0x54] + v.spec_bytes(),
        FbReply::Fail(v) => seq![0x46u8, 0x41, 0x49, 0x4c] + v.spec_bytes(),
        FbReply::Okay(v) => seq![0x4fu8, 0x4b, 0x41, 0x59] + v.spec_bytes(),
        FbReply::Data(n) => seq![0x44u8, 0x41, 0x54, 0x41] + spec_hex8(n),
    }
}

/// What goes on the wire: the raw encoding, cut at the response ceiling.
pub open spec fn spec_reply_bytes(r: FbReply<'_>) -> Seq<u8> {
    let raw = spec_reply_raw(r);
    if raw.len() <= MAX_REPLY_BYTES {
        raw
    } else {
        raw.take(MAX_REPLY_BYTES as int)
    }
}

/// Does `r` carry the `INFO` tag with text `t`?
pub open spec fn is_info(r: FbReply<'_>, t: Seq<char>) -> bool {
    r matches FbReply::Info(s) && s@ == t
}

/// Does `r` carry the `FAIL` tag with text `t`?
pub open spec fn is_fail(r: FbReply<'_>, t: Seq<char>) -> bool {
    r matches FbReply::Fail(s) && s@ == t
}

/// Does `r` carry the `OKAY` tag with text `t`?
pub open spec fn is_okay(r: FbReply<'_>, t: Seq<char>) -> bool {
    r matches FbReply::Okay(s) && s@ == t
}

/// Does `r` announce a transfer of `n` bytes?
pub open spec fn is_data(r: FbReply<'_>, n: u32) -> bool {
    r matches FbReply::Data(m) && m == n
}

fn push_tag(out: &mut Vec<u8>, a: u8, b: u8, c: u8, d: u8)
    ensures
        final(out)@ == old(out)@ + seq![a, b, c, d],
{
    out.push(a);
    out.push(b);
    out.push(c);
    out.push(d);
    assert(out@ =~= old(out)@ + seq![a, b, c, d]);
}

fn push_str_bytes(out: &mut Vec<u8>, v: &str)
    ensures
        final(out)@ == old(out)@ + v.spec_bytes(),
{
    let bs = v.as_bytes();
    out.extend_from_slice(bs);
    assert(out@ =~= old(out)@ + v.spec_bytes());
}

fn push_hex8(out: &mut Vec<u8>, n: u32)
    ensures
        final(out)@ == old(out)@ + spec_hex8(n),
{
    let mut i: usize = 0;
    while i < 8
        invariant
            i <= 8,
            out@ == old(out)@ + spec_hex8(n).take(i as int),
        decreases 8 - i,
    {
        let shift: u32 = 28 - 4 * (i as u32);
        let nib: u32 = (n >> shift) & 0xf;
        assert((n >> shift) & 0xf < 16) by (bit_vector);
        let digit: u8 = if nib < 10 {
            0x30 + (nib as u8)
        } else {
            0x57 + (nib as u8)
        };
        assert(digit == spec_hex_digit_byte(nib));
        assert(nib == ((n >> ((28 - 4 * (i as int)) as u32)) & 0xf));
        assert(spec_hex8(n)[i as int] == digit);
        out.push(digit);
        assert(out@ =~= old(out)@ + spec_hex8(n).take(i + 1));
        i = i + 1;
    }
    assert(spec_hex8(n).take(8) =~= spec_hex8(n));
}

impl FbReply<'_> {
    /// Encode this reply for the wire: the 4-character tag, the payload
    /// (eight lowercase hex digits for `Data`), truncated to at most
    /// `MAX_REPLY_BYTES` bytes. Truncation, not rejection: the protocol
    /// has a hard response-size ceiling.
    pub fn to_bytes(self) -> (r: Vec<u8>)
        ensures
            r@ == spec_reply_bytes(self),
            r@.len() <= MAX_REPLY_BYTES,
    {
        let mut out: Vec<u8> = Vec::new();
        match self {
            FbReply::Info(v) => {
                push_tag(&mut out, 0x49, 0x4e, 0x46, 0x4f);
                push_str_bytes(&mut out, v);
            },
            FbReply::Text(v) => {
                push_tag(&mut out, 0x54, 0x45, 0x58, 0x54);
                push_str_bytes(&mut out, v);
            },
            FbReply::Fail(v) => {
                push_tag(&mut out, 0x46, 0x41, 0x49, 0x4c);
                push_str_bytes(&mut out, v);
            },
            FbReply::Okay(v) => {
                push_tag(&mut out, 0x4f, 0x4b, 0x41, 0x59);
                push_str_bytes(&mut out, v);
            },
            FbReply::Data(n) => {
                push_tag(&mut out, 0x44, 0x41, 0x54, 0x41);
                push_hex8(&mut out, n);
            },
        }
        assert(out@ =~= spec_reply_raw(self));
        out.truncate(MAX_REPLY_BYTES);
        assert(out@ =~= spec_reply_bytes(self));
        out
    }
}

} // verus!
