//! Little-endian readers for byte buffers.
use vstd::prelude::*;

verus! {

/// The unsigned value of two little-endian bytes.
pub open spec fn le_u16(b0: u8, b1: u8) -> int {
    b0 as int + 256 * (b1 as int)
}

/// The unsigned value of four little-endian bytes.
pub open spec fn le_u32(b0: u8, b1: u8, b2: u8, b3: u8) -> int {
    b0 as int + 256 * (b1 as int) + 65536 * (b2 as int) + 16777216 * (b3 as int)
}

/// Reads a little-endian `u16` from the first two bytes.
pub fn buf_to_u16(buf: &[u8]) -> (r: u16)
    requires
        buf@.len() >= 2,
    ensures
        r as int == le_u16(buf@[0], buf@[1]),
{
    let b0 = buf[0];
    let b1 = buf[1];
    (b0 as u16) + (b1 as u16) * 256
}

/// Reads a little-endian `u32` from the first four bytes.
pub fn buf_to_u32(buf: &[u8]) -> (r: u32)
    requires
        buf@.len() >= 4,
    ensures
        r as int == le_u32(buf@[0], buf@[1], buf@[2], buf@[3]),
{
    let b0 = buf[0] as u32;
    let b1 = buf[1] as u32;
    let b2 = buf[2] as u32;
    let b3 = buf[3] as u32;
    b0 + b1 * 256 + b2 * 65536 + b3 * 16777216
}

/// Reads a little-endian two's complement `i32` from the first four bytes.
pub fn buf_to_i32(buf: &[u8]) -> (r: i32)
    requires
        buf@.len() >= 4,
    ensures
        r as int == if le_u32(buf@[0], buf@[1], buf@[2], buf@[3]) < 0x8000_0000 {
            le_u32(buf@[0], buf@[1], buf@[2], buf@[3])
        } else {
            le_u32(buf@[0], buf@[1], buf@[2], buf@[3]) - 0x1_0000_0000
        },
{
    let u = buf_to_u32(buf);
    if u < 0x8000_0000 {
        u as i32
    } else {
        ((u as i64) - 0x1_0000_0000) as i32
    }
}

/// The leading printable ASCII bytes (32 to 127) of `buf`, at most `maxlen` of them.
pub open spec fn ascii_prefix_len(buf: Seq<u8>, maxlen: int) -> int
    decreases buf.len(),
{
    if buf.len() == 0 || maxlen <= 0 || !(32 <= buf[0] <= 127) {
        0
    } else {
        1 + ascii_prefix_len(buf.drop_first(), maxlen - 1)
    }
}

/// The text made of the leading printable ASCII bytes of `buf`, at most `maxlen`.
pub open spec fn ascii_text_of(buf: Seq<u8>, maxlen: int) -> Seq<char> {
    Seq::new(ascii_prefix_len(buf, maxlen) as nat, |i: int| buf[i] as char)
}

/// Reads a text: the leading printable ASCII bytes of `buf`, at most `maxlen`.
pub fn buf_to_ascii(buf: &[u8], maxlen: usize) -> (r: String)
    ensures
        r@ == ascii_text_of(buf@, maxlen as int),
{
    let mut len: usize = 0;
    assert(buf@.skip(0) =~= buf@);
    while len < maxlen && len < buf.len() && buf[len] >= 32 && buf[len] <= 127
        invariant
            0 <= len <= maxlen,
            len <= buf@.len(),
            forall|k: int| 0 <= k < len ==> 32 <= #[trigger] buf@[k] <= 127,
            ascii_prefix_len(buf@, maxlen as int) == len + ascii_prefix_len(buf@.skip(len as int), maxlen - len),
        decreases maxlen - len,
    {
        proof {
            assert(buf@.skip(len as int).drop_first() =~= buf@.skip(len + 1));
        }
        len += 1;
    }
    proof {
        assert(ascii_prefix_len(buf@.skip(len as int), maxlen - len) == 0);
    }
    let r = ascii_text(buf, len);
    assert(r@ =~= ascii_text_of(buf@, maxlen as int));
    r
}

/// Relies on `std::str::from_utf8`: bytes below 128 are ASCII, valid UTF-8
/// that decodes to one character per byte.
#[verifier::external_body]
fn ascii_text(buf: &[u8], len: usize) -> (r: String)
    requires
        len <= buf@.len(),
        forall|k: int| 0 <= k < len ==> 32 <= #[trigger] buf@[k] <= 127,
    ensures
        r@.len() == len,
        forall|i: int| 0 <= i < len ==> r@[i] == buf@[i] as char,
{
    String::from(std::str::from_utf8(&buf[0..len]).unwrap())
}

} // verus!
