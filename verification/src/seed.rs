use vstd::prelude::*;

use byteorder::ByteOrder;

verus! {

/// The eight bytes of `n`, least significant first.
pub open spec fn le_bytes_of(n: u64) -> Seq<u8> {
    seq![
        (n % 0x100) as u8,
        ((n / 0x100) % 0x100) as u8,
        ((n / 0x1_0000) % 0x100) as u8,
        ((n / 0x100_0000) % 0x100) as u8,
        ((n / 0x1_0000_0000) % 0x100) as u8,
        ((n / 0x100_0000_0000) % 0x100) as u8,
        ((n / 0x1_0000_0000_0000) % 0x100) as u8,
        ((n / 0x100_0000_0000_0000) % 0x100) as u8,
    ]
}

/// `byteorder::LittleEndian::write_u64` into a buffer of eight bytes, which it fills with
/// `n` least significant byte first; the contract states that layout, taken on trust.
#[verifier::external_body]
fn le_bytes(n: u64) -> (r: [u8; 8])
    ensures
        r@ == le_bytes_of(n),
{
    let mut buf = [0u8; 8];
    byteorder::LittleEndian::write_u64(&mut buf, n);
    buf
}

/// The seed of the random numbers of one frame: the match's seed and the frame number,
/// each in eight little-endian bytes, then sixteen zero bytes. Every replay of a frame
/// draws the same numbers.
pub fn frame_seed(init_seed: u64, current_frame: usize) -> (r: [u8; 32])
    ensures
        r@ == le_bytes_of(init_seed) + le_bytes_of(current_frame as u64) + Seq::new(16, |i: int| 0u8),
{
    let a = le_bytes(init_seed);
    let b = le_bytes(current_frame as u64);
    let r = [
        a[0], a[1], a[2], a[3], a[4], a[5], a[6], a[7],
        b[0], b[1], b[2], b[3], b[4], b[5], b[6], b[7],
        0, 0, 0, 0, 0, 0, 0, 0,
        0, 0, 0, 0, 0, 0, 0, 0,
    ];
    assert(r@ =~= le_bytes_of(init_seed) + le_bytes_of(current_frame as u64) + Seq::new(16, |i: int| 0u8));
    r
}

} // verus!
