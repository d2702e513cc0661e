//! Register traffic on the two-wire bus, described as plain values.
use vstd::prelude::*;

verus! {

/// Signed value of the 16-bit two's complement word whose high byte is `hi`
/// and whose low byte is `lo`.
pub open spec fn word_value(hi: u8, lo: u8) -> int {
    if hi < 128 {
        256 * hi + lo
    } else {
        256 * hi + lo - 65536
    }
}

/// Combines a high and a low output byte into a signed sample.
pub fn word(hi: u8, lo: u8) -> (r: i16)
    ensures
        r == word_value(hi, lo),
{
    let w: u16 = ((hi as u16) << 8) | (lo as u16);
    assert((((hi as u16) << 8) | (lo as u16)) as i16 == word_value(hi, lo)) by (bit_vector);
    w as i16
}

/// The three signed words of six output bytes stored low byte first.
pub open spec fn low_first(data: Seq<u8>) -> Seq<int> {
    seq![word_value(data[1], data[0]), word_value(data[3], data[2]), word_value(data[5], data[4])]
}

/// Assembles three signed words from six bytes stored low byte first.
pub fn low_first_words(data: [u8; 6]) -> (r: [i16; 3])
    ensures
        r@.map_values(|v: i16| v as int) == low_first(data@),
{
    let x = word(data[1], data[0]);
    let y = word(data[3], data[2]);
    let z = word(data[5], data[4]);
    let r = [x, y, z];
    assert(r@.map_values(|v: i16| v as int) =~= low_first(data@));
    r
}

/// Register auto-increment flag of a multi-byte read request.
pub const AUTO_INCREMENT: u8 = 0x80;

/// A single-byte register write: the bytes `[reg, val]` sent to the device
/// at bus address `addr`.
#[derive(Debug, Clone, Copy, PartialEq, Eq)]
pub struct RegWrite {
    pub addr: u8,
    pub reg: u8,
    pub val: u8,
}

/// A combined write-then-read: the byte `reg` sent to the device at bus
/// address `addr`, then `len` bytes read back.
#[derive(Debug, Clone, Copy, PartialEq, Eq)]
pub struct RegRead {
    pub addr: u8,
    pub reg: u8,
    pub len: usize,
}

} // verus!
