use vstd::prelude::*;

verus! {

/// The little-endian 16-bit word at `data[i]`, `data[i + 1]`.
pub open spec fn le16(data: Seq<u8>, i: int) -> u16 {
    (data[i] + 256 * data[i + 1]) as u16
}

/// The little-endian 32-bit word starting at `data[i]`.
pub open spec fn le32(data: Seq<u8>, i: int) -> int {
    data[i] + 0x100 * data[i + 1] + 0x1_0000 * data[i + 2] + 0x100_0000 * data[i + 3]
}

/// The 32-byte executable header: sizes, entry point and bookkeeping
/// fields. Only `hdr_len`, `text_size`, `data_size` and `total` drive the
/// machine; the rest are retained but unused.
#[derive(Clone, Copy, Debug)]
pub struct Metadata {
    pub magic: [u8; 2],
    pub flags: u8,
    pub cpu: u8,
    pub hdr_len: u8,
    pub unused: u8,
    pub version: u16,
    pub text_size: usize,
    pub data_size: usize,
    pub bss_size: usize,
    pub entry: usize,
    pub total: usize,
    pub syms: usize,
}

impl Metadata {
    /// Decodes the fixed 32-byte little-endian header from the front of the
    /// executable image.
    pub fn from_bytes(executable: &Vec<u8>) -> (r: Metadata)
        requires
            executable.len() >= 32,
        ensures
            r.magic@[0] == executable@[0] && r.magic@[1] == executable@[1],
            r.flags == executable@[2],
            r.cpu == executable@[3],
            r.hdr_len == executable@[4],
            r.unused == executable@[5],
            r.version == le16(executable@, 6),
            r.text_size == le32(executable@, 8),
            r.data_size == le32(executable@, 12),
            r.bss_size == le32(executable@, 16),
            r.entry == le32(executable@, 20),
            r.total == le32(executable@, 24),
            r.syms == le32(executable@, 28),
    {
        Metadata {
            magic: [executable[0], executable[1]],
            flags: executable[2],
            cpu: executable[3],
            hdr_len: executable[4],
            unused: executable[5],
            version: read_le16(executable, 6),
            text_size: read_le32(executable, 8),
            data_size: read_le32(executable, 12),
            bss_size: read_le32(executable, 16),
            entry: read_le32(executable, 20),
            total: read_le32(executable, 24),
            syms: read_le32(executable, 28),
        }
    }
}

fn read_le16(data: &Vec<u8>, i: usize) -> (r: u16)
    requires
        i + 2 <= data.len(),
    ensures
        r == le16(data@, i as int),
{
    (data[i] as u16) + 256 * (data[i + 1] as u16)
}

fn read_le32(data: &Vec<u8>, i: usize) -> (r: usize)
    requires
        i + 4 <= data.len(),
    ensures
        r == le32(data@, i as int),
{
    (data[i] as usize) + 0x100 * (data[i + 1] as usize) + 0x1_0000 * (data[i + 2] as usize)
        + 0x100_0000 * (data[i + 3] as usize)
}

} // verus!
