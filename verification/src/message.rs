use vstd::prelude::*;
use crate::metadata::le16;

verus! {

/// Size in bytes of the message header: `source` and `type`, two 16-bit
/// words.
pub const MESSAGE_SIZE: usize = 4;

/// The header of the MINIX IPC message block found at `[BX]` when the guest
/// raises an interrupt.
#[derive(Clone, Copy, Debug)]
pub struct Message {
    pub offset: usize,
    pub source: u16,
    pub message_type: u16,
}

/// The 12-byte detail block that follows the header: six 16-bit words,
/// interpreted per system call.
#[derive(Clone, Copy, Debug)]
pub struct Detail1 {
    pub detail: [u16; 6],
}

impl Message {
    /// Reads the message header at `offset` in the data segment.
    pub fn load(data: &Vec<u8>, offset: usize) -> (r: Message)
        requires
            offset + 4 <= data.len(),
        ensures
            r.offset == offset,
            r.source == le16(data@, offset as int),
            r.message_type == le16(data@, offset + 2),
    {
        let source: u16 = (data[offset] as u16) + 256 * (data[offset + 1] as u16);
        let message_type: u16 = (data[offset + 2] as u16) + 256 * (data[offset + 3] as u16);
        Message { offset, source, message_type }
    }

    /// Reads the six detail words that follow this message's header.
    pub fn load_detail1(&self, data: &Vec<u8>) -> (r: Detail1)
        requires
            self.offset + MESSAGE_SIZE + 12 <= data.len(),
        ensures
            forall|i: int|
                0 <= i < 6 ==> r.detail@[i] == le16(data@, self.offset + MESSAGE_SIZE + 2 * i),
    {
        let base: usize = self.offset + MESSAGE_SIZE;
        let detail: [u16; 6] = [
            (data[base] as u16) + 256 * (data[base + 1] as u16),
            (data[base + 2] as u16) + 256 * (data[base + 3] as u16),
            (data[base + 4] as u16) + 256 * (data[base + 5] as u16),
            (data[base + 6] as u16) + 256 * (data[base + 7] as u16),
            (data[base + 8] as u16) + 256 * (data[base + 9] as u16),
            (data[base + 10] as u16) + 256 * (data[base + 11] as u16),
        ];
        Detail1 { detail }
    }
}

impl Detail1 {
    pub fn m1i1(&self) -> (r: u16)
        ensures
            r == self.detail@[0],
    {
        self.detail[0]
    }

    pub fn m1i2(&self) -> (r: u16)
        ensures
            r == self.detail@[1],
    {
        self.detail[1]
    }

    pub fn m1i3(&self) -> (r: u16)
        ensures
            r == self.detail@[2],
    {
        self.detail[2]
    }

    pub fn m1p1(&self) -> (r: u16)
        ensures
            r == self.detail@[3],
    {
        self.detail[3]
    }

    pub fn m1p2(&self) -> (r: u16)
        ensures
            r == self.detail@[4],
    {
        self.detail[4]
    }

    pub fn m1p3(&self) -> (r: u16)
        ensures
            r == self.detail@[5],
    {
        self.detail[5]
    }
}

} // verus!
