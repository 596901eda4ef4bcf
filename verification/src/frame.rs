//! Captured screen frames: BGRA pixel data with geometry and timing.

use vstd::prelude::*;

verus! {

/// One captured frame: BGRA pixel data, top-down, four bytes per pixel,
/// with a per-capture sequence number and a wall-clock timestamp.
#[derive(Debug, Clone)]
pub struct Frame {
    /// Raw pixel data in BGRA format
    pub data: Vec<u8>,
    /// Frame width
    pub width: u32,
    /// Frame height
    pub height: u32,
    /// Frame sequence number
    pub sequence: u64,
    /// Timestamp in microseconds
    pub timestamp_us: u64,
}

impl Frame {
    /// Wraps BGRA pixel data as a frame, stamped with the current wall
    /// clock.
    pub fn new(data: Vec<u8>, width: u32, height: u32, sequence: u64) -> (r: Self)
        ensures
            r.data@ == data@,
            r.width == width,
            r.height == height,
            r.sequence == sequence,
    {
        let timestamp_us = crate::clock::now_micros();
        Frame { data, width, height, sequence, timestamp_us }
    }

    /// The raw pixel bytes.
    pub fn data(&self) -> (r: &[u8])
        ensures
            r@ == self.data@,
    {
        self.data.as_slice()
    }

    /// Bytes per row: four per pixel.
    pub fn stride(&self) -> (r: usize)
        requires
            self.width * 4 <= usize::MAX,
        ensures
            r == self.width * 4,
    {
        (self.width as usize) * 4
    }

    /// Total size of the pixel data in bytes.
    pub fn size(&self) -> (r: usize)
        ensures
            r == self.data@.len(),
    {
        self.data.len()
    }

    /// Whether the buffer is at least as large as the dimensions demand and
    /// both dimensions are positive.
    pub fn is_valid(&self) -> (r: bool)
        ensures
            r == (self.data@.len() >= self.width * self.height * 4 && self.width > 0 && self.height
                > 0),
    {
        proof {
            assert((self.width as int) * (self.height as int) * 4 < 0x100000000000000000000000000000000)
                by (nonlinear_arith)
                requires
                    0 <= self.width < 0x100000000,
                    0 <= self.height < 0x100000000,
            ;
        }
        let expected: u128 = (self.width as u128) * (self.height as u128) * 4;
        (self.data.len() as u128) >= expected && self.width > 0 && self.height > 0
    }
}

} // verus!
