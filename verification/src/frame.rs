use vstd::prelude::*;

verus! {

/// One item of work: an interleaved 8-bit RGBA image, row-major, together
/// with the position it takes in the output.
///
/// `index` is assigned by the producer, starting at 0 and incrementing by
/// exactly 1 per accepted frame.  The presentation timestamp of the frame, in
/// seconds, is the exact rational `ts_num / ts_den`, where `ts_num` is the
/// frame's index and `ts_den` is the frame rate the controller was built
/// with.
pub struct Frame {
    pub index: usize,
    pub payload: Vec<u8>,
    pub width: u32,
    pub height: u32,
    pub ts_num: usize,
    pub ts_den: u32,
}

/// Mathematical view of a [`Frame`].
pub ghost struct FrameView {
    pub index: nat,
    pub payload: Seq<u8>,
    pub width: nat,
    pub height: nat,
    pub ts_num: nat,
    pub ts_den: nat,
}

impl View for Frame {
    type V = FrameView;

    closed spec fn view(&self) -> FrameView {
        FrameView {
            index: self.index as nat,
            payload: self.payload@,
            width: self.width as nat,
            height: self.height as nat,
            ts_num: self.ts_num as nat,
            ts_den: self.ts_den as nat,
        }
    }
}

impl FrameView {
    /// A frame is well formed for frame rate `rate` when its payload holds
    /// exactly `width * height` RGBA pixels of 4 bytes each and its timestamp
    /// is the rational `index / rate`.
    pub open spec fn wf(self, rate: nat) -> bool {
        &&& self.payload.len() == self.width * self.height * 4
        &&& self.ts_num == self.index
        &&& self.ts_den == rate
    }
}

impl Frame {
    /// Build the frame that takes position `index` at frame rate `rate`.
    pub fn new(index: usize, payload: Vec<u8>, width: u32, height: u32, rate: u32) -> (f: Frame)
        requires
            payload@.len() == width * height * 4,
            rate > 0,
        ensures
            f@.index == index,
            f@.payload == payload@,
            f@.width == width,
            f@.height == height,
            f@.wf(rate as nat),
    {
        Frame { index, payload, width, height, ts_num: index, ts_den: rate }
    }
}

} // verus!
