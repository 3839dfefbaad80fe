use crate::framer::{FramedChunk, FramedChunkView, Framer, FrontFrame};
use vstd::prelude::*;

verus! {

/// The octet that ends a line.
pub const LINE_END: u8 = 10;

/// Whether the first line of the buffer ends at position `end`.
pub open spec fn first_line_ends_at(buffer: Seq<u8>, end: int) -> bool {
    &&& 0 <= end < buffer.len()
    &&& buffer[end] == LINE_END
    &&& forall|i: int| 0 <= i < end ==> buffer[i] != LINE_END
}

/// The first line of the buffer, without the octet that ends it, as a frame,
/// if the buffer holds a whole line.
pub open spec fn first_line(buffer: Seq<u8>) -> Option<FrontFrame> {
    if exists|end: int| first_line_ends_at(buffer, end) {
        let end = choose|end: int| first_line_ends_at(buffer, end);
        Some(
            FrontFrame {
                frame: FramedChunkView { chunk: buffer.subrange(0, end), last_chunk: false },
                taken: (end + 1) as nat,
            },
        )
    } else {
        None
    }
}

/// A framer for streams in which each frame is one line: the frame is the
/// line without the newline that ends it. No frame is ever the last.
pub struct LineFramer {
    buffer: Vec<u8>,
}

impl Framer for LineFramer {
    closed spec fn buffered(&self) -> Seq<u8> {
        self.buffer@
    }

    open spec fn frame_in(&self, buffer: Seq<u8>) -> Option<FrontFrame> {
        first_line(buffer)
    }

    fn add_data(&mut self, data: &[u8]) {
        let mut i: usize = 0;
        while i < data.len()
            invariant
                i <= data.len(),
                self.buffer@ == old(self).buffer@ + data@.subrange(0, i as int),
            decreases data.len() - i,
        {
            self.buffer.push(data[i]);
            i = i + 1;
        }
    }

    fn take_frame(&mut self) -> (result: Option<FramedChunk>) {
        let mut end: usize = 0;
        while end < self.buffer.len() && self.buffer[end] != LINE_END
            invariant
                end <= self.buffer.len(),
                self.buffer@ == old(self).buffer@,
                forall|i: int| 0 <= i < end ==> self.buffer@[i] != LINE_END,
            decreases self.buffer.len() - end,
        {
            end = end + 1;
        }
        if end == self.buffer.len() {
            return None;
        }
        assert(first_line_ends_at(self.buffer@, end as int));
        let rest = self.buffer.split_off(end + 1);
        let _ = self.buffer.pop();
        let mut chunk: Vec<u8> = rest;
        std::mem::swap(&mut self.buffer, &mut chunk);
        assert(chunk@ =~= old(self).buffer@.subrange(0, end as int));
        Some(FramedChunk { chunk, last_chunk: false })
    }
}

impl LineFramer {
    /// A framer that holds nothing yet.
    pub fn new() -> (result: LineFramer)
        ensures
            result.buffered() == Seq::<u8>::empty(),
    {
        LineFramer { buffer: Vec::new() }
    }
}

} // verus!
