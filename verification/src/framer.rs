use vstd::prelude::*;

verus! {

/// One frame cut out of a byte stream, with the framer's word on whether the
/// framing session is over once this frame has been handed out.
#[derive(Debug, PartialEq, Eq)]
pub struct FramedChunk {
    pub chunk: Vec<u8>,
    pub last_chunk: bool,
}

/// The mathematical value of a [`FramedChunk`].
pub struct FramedChunkView {
    pub chunk: Seq<u8>,
    pub last_chunk: bool,
}

impl View for FramedChunk {
    type V = FramedChunkView;

    open spec fn view(&self) -> FramedChunkView {
        FramedChunkView { chunk: self.chunk@, last_chunk: self.last_chunk }
    }
}

/// The frame at the front of a framer's buffer and the number of buffered
/// octets that it takes up.
pub struct FrontFrame {
    pub frame: FramedChunkView,
    pub taken: nat,
}

/// Reassembles a byte stream into frames.
///
/// A framer holds the octets it has received and not yet handed out. Whether
/// a complete frame stands at the front of them, and which, is a function of
/// those octets: the framer's rule, named here by `frame_in`. Neither
/// operation changes the rule. An implementation says what `buffered` and
/// `frame_in` are; one that does not leaves them unspecified.
pub trait Framer: Send {
    /// The octets received and not yet handed out.
    open spec fn buffered(&self) -> Seq<u8> {
        arbitrary()
    }

    /// The framer's rule: the complete frame at the front of `buffer`, if
    /// there is one.
    open spec fn frame_in(&self, buffer: Seq<u8>) -> Option<FrontFrame> {
        arbitrary()
    }

    /// Appends `data` to the buffer.
    fn add_data(&mut self, data: &[u8])
        ensures
            final(self).buffered() == old(self).buffered() + data@,
            forall|buffer: Seq<u8>| #[trigger]
                final(self).frame_in(buffer) == old(self).frame_in(buffer),
    ;

    /// Hands out the frame at the front of the buffer and drops the octets
    /// it took up; without a complete frame the framer is left as it was.
    fn take_frame(&mut self) -> (result: Option<FramedChunk>)
        ensures
            took_front(
                old(self).frame_in(old(self).buffered()),
                old(self).buffered(),
                result,
                final(self).buffered(),
            ),
            forall|buffer: Seq<u8>| #[trigger]
                final(self).frame_in(buffer) == old(self).frame_in(buffer),
    ;
}

/// The mathematical value of an optional frame.
pub open spec fn optional_frame(frame: Option<FramedChunk>) -> Option<FramedChunkView> {
    match frame {
        Some(f) => Some(f@),
        None => None,
    }
}

/// How taking a frame relates the buffer before and after to what is handed
/// out: the front frame leaves with exactly its octets, and nothing moves
/// when there is none.
pub open spec fn took_front(
    front: Option<FrontFrame>,
    before: Seq<u8>,
    handed: Option<FramedChunk>,
    after: Seq<u8>,
) -> bool {
    match front {
        None => handed is None && after == before,
        Some(found) => {
            &&& optional_frame(handed) == Some(found.frame)
            &&& found.taken <= before.len()
            &&& after == before.skip(found.taken as int)
        },
    }
}

} // verus!
