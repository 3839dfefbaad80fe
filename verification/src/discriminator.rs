use crate::framer::{Framer, FrontFrame};
use crate::logger::{log_line, Logger};
use crate::masquerader::{
    PulseCloakueradeError, PulseCloakueradeErrorView, XYZPROTECT_PulseCloakuerader,
};
use crate::text::texts;
use vstd::prelude::*;
use vstd::string::*;

verus! {

/// A payload that a masquerader recovered from one frame.
#[derive(Debug, PartialEq, Eq, Clone)]
pub struct UnmaskedChunk {
    pub chunk: Vec<u8>,
    pub last_chunk: bool,
    pub sequenced: bool,
}

/// The mathematical value of an [`UnmaskedChunk`].
pub struct UnmaskedChunkView {
    pub chunk: Seq<u8>,
    pub last_chunk: bool,
    pub sequenced: bool,
}

impl View for UnmaskedChunk {
    type V = UnmaskedChunkView;

    open spec fn view(&self) -> UnmaskedChunkView {
        UnmaskedChunkView {
            chunk: self.chunk@,
            last_chunk: self.last_chunk,
            sequenced: self.sequenced,
        }
    }
}

impl UnmaskedChunk {
    /// A chunk with the given payload and flags.
    pub fn new(chunk: Vec<u8>, last_chunk: bool, sequenced: bool) -> (result: UnmaskedChunk)
        ensures
            result.chunk == chunk,
            result.last_chunk == last_chunk,
            result.sequenced == sequenced,
    {
        UnmaskedChunk { chunk, last_chunk, sequenced }
    }
}

/// The mathematical value of an optional chunk.
pub open spec fn optional_chunk(chunk: Option<UnmaskedChunk>) -> Option<UnmaskedChunkView> {
    match chunk {
        Some(c) => Some(c@),
        None => None,
    }
}

/// The masqueraders of a discriminator, in the order in which they are tried.
pub type Masqueraders = Seq<Box<dyn XYZPROTECT_PulseCloakuerader>>;

/// What the masqueraders from position `start` on make of a frame: the chunk
/// of the first one that unmasks it, or nothing when none does.
pub open spec fn delivered_from(codecs: Masqueraders, frame: Seq<u8>, start: int) -> Option<
    UnmaskedChunkView,
>
    decreases codecs.len() - start,
{
    if start < 0 || start >= codecs.len() {
        None
    } else {
        match codecs[start].unmasked(frame) {
            Ok(chunk) => Some(chunk),
            Err(_) => delivered_from(codecs, frame, start + 1),
        }
    }
}

/// The warnings that the masqueraders from position `start` on draw for a
/// frame: one for each that fails otherwise than by declining, up to the
/// first that unmasks the frame.
pub open spec fn warnings_from(codecs: Masqueraders, frame: Seq<u8>, name: Seq<char>, start: int) -> Seq<
    Seq<char>,
>
    decreases codecs.len() - start,
{
    if start < 0 || start >= codecs.len() {
        Seq::empty()
    } else {
        match codecs[start].unmasked(frame) {
            Ok(_) => Seq::empty(),
            Err(PulseCloakueradeErrorView::NotThis) => warnings_from(codecs, frame, name, start + 1),
            Err(e) => seq![log_line("WARN"@, name, e.rendering())] + warnings_from(
                codecs,
                frame,
                name,
                start + 1,
            ),
        }
    }
}

/// The chunk that a list of masqueraders delivers for a frame.
pub open spec fn delivered(codecs: Masqueraders, frame: Seq<u8>) -> Option<UnmaskedChunkView> {
    delivered_from(codecs, frame, 0)
}

/// The warnings that a list of masqueraders draws for a frame.
pub open spec fn warnings(codecs: Masqueraders, frame: Seq<u8>, name: Seq<char>) -> Seq<Seq<char>> {
    warnings_from(codecs, frame, name, 0)
}

/// The position of the first masquerader that unmasks the frame: every one
/// before it fails.
pub open spec fn first_success(codecs: Masqueraders, frame: Seq<u8>, winner: int) -> bool {
    &&& 0 <= winner < codecs.len()
    &&& codecs[winner].unmasked(frame) is Ok
    &&& forall|j: int| 0 <= j < winner ==> (#[trigger] codecs[j]).unmasked(frame) is Err
}

/// From any position up to the first success, what is delivered is the
/// chunk of the first success.
proof fn lemma_delivered_up_to(codecs: Masqueraders, frame: Seq<u8>, winner: int, start: int)
    requires
        first_success(codecs, frame, winner),
        0 <= start <= winner,
    ensures
        delivered_from(codecs, frame, start) == Some(codecs[winner].unmasked(frame)->Ok_0),
    decreases winner - start,
{
    if start < winner {
        lemma_delivered_up_to(codecs, frame, winner, start + 1);
    }
}

/// Priority is positional: the first masquerader that unmasks a frame
/// decides what is delivered, whatever the later ones would make of it.
pub proof fn lemma_first_success_is_delivered(codecs: Masqueraders, frame: Seq<u8>, winner: int)
    requires
        first_success(codecs, frame, winner),
    ensures
        delivered(codecs, frame) == Some(codecs[winner].unmasked(frame)->Ok_0),
{
    lemma_delivered_up_to(codecs, frame, winner, 0);
}

/// Whether every masquerader declines the frame.
pub open spec fn all_decline(codecs: Masqueraders, frame: Seq<u8>) -> bool {
    forall|j: int|
        0 <= j < codecs.len() ==> (#[trigger] codecs[j]).unmasked(frame) == Err::<
            UnmaskedChunkView,
            PulseCloakueradeErrorView,
        >(PulseCloakueradeErrorView::NotThis)
}

proof fn lemma_silent_from(codecs: Masqueraders, frame: Seq<u8>, name: Seq<char>, start: int)
    requires
        all_decline(codecs, frame),
        0 <= start,
    ensures
        delivered_from(codecs, frame, start) is None,
        warnings_from(codecs, frame, name, start) == Seq::<Seq<char>>::empty(),
    decreases codecs.len() - start,
{
    if start < codecs.len() {
        lemma_silent_from(codecs, frame, name, start + 1);
    }
}

/// When every masquerader declines a frame, nothing is delivered and no
/// warning is logged.
pub proof fn lemma_all_decline_is_silent(codecs: Masqueraders, frame: Seq<u8>, name: Seq<char>)
    requires
        all_decline(codecs, frame),
    ensures
        delivered(codecs, frame) is None,
        warnings(codecs, frame, name) == Seq::<Seq<char>>::empty(),
{
    lemma_silent_from(codecs, frame, name, 0);
}

proof fn lemma_warned_from(
    codecs: Masqueraders,
    frame: Seq<u8>,
    name: Seq<char>,
    failing: int,
    winner: int,
    start: int,
)
    requires
        first_success(codecs, frame, winner),
        0 <= start <= failing < winner,
        !(codecs[failing].unmasked(frame)->Err_0 is NotThis),
    ensures
        warnings_from(codecs, frame, name, start).contains(
            log_line("WARN"@, name, codecs[failing].unmasked(frame)->Err_0.rendering()),
        ),
    decreases failing - start,
{
    let line = log_line("WARN"@, name, codecs[failing].unmasked(frame)->Err_0.rendering());
    let rest = warnings_from(codecs, frame, name, start + 1);
    if start < failing {
        lemma_warned_from(codecs, frame, name, failing, winner, start + 1);
        let i = choose|i: int| 0 <= i < rest.len() && rest[i] == line;
        if !(codecs[start].unmasked(frame)->Err_0 is NotThis) {
            let head = seq![
                log_line("WARN"@, name, codecs[start].unmasked(frame)->Err_0.rendering()),
            ];
            assert((head + rest)[i + 1] == line);
        }
    } else {
        assert((seq![line] + rest)[0] == line);
    }
}

/// A masquerader that fails otherwise than by declining draws its warning
/// even when a later one unmasks the frame, and that later chunk is still
/// delivered.
pub proof fn lemma_failure_warns_and_success_delivers(
    codecs: Masqueraders,
    frame: Seq<u8>,
    name: Seq<char>,
    failing: int,
    winner: int,
)
    requires
        first_success(codecs, frame, winner),
        0 <= failing < winner,
        !(codecs[failing].unmasked(frame)->Err_0 is NotThis),
    ensures
        delivered(codecs, frame) == Some(codecs[winner].unmasked(frame)->Ok_0),
        warnings(codecs, frame, name).contains(
            log_line("WARN"@, name, codecs[failing].unmasked(frame)->Err_0.rendering()),
        ),
{
    lemma_delivered_up_to(codecs, frame, winner, 0);
    lemma_warned_from(codecs, frame, name, failing, winner, 0);
}

/// Owns one framer and an ordered list of masqueraders. Each frame that the
/// framer yields goes to the masqueraders in order, and the first that
/// unmasks it decides the payload.
pub struct Discriminator<F: Framer + ?Sized = dyn Framer> {
    masqueraders: Vec<Box<dyn XYZPROTECT_PulseCloakuerader>>,
    logger: Logger,
    warnings: Vec<String>,
    framer: Box<F>,
}

impl<F: Framer + ?Sized> Discriminator<F> {
    /// The masqueraders, in order.
    pub closed spec fn codecs(&self) -> Masqueraders {
        self.masqueraders@
    }

    /// The framer.
    pub closed spec fn framer(&self) -> &F {
        &*self.framer
    }

    /// The octets that the framer holds.
    pub open spec fn pending(&self) -> Seq<u8> {
        self.framer().buffered()
    }

    /// The framer's rule: the complete frame at the front of `buffer`, if
    /// there is one.
    pub open spec fn frame_in(&self, buffer: Seq<u8>) -> Option<FrontFrame> {
        self.framer().frame_in(buffer)
    }

    /// The complete frame at the front of the framer's buffer, if any.
    pub open spec fn front(&self) -> Option<FrontFrame> {
        self.frame_in(self.pending())
    }

    /// The name under which warnings are logged.
    pub closed spec fn name(&self) -> Seq<char> {
        self.logger.name@
    }

    /// The warnings logged and not yet collected, oldest first.
    pub closed spec fn log(&self) -> Seq<Seq<char>> {
        texts(self.warnings@)
    }

    /// Well-formedness: there is at least one masquerader, and warnings go
    /// out under the discriminator's own name.
    pub open spec fn wf(&self) -> bool {
        &&& self.codecs().len() > 0
        &&& self.name() == "Discriminator"@
    }

    /// A discriminator over `framer` that tries `masqueraders` in the order
    /// given. There must be at least one.
    pub fn new(
        framer: Box<F>,
        masqueraders: Vec<Box<dyn XYZPROTECT_PulseCloakuerader>>,
    ) -> (result: Discriminator<F>)
        requires
            masqueraders@.len() > 0,
        ensures
            result.wf(),
            result.codecs() == masqueraders@,
            result.framer() == framer,
            result.log() == Seq::<Seq<char>>::empty(),
    {
        let result = Discriminator {
            framer,
            masqueraders,
            logger: Logger::new("Discriminator"),
            warnings: Vec::new(),
        };
        result
    }

    /// Like `new`, but with the list of masqueraders unchecked: an empty one
    /// is refused, with the message that names the mistake.
    pub fn try_new(
        framer: Box<F>,
        masqueraders: Vec<Box<dyn XYZPROTECT_PulseCloakuerader>>,
    ) -> (result: Result<Discriminator<F>, String>)
        ensures
            result is Ok <==> masqueraders@.len() > 0,
            result matches Ok(made) ==> {
                &&& made.wf()
                &&& made.codecs() == masqueraders@
                &&& made.framer() == framer
                &&& made.log() == Seq::<Seq<char>>::empty()
            },
            result matches Err(message) ==> message@
                == "Discriminator must be given at least one masquerader"@,
    {
        if masqueraders.len() == 0 {
            Err(String::from_str("Discriminator must be given at least one masquerader"))
        } else {
            Ok(Self::new(framer, masqueraders))
        }
    }

    /// Hands `data` to the framer, unchanged.
    pub fn add_data(&mut self, data: &[u8])
        ensures
            final(self).pending() == old(self).pending() + data@,
            forall|buffer: Seq<u8>| #[trigger]
                final(self).frame_in(buffer) == old(self).frame_in(buffer),
            final(self).codecs() == old(self).codecs(),
            final(self).name() == old(self).name(),
            final(self).log() == old(self).log(),
    {
        self.framer.add_data(data);
    }

    /// Takes the next frame from the framer, if it has one, and offers it to
    /// the masqueraders in order. The frame is spent whether or not one of
    /// them unmasks it.
    #[verifier::loop_isolation(false)]
    pub fn take_chunk(&mut self) -> (result: Option<UnmaskedChunk>)
        ensures
            final(self).codecs() == old(self).codecs(),
            final(self).name() == old(self).name(),
            forall|buffer: Seq<u8>| #[trigger]
                final(self).frame_in(buffer) == old(self).frame_in(buffer),
            match old(self).front() {
                None => {
                    &&& result is None
                    &&& final(self).pending() == old(self).pending()
                    &&& final(self).log() == old(self).log()
                },
                Some(found) => {
                    &&& optional_chunk(result) == delivered(old(self).codecs(), found.frame.chunk)
                    &&& found.taken <= old(self).pending().len()
                    &&& final(self).pending() == old(self).pending().skip(found.taken as int)
                    &&& final(self).log() == old(self).log() + warnings(
                        old(self).codecs(),
                        found.frame.chunk,
                        old(self).name(),
                    )
                },
            },
    {
        let frame = match self.framer.take_frame() {
            Some(frame) => frame,
            None => {
                return None;
            },
        };
        let ghost codecs = self.masqueraders@;
        let ghost name = self.logger.name@;
        let ghost bytes = frame.chunk@;
        let ghost start_log = texts(self.warnings@);
        let ghost pending = self.framer.buffered();
        let mut i: usize = 0;
        while i < self.masqueraders.len()
            invariant
                i <= self.masqueraders.len(),
                self.masqueraders@ == codecs,
                self.logger.name@ == name,
                self.framer.buffered() == pending,
                forall|buffer: Seq<u8>| #[trigger]
                    self.framer.frame_in(buffer) == old(self).framer.frame_in(buffer),
                frame.chunk@ == bytes,
                delivered_from(codecs, bytes, i as int) == delivered(codecs, bytes),
                texts(self.warnings@) + warnings_from(codecs, bytes, name, i as int) == start_log
                    + warnings(codecs, bytes, name),
            decreases self.masqueraders.len() - i,
        {
            match self.masqueraders[i].try_unmask(frame.chunk.as_slice()) {
                Ok(chunk) => {
                    return Some(chunk);
                },
                Err(PulseCloakueradeError::NotThisXYZPROTECT_PulseCloakuerader) => (),
                Err(e) => {
                    let message = e.to_string();
                    let line = self.logger.warning_line(message.as_str());
                    self.warnings.push(line);
                },
            }
            i = i + 1;
        }
        None
    }

    /// The warnings logged since they were last collected, oldest first.
    /// Collecting them empties the log.
    pub fn take_warnings(&mut self) -> (result: Vec<String>)
        ensures
            texts(result@) == old(self).log(),
            final(self).log() == Seq::<Seq<char>>::empty(),
            final(self).codecs() == old(self).codecs(),
            final(self).name() == old(self).name(),
            final(self).framer() == old(self).framer(),
    {
        let mut collected: Vec<String> = Vec::new();
        std::mem::swap(&mut self.warnings, &mut collected);
        collected
    }
}

/// Makes the discriminator of each new connection of one kind.
///
/// What a factory wires into its discriminators is named by `wires`, which
/// an implementation may state; a duplicate wires the same.
pub trait DiscriminatorFactory: Send + Sync + core::fmt::Debug {
    /// Whether `discriminator` is one that this factory makes.
    open spec fn wires(&self, discriminator: &Discriminator) -> bool {
        arbitrary()
    }

    /// A fresh discriminator: well-formed, with nothing buffered, no frame
    /// waiting and nothing logged.
    fn make(&self) -> (result: Discriminator)
        ensures
            self.wires(&result),
            result.wf(),
            result.pending() == Seq::<u8>::empty(),
            result.front() is None,
            result.log() == Seq::<Seq<char>>::empty(),
    ;

    /// Another factory that makes the same discriminators.
    fn duplicate(&self) -> (result: Self) where Self: Sized
        ensures
            forall|discriminator: &Discriminator| #[trigger]
                result.wires(discriminator) == self.wires(discriminator),
    ;
}

} // verus!
