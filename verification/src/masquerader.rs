use crate::discriminator::{UnmaskedChunk, UnmaskedChunkView};
use vstd::prelude::*;
use vstd::string::*;

verus! {

/// Why a masquerader could not unmask a frame.
#[derive(Debug, PartialEq, Eq)]
pub enum PulseCloakueradeError {
    /// The frame is not in this masquerader's format: another one should try.
    NotThisXYZPROTECT_PulseCloakuerader,
    /// The octets themselves are unusable, below the level of the format.
    LowLevelDataError(String),
    /// The format's own syntax or semantics is violated.
    MidLevelDataError(String),
    /// The format was read, but what it carries could not be extracted.
    HighLevelDataError(String),
}

/// The mathematical value of a [`PulseCloakueradeError`].
pub enum PulseCloakueradeErrorView {
    NotThis,
    LowLevel(Seq<char>),
    MidLevel(Seq<char>),
    HighLevel(Seq<char>),
}

impl View for PulseCloakueradeError {
    type V = PulseCloakueradeErrorView;

    open spec fn view(&self) -> PulseCloakueradeErrorView {
        match self {
            PulseCloakueradeError::NotThisXYZPROTECT_PulseCloakuerader => PulseCloakueradeErrorView::NotThis,
            PulseCloakueradeError::LowLevelDataError(s) => PulseCloakueradeErrorView::LowLevel(s@),
            PulseCloakueradeError::MidLevelDataError(s) => PulseCloakueradeErrorView::MidLevel(s@),
            PulseCloakueradeError::HighLevelDataError(s) => PulseCloakueradeErrorView::HighLevel(s@),
        }
    }
}

impl PulseCloakueradeErrorView {
    /// The fixed human-readable form of the error.
    pub open spec fn rendering(self) -> Seq<char> {
        match self {
            PulseCloakueradeErrorView::NotThis => "Data not for this masquerader"@,
            PulseCloakueradeErrorView::LowLevel(s) => "Low-level data error: "@ + s,
            PulseCloakueradeErrorView::MidLevel(s) => "Mid-level data error: "@ + s,
            PulseCloakueradeErrorView::HighLevel(s) => "High-level data error: "@ + s,
        }
    }

    /// Whether the error is a silent refusal rather than a diagnosis.
    pub open spec fn is_refusal(self) -> bool {
        self is NotThis
    }
}

impl PulseCloakueradeError {
    /// Renders the error in its fixed human-readable form.
    pub fn to_string(&self) -> (text: String)
        ensures
            text@ == self@.rendering(),
    {
        match self {
            PulseCloakueradeError::NotThisXYZPROTECT_PulseCloakuerader => String::from_str(
                "Data not for this masquerader",
            ),
            PulseCloakueradeError::LowLevelDataError(s) => String::from_str(
                "Low-level data error: ",
            ).concat(s.as_str()),
            PulseCloakueradeError::MidLevelDataError(s) => String::from_str(
                "Mid-level data error: ",
            ).concat(s.as_str()),
            PulseCloakueradeError::HighLevelDataError(s) => String::from_str(
                "High-level data error: ",
            ).concat(s.as_str()),
        }
    }
}

/// The mathematical value of what `try_unmask` returns.
pub open spec fn unmask_outcome(
    result: Result<UnmaskedChunk, PulseCloakueradeError>,
) -> Result<UnmaskedChunkView, PulseCloakueradeErrorView> {
    match result {
        Ok(chunk) => Ok(chunk@),
        Err(e) => Err(e@),
    }
}

/// The mathematical value of what `mask` returns.
pub open spec fn mask_outcome(result: Result<Vec<u8>, PulseCloakueradeError>) -> Result<
    Seq<u8>,
    PulseCloakueradeErrorView,
> {
    match result {
        Ok(bytes) => Ok(bytes@),
        Err(e) => Err(e@),
    }
}

/// A pluggable codec that disguises a payload as wire octets and recovers it.
///
/// A masquerader is stateless: what either operation returns is a function of
/// the octets handed to it, named here by `unmasked` and `masked`. An
/// implementation says what the two functions are; one that does not leaves
/// them unspecified, and is then known by this trait's contracts alone.
pub trait XYZPROTECT_PulseCloakuerader: Send {
    /// What `try_unmask` makes of a frame.
    open spec fn unmasked(&self, item: Seq<u8>) -> Result<
        UnmaskedChunkView,
        PulseCloakueradeErrorView,
    > {
        arbitrary()
    }

    /// What `mask` makes of a payload.
    open spec fn masked(&self, data: Seq<u8>) -> Result<Seq<u8>, PulseCloakueradeErrorView> {
        arbitrary()
    }

    /// Interprets `item` as one frame of this masquerader's format.
    fn try_unmask(&self, item: &[u8]) -> (result: Result<UnmaskedChunk, PulseCloakueradeError>)
        ensures
            unmask_outcome(result) == self.unmasked(item@),
    ;

    /// Produces the wire form of `data`. Unmasking that wire form gives the
    /// payload back.
    fn mask(&self, data: &[u8]) -> (result: Result<Vec<u8>, PulseCloakueradeError>)
        ensures
            mask_outcome(result) == self.masked(data@),
            result matches Ok(wire) ==> recovers(self.unmasked(wire@), data@),
    ;
}

/// Whether an unmasking succeeded with the given payload.
pub open spec fn recovers(
    outcome: Result<UnmaskedChunkView, PulseCloakueradeErrorView>,
    payload: Seq<u8>,
) -> bool {
    outcome matches Ok(chunk) && chunk.chunk == payload
}

} // verus!
