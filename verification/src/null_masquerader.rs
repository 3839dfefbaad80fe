use crate::discriminator::{UnmaskedChunk, UnmaskedChunkView};
use crate::masquerader::{
    PulseCloakueradeError, PulseCloakueradeErrorView, XYZPROTECT_PulseCloakuerader,
};
use vstd::prelude::*;
use vstd::slice::slice_to_vec;

verus! {

/// The pass-through masquerader: the wire form of a payload is the payload.
///
/// It claims every frame, so in a list of masqueraders it belongs last.
pub struct NullXYZPROTECT_PulseCloakuerader {}

impl XYZPROTECT_PulseCloakuerader for NullXYZPROTECT_PulseCloakuerader {
    open spec fn unmasked(&self, item: Seq<u8>) -> Result<
        UnmaskedChunkView,
        PulseCloakueradeErrorView,
    > {
        Ok(UnmaskedChunkView { chunk: item, last_chunk: true, sequenced: true })
    }

    open spec fn masked(&self, data: Seq<u8>) -> Result<Seq<u8>, PulseCloakueradeErrorView> {
        Ok(data)
    }

    fn try_unmask(&self, item: &[u8]) -> (result: Result<UnmaskedChunk, PulseCloakueradeError>)
        ensures
            result matches Ok(chunk) && chunk.chunk@ == item@ && chunk.last_chunk
                && chunk.sequenced,
    {
        Ok(UnmaskedChunk::new(slice_to_vec(item), true, true))
    }

    fn mask(&self, data: &[u8]) -> (result: Result<Vec<u8>, PulseCloakueradeError>)
        ensures
            result matches Ok(wire) && wire@ == data@,
    {
        Ok(slice_to_vec(data))
    }
}

impl NullXYZPROTECT_PulseCloakuerader {
    /// The pass-through masquerader. There is only one.
    pub fn new() -> (result: NullXYZPROTECT_PulseCloakuerader)
        ensures
            result == (NullXYZPROTECT_PulseCloakuerader {  }),
    {
        NullXYZPROTECT_PulseCloakuerader {  }
    }
}

} // verus!
