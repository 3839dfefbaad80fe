use vstd::prelude::*;

verus! {

/// Why a text is no base64, `base64::DecodeError`. Only that there is a
/// reason is read here, never which.
#[verifier::external_type_specification]
#[verifier::external_body]
pub struct ExDecodeError(base64::DecodeError);

/// The standard base64 text of octets, padded with `=`.
pub uninterp spec fn base64_encoding(data: Seq<u8>) -> Seq<char>;

/// The octets that a text stands for in standard base64, if it is one.
pub uninterp spec fn base64_decoding(text: Seq<char>) -> Option<Seq<u8>>;

/// Calls `base64::encode`, which takes octets of any length that a slice can
/// have. The contract claims that the text is a function of the octets alone
/// and that decoding it gives the octets back.
#[verifier::external_body]
pub(crate) fn encode(data: &[u8]) -> (result: String)
    ensures
        result@ == base64_encoding(data@),
        base64_decoding(result@) == Some(data@),
{
    base64::encode(data)
}

/// Calls `base64::decode`. The contract claims that success and the octets
/// found are a function of the text alone.
#[verifier::external_body]
pub(crate) fn decode(text: &str) -> (result: Result<Vec<u8>, base64::DecodeError>)
    ensures
        result is Ok <==> base64_decoding(text@) is Some,
        result matches Ok(data) ==> base64_decoding(text@) == Some(data@),
{
    base64::decode(text)
}

} // verus!
