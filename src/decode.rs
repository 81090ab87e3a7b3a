use vstd::prelude::*;

use base64::Engine;

verus! {

#[verifier::external_type_specification]
#[verifier::external_body]
pub struct ExDecodeError(base64::DecodeError);

/// What the standard base64 engine decodes `input` to, or `None` where it
/// refuses the input.
pub uninterp spec fn base64_standard_decode(input: Seq<u8>) -> Option<Seq<u8>>;

/// Relies on `base64::Engine::decode` of `base64::engine::general_purpose::STANDARD`:
/// it returns the decoded bytes, or a `DecodeError` where the input is not
/// valid padded standard base64, as a function of the input alone.
#[verifier::external_body]
pub(crate) fn decode_standard(input: &[u8]) -> (r: Result<Vec<u8>, base64::DecodeError>)
    ensures
        match base64_standard_decode(input@) {
            Some(bytes) => r is Ok && r->Ok_0@ == bytes,
            None => r is Err,
        },
{
    base64::engine::general_purpose::STANDARD.decode(input)
}

} // verus!
