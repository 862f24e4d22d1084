//! Images as data URIs: a fixed media-type prefix, then the image's bytes in
//! base64. The base64 text itself comes from the `base64` crate.

use vstd::prelude::*;
use vstd::string::*;
use base64::Engine;

verus! {

/// The standard, padded base64 text of `bytes`, as the `base64` crate's
/// `STANDARD` engine produces it.
pub uninterp spec fn base64_standard(bytes: Seq<u8>) -> Seq<char>;

/// The length of the padded base64 text of `len` bytes: four characters for
/// every three bytes, and four more for what is left over.
pub open spec fn encoded_len(len: nat) -> nat {
    if len % 3 == 0 {
        len / 3 * 4
    } else {
        len / 3 * 4 + 4
    }
}

/// The lengths whose base64 text is no longer than a single allocation may
/// be, which is `isize::MAX` bytes.
pub open spec fn encodable_len(len: nat) -> bool {
    encoded_len(len) <= isize::MAX
}

/// Tells whether `len` bytes can be encoded.
pub fn can_encode(len: usize) -> (r: bool)
    ensures
        r == encodable_len(len as nat),
{
    let limit: usize = isize::MAX as usize;
    if len % 3 == 0 {
        len / 3 <= limit / 4
    } else {
        len / 3 <= (limit - 4) / 4
    }
}

/// Calls `Engine::encode` on `base64::engine::general_purpose::STANDARD`.
/// Assumed, not proved: the text depends on the bytes alone, and is the one
/// that `base64_standard` names. The call panics when the length of the text
/// overflows a `usize` or is more than a buffer can hold, which the
/// precondition rules out.
#[verifier::external_body]
pub(crate) fn encode_standard(bytes: &[u8]) -> (r: String)
    requires
        encodable_len(bytes@.len()),
    ensures
        r@ == base64_standard(bytes@),
{
    base64::engine::general_purpose::STANDARD.encode(bytes)
}

/// What every data URI made here starts with. The media type is always PNG,
/// whatever the bytes are.
pub open spec fn png_prefix() -> Seq<char> {
    "data:image/png;base64,"@
}

/// The data URI of an image with the given bytes.
pub open spec fn data_uri_text(bytes: Seq<u8>) -> Seq<char> {
    png_prefix() + base64_standard(bytes)
}

/// A data URI made here falls apart into the PNG prefix and the base64 text
/// of the image's bytes, with nothing before, between or after them.
pub proof fn lemma_data_uri_parts(bytes: Seq<u8>)
    ensures
        data_uri_text(bytes).len() == png_prefix().len() + base64_standard(bytes).len(),
        data_uri_text(bytes).take(png_prefix().len() as int) == png_prefix(),
        data_uri_text(bytes).skip(png_prefix().len() as int) == base64_standard(bytes),
{
}

/// Builds the data URI of an image: the PNG prefix, then the bytes in
/// standard base64.
pub fn data_uri(bytes: &[u8]) -> (r: String)
    requires
        encodable_len(bytes@.len()),
    ensures
        r@ == data_uri_text(bytes@),
{
    let encoded = encode_standard(bytes);
    String::from_str("data:image/png;base64,").concat(encoded.as_str())
}

} // verus!
