use vstd::prelude::*;

use crate::error::{BridgeError, Precondition};

verus! {

/// The standard, padded base64 text of some bytes.
pub uninterp spec fn base64_of(b: Seq<u8>) -> Seq<char>;

/// Relies on base64's `Engine::encode` with the `STANDARD` engine: padded
/// output of four characters for every started group of three bytes. It
/// panics only when that length overflows `usize`.
#[verifier::external_body]
fn encode_base64(b: &[u8]) -> (r: String)
    requires
        b@.len() <= usize::MAX / 2,
    ensures
        r@ == base64_of(b@),
        r@.len() == 4 * ((b@.len() + 2) / 3),
{
    base64::Engine::encode(&base64::engine::general_purpose::STANDARD, b)
}

/// The standard base64 text of a file's bytes.
pub fn base64_text(data: &Vec<u8>) -> (r: String)
    requires
        data@.len() <= usize::MAX / 2,
    ensures
        r@ == base64_of(data@),
        r@.len() == 4 * ((data@.len() + 2) / 3),
{
    encode_base64(data.as_slice())
}

pub open spec fn png_url_prefix() -> Seq<char> {
    "data:image/png;base64,"@
}

/// A data URL for PNG bytes whose base64 text is `encoded`.
pub fn png_data_url(encoded: &str) -> (r: String)
    ensures
        r@ == png_url_prefix() + encoded@,
{
    let mut url = String::from_str("data:image/png;base64,");
    url.append(encoded);
    url
}

/// The cached screenshot as a PNG data URL. `read_ok` is whether the engine
/// filled the image buffer, `encoded` the encoded bytes it holds.
pub fn image_data_url(read_ok: bool, encoded: &Vec<u8>) -> (r: Result<String, BridgeError>)
    requires
        encoded@.len() <= usize::MAX / 2,
    ensures
        !read_ok ==> r == Err::<String, BridgeError>(
            BridgeError::PreconditionViolation(Precondition::CachedImageUnavailable),
        ),
        read_ok && encoded@.len() == 0 ==> r == Err::<String, BridgeError>(
            BridgeError::PreconditionViolation(Precondition::NoImageData),
        ),
        read_ok && encoded@.len() > 0 ==> (r matches Ok(url) && url@ == png_url_prefix()
            + base64_of(encoded@)),
{
    if !read_ok {
        return Err(BridgeError::PreconditionViolation(Precondition::CachedImageUnavailable));
    }
    if encoded.len() == 0 {
        return Err(BridgeError::PreconditionViolation(Precondition::NoImageData));
    }
    let body = encode_base64(encoded.as_slice());
    Ok(png_data_url(body.as_str()))
}

} // verus!
