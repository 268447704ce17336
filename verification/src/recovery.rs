//! The export of the recovery key as an image that the presentation layer
//! shows and wipes after a time to live.

use vstd::prelude::*;
use vstd::string::*;

verus! {

/// An exported image: a `data:` URI, and the seconds after which the
/// presentation layer has to wipe it.
pub struct ExportResp {
    pub data_uri: String,
    pub ttl_seconds: u64,
}

/// The base64 text of a sequence of bytes in the standard alphabet with
/// padding, as the `base64` crate's `STANDARD` engine writes it.
pub uninterp spec fn base64_standard(bytes: Seq<u8>) -> Seq<char>;

/// Calls `Engine::encode` on `base64::engine::general_purpose::STANDARD`.
/// Claimed: the result is the standard base64 text of the bytes, a function of
/// the bytes alone. The call panics only on an input whose encoded length
/// does not fit in `usize`, which is more bytes than a slice can hold.
#[verifier::external_body]
pub(crate) fn base64_encode(bytes: &[u8]) -> (text: String)
    ensures
        text@ == base64_standard(bytes@),
{
    base64::Engine::encode(&base64::engine::general_purpose::STANDARD, bytes)
}

/// The image that stands in for the recovery key.
pub open spec fn placeholder_svg() -> Seq<char> {
    "<svg xmlns=\"http://www.w3.org/2000/svg\" width=\"300\" height=\"150\"><rect width=\"100%\" height=\"100%\" fill=\"#1a1a2e\"/><text x=\"50%\" y=\"50%\" text-anchor=\"middle\" fill=\"#4ade80\" font-size=\"14\">Recovery Key Placeholder</text></svg>"@
}

/// The URI under which the placeholder image is exported: the media type and
/// the base64 text of the image's bytes.
pub open spec fn placeholder_uri() -> Seq<char> {
    "data:image/svg+xml;base64,"@ + base64_standard(vstd::utf8::encode_utf8(placeholder_svg()))
}

/// The `data:` URI of an SVG image given in base64.
pub fn svg_data_uri(encoded: &str) -> (uri: String)
    ensures
        uri@ == "data:image/svg+xml;base64,"@ + encoded@,
{
    "data:image/svg+xml;base64,".to_owned().concat(encoded)
}

/// Exports the recovery image for an authenticated caller: any non-empty
/// `auth` is accepted, an empty one refused. The image lives for 60 seconds.
pub fn cmd_export_recovery_svg(auth: String) -> (r: Result<ExportResp, String>)
    ensures
        auth@.len() == 0 ==> (r matches Err(reason) && reason@ == "Authentication required"@),
        auth@.len() != 0 ==> (r matches Ok(resp) && resp.data_uri@ == placeholder_uri()
            && resp.ttl_seconds == 60),
{
    if auth.as_str().is_empty() {
        return Err("Authentication required".to_owned());
    }
    let svg =
        "<svg xmlns=\"http://www.w3.org/2000/svg\" width=\"300\" height=\"150\"><rect width=\"100%\" height=\"100%\" fill=\"#1a1a2e\"/><text x=\"50%\" y=\"50%\" text-anchor=\"middle\" fill=\"#4ade80\" font-size=\"14\">Recovery Key Placeholder</text></svg>";
    let encoded = base64_encode(svg.as_bytes());
    Ok(ExportResp { data_uri: svg_data_uri(encoded.as_str()), ttl_seconds: 60 })
}

} // verus!
