//! A fresh recovery phrase, and a recovery phrase rendered as a QR code.

use vstd::prelude::*;
use vstd::string::*;
use crate::recovery::{base64_encode, base64_standard};

verus! {

/// A recovery phrase with its rendered image, both to be wiped after use.
pub struct SensitiveRecoveryData {
    pub phrase: String,
    pub svg_base64: String,
}

/// The number of spaces in a text.
pub open spec fn space_count(text: Seq<char>) -> nat {
    text.filter(|c: char| c == ' ').len()
}

/// Whether a text is words with one space between each two: it neither
/// starts nor ends with a space and holds no two spaces in a row.
pub open spec fn single_spaced(text: Seq<char>) -> bool {
    &&& text.len() > 0
    &&& text[0] != ' '
    &&& text[text.len() - 1] != ' '
    &&& forall|i: int| 0 <= i < text.len() - 1 ==> !(#[trigger] text[i] == ' ' && text[i + 1] == ' ')
}

/// Calls `Mnemonic::new` of `bip39` for twelve English words and copies the
/// phrase that `Mnemonic::phrase` shows. The words are drawn at random.
/// Claimed of every outcome: the phrase is twelve words of the list, none of
/// them empty, joined by one space between each two, so it holds eleven
/// spaces and is single-spaced.
#[verifier::external_body]
pub(crate) fn fresh_phrase() -> (phrase: String)
    ensures
        space_count(phrase@) == 11,
        single_spaced(phrase@),
{
    bip39::Mnemonic::new(bip39::MnemonicType::Words12, bip39::Language::English).phrase().to_string()
}

/// Makes a recovery phrase of twelve words, none of them empty, with one
/// space between each two. Every call draws a new one.
pub fn generate_recovery_phrase() -> (r: Result<String, String>)
    ensures
        r matches Ok(phrase) && space_count(phrase@) == 11 && single_spaced(phrase@),
{
    Ok(fresh_phrase())
}

/// The PNG file of the QR code of some bytes, in shades of grey and at least
/// as large as asked: what `qrcode` renders and `image` encodes. `None` where
/// no code holds the bytes or the picture cannot be encoded.
pub uninterp spec fn qr_png(data: Seq<u8>, min_width: u32, min_height: u32) -> Option<Seq<u8>>;

/// Calls `QrCode::new` of `qrcode`, renders the code with `Renderer::build` at
/// the minimum size given, and encodes the picture with
/// `ImageBuffer::write_to` of `image` as PNG into memory. Claimed: whether
/// this succeeds, and the bytes it then gives, depend on the arguments alone.
/// Nothing is claimed of the text of a failure.
#[verifier::external_body]
pub(crate) fn render_qr_png(data: &[u8], min_width: u32, min_height: u32) -> (r: Result<
    Vec<u8>,
    String,
>)
    requires
        min_width <= 4096,
        min_height <= 4096,
    ensures
        r is Ok <==> qr_png(data@, min_width, min_height) is Some,
        r matches Ok(png) ==> qr_png(data@, min_width, min_height) == Some(png@),
{
    let code = qrcode::QrCode::new(data).map_err(|e| e.to_string())?;
    let picture = code.render::<image::Luma<u8>>().min_dimensions(min_width, min_height).build();
    let mut file = std::io::Cursor::new(Vec::new());
    picture.write_to(&mut file, image::ImageFormat::Png).map_err(|e| e.to_string())?;
    Ok(file.into_inner())
}

/// Calls `String::into_bytes` of std: the bytes of a string are its UTF-8
/// encoding.
#[verifier::external_body]
pub(crate) fn into_bytes(text: String) -> (bytes: Vec<u8>)
    ensures
        bytes@ == vstd::utf8::encode_utf8(text@),
{
    text.into_bytes()
}

/// Calls `Zeroize::zeroize` of `zeroize` on a vector of bytes: every byte is
/// overwritten with zero and the vector is left empty.
#[verifier::external_body]
pub(crate) fn wipe(bytes: &mut Vec<u8>)
    ensures
        final(bytes)@.len() == 0,
{
    zeroize::Zeroize::zeroize(bytes)
}

/// The image of a phrase: the base64 text of the PNG file of its QR code,
/// where there is one.
pub open spec fn recovery_image(phrase: Seq<char>) -> Option<Seq<char>> {
    match qr_png(vstd::utf8::encode_utf8(phrase), 200, 200) {
        Some(png) => Some(base64_standard(png)),
        None => None,
    }
}

/// Renders a recovery phrase as a QR code of at least 200 by 200 pixels and
/// returns the PNG file in base64. The bytes of the phrase are wiped before
/// the function returns, whether it succeeds or not.
pub fn export_recovery_image(phrase: String) -> (r: Result<String, String>)
    ensures
        r is Ok <==> recovery_image(phrase@) is Some,
        r matches Ok(image) ==> recovery_image(phrase@) == Some(image@),
{
    let mut sensitive_bytes = into_bytes(phrase);
    let rendered = render_qr_png(sensitive_bytes.as_slice(), 200, 200);
    wipe(&mut sensitive_bytes);
    match rendered {
        Ok(png) => Ok(base64_encode(png.as_slice())),
        Err(reason) => Err(reason),
    }
}

} // verus!
