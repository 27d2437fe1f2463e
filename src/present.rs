use crate::client::PasteResponse;
use qrcode::render::unicode::Dense1x2;
use qrcode::QrCode;
use vstd::prelude::*;

verus! {

/// The QR code of the given text, drawn with Unicode half blocks, light
/// modules on dark; `None` when the text cannot be encoded (it is too long).
pub uninterp spec fn qr_text_of(data: Seq<char>) -> Option<Seq<char>>;

/// Relies on qrcode's `QrCode::new` (encodes the bytes at the medium error
/// correction level, smallest version that fits, or fails) and on its
/// renderer built with `Dense1x2` pixels and swapped colours: the drawing
/// depends on the text alone.
#[verifier::external_body]
fn render_qr(data: &str) -> (r: Option<String>)
    ensures
        match r {
            Some(s) => qr_text_of(data@) == Some(s@),
            None => qr_text_of(data@) is None,
        },
{
    match QrCode::new(data.as_bytes()) {
        Ok(code) => Some(
            code.render::<Dense1x2>().dark_color(Dense1x2::Light).light_color(
                Dense1x2::Dark,
            ).build(),
        ),
        Err(_) => None,
    }
}

/// Draws the QR code of a share URL, if it can be encoded.
pub fn generate_qr_code(url: &str) -> (r: Option<String>)
    ensures
        match r {
            Some(s) => qr_text_of(url@) == Some(s@),
            None => qr_text_of(url@) is None,
        },
{
    render_qr(url)
}

/// What is shown once a paste is stored: its URL, its code, and the QR code
/// of the URL when one is wanted and can be drawn.
#[derive(Debug, PartialEq, Eq)]
pub struct Report {
    pub url: String,
    pub code: String,
    pub qr: Option<String>,
}

/// Prepares the report of a stored paste.
pub fn present(response: PasteResponse, show_qr: bool) -> (r: Report)
    ensures
        r.url == response.url,
        r.code == response.code,
        show_qr ==> match r.qr {
            Some(q) => qr_text_of(response.url@) == Some(q@),
            None => qr_text_of(response.url@) is None,
        },
        !show_qr ==> r.qr is None,
{
    let qr = if show_qr {
        generate_qr_code(response.url.as_str())
    } else {
        None
    };
    Report { url: response.url, code: response.code, qr }
}

} // verus!
