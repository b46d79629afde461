use vstd::prelude::*;

use crate::decimal::{decimal_digits, u64_to_decimal};
use vstd::string::StringSliceAdditionalSpecFns;

verus! {

/// The address the web page is served at.
pub open spec fn server_url_spec(host: Seq<char>, port: u16) -> Seq<char> {
    "http://"@ + host + ":"@ + decimal_digits(port as nat)
}

/// `http://{host}:{port}`
pub fn server_url(host: &str, port: u16) -> (url: String)
    ensures
        url@ == server_url_spec(host@, port),
{
    let mut url = String::from_str("http://");
    url.append(host);
    url.append(":");
    let digits = u64_to_decimal(port as u64);
    url.append(digits.as_str());
    url
}

/// Why no QR code could be made, one variant for each of qrcode's `QrError`.
#[derive(PartialEq, Eq, Structural, Clone, Copy, Debug)]
pub enum QrCodeError {
    DataTooLong,
    InvalidVersion,
    UnsupportedCharacterSet,
    InvalidEciDesignator,
    InvalidCharacter,
}

/// A QR symbol: `width` modules a side, listed row by row, `true` for dark.
pub struct QrModules {
    pub width: usize,
    pub dark: Vec<bool>,
}

/// A grey-scale image, `width` by `height` pixels listed row by row, one byte
/// each (0 black, 255 white).
pub struct GrayImage {
    pub width: u32,
    pub height: u32,
    pub pixels: Vec<u8>,
}

/// The error, if any, with which qrcode's `QrCode::new` refuses `data`.
pub uninterp spec fn qr_encoding_error(data: Seq<u8>) -> Option<QrCodeError>;

/// The symbol that qrcode's `QrCode::new` makes of `data` (error correction
/// level M, the smallest version that holds it): its width and its modules
/// row by row, `true` for dark; `None` when it refuses `data`.
pub uninterp spec fn qr_symbol(data: Seq<u8>) -> Option<(nat, Seq<bool>)>;

/// Calls `qrcode::QrCode::new` on `data` and hands out the symbol through
/// `width` and `to_colors`. The contract claims that failure and its error,
/// and the symbol made, are functions of the bytes (`qr_encoding_error`,
/// `qr_symbol`), and what the source shows of the symbol's shape: a normal
/// version (1 to 40, so 21 to 177 modules a side) with one colour per module.
#[verifier::external_body]
fn encode_qr_modules(data: &[u8]) -> (code: Result<QrModules, QrCodeError>)
    ensures
        match code {
            Ok(q) => {
                &&& qr_encoding_error(data@) is None
                &&& qr_symbol(data@) == Some((q.width as nat, q.dark@))
                &&& 21 <= q.width <= 177
                &&& q.dark@.len() == q.width * q.width
            },
            Err(e) => {
                &&& qr_encoding_error(data@) == Some(e)
                &&& qr_symbol(data@) is None
            },
        },
{
    match qrcode::QrCode::new(data) {
        Ok(code) => {
            let mut dark = Vec::new();
            for color in code.to_colors() {
                dark.push(color == qrcode::Color::Dark);
            }
            Ok(QrModules { width: code.width(), dark })
        },
        Err(qrcode::types::QrError::DataTooLong) => Err(QrCodeError::DataTooLong),
        Err(qrcode::types::QrError::InvalidVersion) => Err(QrCodeError::InvalidVersion),
        Err(qrcode::types::QrError::UnsupportedCharacterSet) => Err(QrCodeError::UnsupportedCharacterSet),
        Err(qrcode::types::QrError::InvalidEciDesignator) => Err(QrCodeError::InvalidEciDesignator),
        Err(qrcode::types::QrError::InvalidCharacter) => Err(QrCodeError::InvalidCharacter),
    }
}

/// The QR symbol that leads a phone to `destination`, encoded from its UTF-8
/// bytes.
pub fn qr_code_for(destination: &str) -> (code: Result<QrModules, QrCodeError>)
    ensures
        match code {
            Ok(q) => {
                &&& qr_encoding_error(destination.spec_bytes()) is None
                &&& qr_symbol(destination.spec_bytes()) == Some((q.width as nat, q.dark@))
                &&& 21 <= q.width <= 177
                &&& q.dark@.len() == q.width * q.width
            },
            Err(e) => {
                &&& qr_encoding_error(destination.spec_bytes()) == Some(e)
                &&& qr_symbol(destination.spec_bytes()) is None
            },
        },
{
    encode_qr_modules(destination.as_bytes())
}

/// Pixels a module takes on each side in qrcode's image rendering.
pub const QR_MODULE_PIXELS: u32 = 8;

/// The quiet zone, in modules, that qrcode puts round a normal QR symbol.
pub const QR_QUIET_ZONE: u32 = 4;

/// The side, in pixels, of the rendered image of a symbol `width` modules wide.
pub open spec fn qr_image_side(width: nat, quiet_zone: nat) -> nat {
    (width + 2 * quiet_zone) * (QR_MODULE_PIXELS as nat)
}

/// The pixel at column `x`, row `y` of the rendered image: black where it
/// falls on a dark module, white in the quiet zone and on light modules.
pub open spec fn qr_pixel(width: nat, dark: Seq<bool>, quiet_zone: nat, x: nat, y: nat) -> u8 {
    let mx = x / (QR_MODULE_PIXELS as nat);
    let my = y / (QR_MODULE_PIXELS as nat);
    if quiet_zone <= mx < width + quiet_zone && quiet_zone <= my < width + quiet_zone
        && dark[(my - quiet_zone) * width + (mx - quiet_zone)] {
        0
    } else {
        255
    }
}

/// `image` is the rendering of the symbol with the given quiet zone.
pub open spec fn shows_qr(image: GrayImage, width: nat, dark: Seq<bool>, quiet_zone: nat) -> bool {
    let side = qr_image_side(width, quiet_zone);
    &&& image.width == side
    &&& image.height == side
    &&& image.pixels@.len() == side * side
    &&& forall|x: nat, y: nat|
        x < side && y < side ==> #[trigger] image.pixels@[(y * side + x) as int] == qr_pixel(
            width,
            dark,
            quiet_zone,
            x,
            y,
        )
}

/// Renders the symbol with qrcode's `Renderer::<image::Luma<u8>>::new` and
/// `build` (8×8 pixels a module, black on white, `quiet_zone` modules of
/// margin) and hands out image's `ImageBuffer` through `width`, `height` and
/// `into_raw`. The contract states the image that the renderer's source
/// draws; the bound on the size keeps the image within what a vector holds.
#[verifier::external_body]
fn render_qr_image(symbol: &QrModules, quiet_zone: u32) -> (image: GrayImage)
    requires
        symbol.dark@.len() == symbol.width * symbol.width,
        (symbol.width + 2 * quiet_zone) * QR_MODULE_PIXELS <= 65535,
    ensures
        shows_qr(image, symbol.width as nat, symbol.dark@, quiet_zone as nat),
{
    let mut colors = Vec::new();
    for &d in symbol.dark.iter() {
        colors.push(if d { qrcode::Color::Dark } else { qrcode::Color::Light });
    }
    let buffer = qrcode::render::Renderer::<image::Luma<u8>>::new(&colors, symbol.width, quiet_zone).build();
    GrayImage { width: buffer.width(), height: buffer.height(), pixels: buffer.into_raw() }
}

/// The image of the QR code that leads a phone to `destination`, as qrcode
/// renders it: the symbol of its UTF-8 bytes with the normal quiet zone.
pub fn qr_image_for(destination: &str) -> (image: Result<GrayImage, QrCodeError>)
    ensures
        match image {
            Ok(img) => qr_encoding_error(destination.spec_bytes()) is None && exists|w: nat, m: Seq<bool>|
                qr_symbol(destination.spec_bytes()) == Some((w, m)) && #[trigger] shows_qr(
                    img,
                    w,
                    m,
                    QR_QUIET_ZONE as nat,
                ),
            Err(e) => qr_encoding_error(destination.spec_bytes()) == Some(e),
        },
{
    match qr_code_for(destination) {
        Ok(symbol) => {
            let image = render_qr_image(&symbol, QR_QUIET_ZONE);
            let ghost w = symbol.width as nat;
            let ghost m = symbol.dark@;
            assert(qr_symbol(destination.spec_bytes()) == Some((w, m)));
            assert(shows_qr(image, w, m, QR_QUIET_ZONE as nat));
            let result = Ok(image);
            assert(result matches Ok(img) && shows_qr(img, w, m, QR_QUIET_ZONE as nat));
            result
        },
        Err(e) => Err(e),
    }
}

} // verus!
