//! The QR code the phone scans to link this device.
use vstd::prelude::*;

use crate::provisioning::error::ProvisioningError;
use crate::text::contains_text;

verus! {

/// What `qrcode` renders for `data`: `QrCode::new(data)` (medium error
/// correction, smallest version), drawn as SVG with at least
/// `min_size`x`min_size` pixels, dark modules in `dark`, light modules and
/// background in `light`, with or without the quiet zone. `Err` carries the
/// encoder's error text.
pub uninterp spec fn qr_svg(
    data: Seq<u8>,
    min_size: u32,
    dark: Seq<char>,
    light: Seq<char>,
    quiet_zone: bool,
) -> Result<Seq<char>, Seq<char>>;

/// `s` begins with `p`.
pub open spec fn starts_with(s: Seq<char>, p: Seq<char>) -> bool {
    p.len() <= s.len() && s.subrange(0, p.len() as int) == p
}

/// `s` ends with `p`.
pub open spec fn ends_with(s: Seq<char>, p: Seq<char>) -> bool {
    p.len() <= s.len() && s.subrange(s.len() - p.len(), s.len() as int) == p
}

/// `QrCode::new` on the UTF-8 bytes of `data`, then its SVG renderer
/// (`render::<svg::Color>()` with `min_dimensions`, `dark_color`,
/// `light_color`, `quiet_zone`, `build`). The SVG document the renderer
/// writes opens with an XML declaration, closes with `</svg>`, and fills
/// its background rectangle with the light colour and its module path with
/// the dark colour. The renderer computes pixel sizes in `u32` (module size
/// times modules), which overflows for sizes near `u32::MAX`; sizes up to 4096
/// pixels are far from that.
#[verifier::external_body]
fn render_qr_svg(data: &str, min_size: u32, dark: &str, light: &str, quiet_zone: bool) -> (r: Result<String, String>)
    requires
        min_size <= 4096,
    ensures
        match r {
            Ok(s) => qr_svg(vstd::utf8::encode_utf8(data@), min_size, dark@, light@, quiet_zone) == Ok::<Seq<char>, Seq<char>>(s@),
            Err(e) => qr_svg(vstd::utf8::encode_utf8(data@), min_size, dark@, light@, quiet_zone) == Err::<Seq<char>, Seq<char>>(e@),
        },
        r matches Ok(s) ==> starts_with(s@, "<?xml"@) && ends_with(s@, "</svg>"@) && contains_text(
            s@,
            "fill=\""@ + light@ + "\""@,
        ) && contains_text(s@, "fill=\""@ + dark@ + "\""@),
{
    match qrcode::QrCode::new(data.as_bytes()) {
        Ok(code) => Ok(
            code.render::<qrcode::render::svg::Color>()
                .min_dimensions(min_size, min_size)
                .dark_color(qrcode::render::svg::Color(dark))
                .light_color(qrcode::render::svg::Color(light))
                .quiet_zone(quiet_zone)
                .build(),
        ),
        Err(e) => Err(e.to_string()),
    }
}

/// The QR image for a provisioning URL: light modules on the dark theme's
/// background, at least 256 pixels square, with a quiet zone.
pub open spec fn provisioning_qr(url: Seq<char>) -> Result<Seq<char>, Seq<char>> {
    qr_svg(vstd::utf8::encode_utf8(url), 256, "#ffffff"@, "#1a1a2e"@, true)
}

/// What a rendering outcome becomes: the SVG, or a QR generation error with
/// the encoder's text.
pub fn qr_outcome(rendered: Result<String, String>) -> (r: Result<String, ProvisioningError>)
    ensures
        match rendered {
            Ok(s) => r matches Ok(t) && t@ == s@,
            Err(e) => r matches Err(ProvisioningError::QrGenerationFailed(m)) && m@ == e@,
        },
{
    match rendered {
        Ok(s) => Ok(s),
        Err(e) => Err(ProvisioningError::QrGenerationFailed(e)),
    }
}

/// An SVG QR code for the provisioning URL (`sgnl://linkdevice?uuid=..&pub_key=..`).
pub fn generate_qr_svg(url: &str) -> (r: Result<String, ProvisioningError>)
    ensures
        match provisioning_qr(url@) {
            Ok(s) => r matches Ok(t) && t@ == s && starts_with(s, "<?xml"@) && ends_with(s, "</svg>"@)
                && contains_text(s, "fill=\"#1a1a2e\""@) && contains_text(s, "fill=\"#ffffff\""@),
            Err(e) => r matches Err(ProvisioningError::QrGenerationFailed(m)) && m@ == e,
        },
{
    let rendered = render_qr_svg(url, 256, "#ffffff", "#1a1a2e", true);
    proof {
        assert("fill=\""@ + "#1a1a2e"@ + "\""@ == "fill=\"#1a1a2e\""@) by {
            reveal_strlit("fill=\"");
            reveal_strlit("#1a1a2e");
            reveal_strlit("\"");
            reveal_strlit("fill=\"#1a1a2e\"");
        }
        assert("fill=\""@ + "#ffffff"@ + "\""@ == "fill=\"#ffffff\""@) by {
            reveal_strlit("fill=\"");
            reveal_strlit("#ffffff");
            reveal_strlit("\"");
            reveal_strlit("fill=\"#ffffff\"");
        }
    }
    qr_outcome(rendered)
}

} // verus!
