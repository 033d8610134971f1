//! MIME-type rules: what counts as a GIF or a PPM, which layout a request
//! gets, and the MIME type guessed from a file name.
use vstd::prelude::*;
use vstd::string::StringSliceAdditionalSpecFns;
use crate::display::DisplayMode;
use crate::text::{contains, contains_bytes, ends_with_ascii_ignore_case, ends_with_ignore_case, eq_ignore_ascii_case, eq_ignore_case};

verus! {

/// The display mode carried on the wire (`image.v1.DisplayMode`).
#[derive(Clone, Copy, Debug, PartialEq, Eq, Structural)]
pub enum ProtoDisplayMode {
    Unspecified,
    Static,
    Scroll,
}

pub open spec fn proto_mode_of(value: i32) -> Option<ProtoDisplayMode> {
    if value == 0 {
        Some(ProtoDisplayMode::Unspecified)
    } else if value == 1 {
        Some(ProtoDisplayMode::Static)
    } else if value == 2 {
        Some(ProtoDisplayMode::Scroll)
    } else {
        None
    }
}

pub open spec fn proto_mode_value(mode: ProtoDisplayMode) -> i32 {
    match mode {
        ProtoDisplayMode::Unspecified => 0,
        ProtoDisplayMode::Static => 1,
        ProtoDisplayMode::Scroll => 2,
    }
}

impl ProtoDisplayMode {
    /// The enum value for a wire number, `None` for an unknown number.
    pub fn from_wire(value: i32) -> (r: Option<ProtoDisplayMode>)
        ensures
            r == proto_mode_of(value),
    {
        if value == 0 {
            Some(ProtoDisplayMode::Unspecified)
        } else if value == 1 {
            Some(ProtoDisplayMode::Static)
        } else if value == 2 {
            Some(ProtoDisplayMode::Scroll)
        } else {
            None
        }
    }

    pub fn to_wire(self) -> (r: i32)
        ensures
            r == proto_mode_value(self),
            proto_mode_of(r) == Some(self),
    {
        match self {
            ProtoDisplayMode::Unspecified => 0,
            ProtoDisplayMode::Static => 1,
            ProtoDisplayMode::Scroll => 2,
        }
    }
}

/// The bytes of `image/gif`.
pub open spec fn gif_mime() -> Seq<u8> {
    seq![105u8, 109u8, 97u8, 103u8, 101u8, 47u8, 103u8, 105u8, 102u8]
}

/// The bytes of `portable-pixmap`.
pub open spec fn portable_pixmap() -> Seq<u8> {
    seq![112u8, 111u8, 114u8, 116u8, 97u8, 98u8, 108u8, 101u8, 45u8, 112u8, 105u8, 120u8, 109u8, 97u8, 112u8]
}

/// The bytes of `ppm`.
pub open spec fn ppm() -> Seq<u8> {
    seq![112u8, 112u8, 109u8]
}

/// The bytes of `pnm`.
pub open spec fn pnm() -> Seq<u8> {
    seq![112u8, 110u8, 109u8]
}

/// `image/gif`, in any ASCII case.
pub open spec fn is_gif_spec(mime: Seq<u8>) -> bool {
    eq_ignore_case(mime, gif_mime())
}

/// Anything that mentions `portable-pixmap`, `ppm` or `pnm` (case-sensitive).
pub open spec fn is_ppm_spec(mime: Seq<u8>) -> bool {
    contains_bytes(mime, portable_pixmap()) || contains_bytes(mime, ppm()) || contains_bytes(mime, pnm())
}

/// An explicit mode wins; an unspecified one scrolls PPM images and shows the rest still.
pub open spec fn resolved_mode(proto: ProtoDisplayMode, mime: Seq<u8>) -> DisplayMode {
    match proto {
        ProtoDisplayMode::Static => DisplayMode::Static,
        ProtoDisplayMode::Scroll => DisplayMode::ScrollHorizontal,
        ProtoDisplayMode::Unspecified => if is_ppm_spec(mime) {
            DisplayMode::ScrollHorizontal
        } else {
            DisplayMode::Static
        },
    }
}

pub fn is_gif(mime_type: &str) -> (r: bool)
    ensures
        r == is_gif_spec(mime_type.spec_bytes()),
{
    let pat: [u8; 9] = [105u8, 109u8, 97u8, 103u8, 101u8, 47u8, 103u8, 105u8, 102u8];
    assert(pat@ == gif_mime());
    eq_ignore_ascii_case(mime_type.as_bytes(), pat.as_slice())
}

pub fn is_ppm(mime_type: &str) -> (r: bool)
    ensures
        r == is_ppm_spec(mime_type.spec_bytes()),
{
    let bytes = mime_type.as_bytes();
    let a: [u8; 15] = [112u8, 111u8, 114u8, 116u8, 97u8, 98u8, 108u8, 101u8, 45u8, 112u8, 105u8, 120u8, 109u8, 97u8, 112u8];
    let b: [u8; 3] = [112u8, 112u8, 109u8];
    let c: [u8; 3] = [112u8, 110u8, 109u8];
    assert(a@ == portable_pixmap());
    assert(b@ == ppm());
    assert(c@ == pnm());
    contains(bytes, a.as_slice()) || contains(bytes, b.as_slice()) || contains(bytes, c.as_slice())
}

pub fn resolve_display_mode(proto_mode: ProtoDisplayMode, mime_type: &str) -> (r: DisplayMode)
    ensures
        r == resolved_mode(proto_mode, mime_type.spec_bytes()),
{
    match proto_mode {
        ProtoDisplayMode::Static => DisplayMode::Static,
        ProtoDisplayMode::Scroll => DisplayMode::ScrollHorizontal,
        ProtoDisplayMode::Unspecified => {
            if is_ppm(mime_type) {
                DisplayMode::ScrollHorizontal
            } else {
                DisplayMode::Static
            }
        },
    }
}

/// The MIME types a file name can suggest.
#[derive(Clone, Copy, Debug, PartialEq, Eq, Structural)]
pub enum KnownMime {
    PortablePixmap,
    Gif,
    Jpeg,
    Png,
}

pub open spec fn known_mime_name(kind: KnownMime) -> &'static str {
    match kind {
        KnownMime::PortablePixmap => "image/x-portable-pixmap",
        KnownMime::Gif => "image/gif",
        KnownMime::Jpeg => "image/jpeg",
        KnownMime::Png => "image/png",
    }
}

/// The file-name extension decides, compared without regard to ASCII case:
/// `.ppm`, `.pnm`, `.pgm` → PPM; `.gif`; `.jpg`, `.jpeg`; `.png`; else nothing.
pub open spec fn mime_for_path(path: Seq<u8>) -> Option<KnownMime> {
    if ends_with_ignore_case(path, seq![46u8, 112u8, 112u8, 109u8])
        || ends_with_ignore_case(path, seq![46u8, 112u8, 110u8, 109u8])
        || ends_with_ignore_case(path, seq![46u8, 112u8, 103u8, 109u8]) {
        Some(KnownMime::PortablePixmap)
    } else if ends_with_ignore_case(path, seq![46u8, 103u8, 105u8, 102u8]) {
        Some(KnownMime::Gif)
    } else if ends_with_ignore_case(path, seq![46u8, 106u8, 112u8, 103u8])
        || ends_with_ignore_case(path, seq![46u8, 106u8, 112u8, 101u8, 103u8]) {
        Some(KnownMime::Jpeg)
    } else if ends_with_ignore_case(path, seq![46u8, 112u8, 110u8, 103u8]) {
        Some(KnownMime::Png)
    } else {
        None
    }
}

impl KnownMime {
    pub fn name(self) -> (r: &'static str)
        ensures
            r == known_mime_name(self),
    {
        match self {
            KnownMime::PortablePixmap => "image/x-portable-pixmap",
            KnownMime::Gif => "image/gif",
            KnownMime::Jpeg => "image/jpeg",
            KnownMime::Png => "image/png",
        }
    }
}

pub fn mime_kind_for_path(path: &str) -> (r: Option<KnownMime>)
    ensures
        r == mime_for_path(path.spec_bytes()),
{
    let p = path.as_bytes();
    let ppm_ext: [u8; 4] = [46u8, 112u8, 112u8, 109u8];
    let pnm_ext: [u8; 4] = [46u8, 112u8, 110u8, 109u8];
    let pgm_ext: [u8; 4] = [46u8, 112u8, 103u8, 109u8];
    let gif_ext: [u8; 4] = [46u8, 103u8, 105u8, 102u8];
    let jpg_ext: [u8; 4] = [46u8, 106u8, 112u8, 103u8];
    let jpeg_ext: [u8; 5] = [46u8, 106u8, 112u8, 101u8, 103u8];
    let png_ext: [u8; 4] = [46u8, 112u8, 110u8, 103u8];
    assert(ppm_ext@ == seq![46u8, 112u8, 112u8, 109u8]);
    assert(pnm_ext@ == seq![46u8, 112u8, 110u8, 109u8]);
    assert(pgm_ext@ == seq![46u8, 112u8, 103u8, 109u8]);
    assert(gif_ext@ == seq![46u8, 103u8, 105u8, 102u8]);
    assert(jpg_ext@ == seq![46u8, 106u8, 112u8, 103u8]);
    assert(jpeg_ext@ == seq![46u8, 106u8, 112u8, 101u8, 103u8]);
    assert(png_ext@ == seq![46u8, 112u8, 110u8, 103u8]);
    if ends_with_ascii_ignore_case(p, ppm_ext.as_slice()) || ends_with_ascii_ignore_case(p, pnm_ext.as_slice())
        || ends_with_ascii_ignore_case(p, pgm_ext.as_slice()) {
        Some(KnownMime::PortablePixmap)
    } else if ends_with_ascii_ignore_case(p, gif_ext.as_slice()) {
        Some(KnownMime::Gif)
    } else if ends_with_ascii_ignore_case(p, jpg_ext.as_slice()) || ends_with_ascii_ignore_case(p, jpeg_ext.as_slice()) {
        Some(KnownMime::Jpeg)
    } else if ends_with_ascii_ignore_case(p, png_ext.as_slice()) {
        Some(KnownMime::Png)
    } else {
        None
    }
}

/// The MIME type that a file name suggests, by its extension.
pub fn detect_mime(path: &str) -> (r: Option<&'static str>)
    ensures
        r == (match mime_for_path(path.spec_bytes()) {
            Some(kind) => Some(known_mime_name(kind)),
            None => None,
        }),
{
    match mime_kind_for_path(path) {
        Some(kind) => Some(kind.name()),
        None => None,
    }
}

} // verus!
