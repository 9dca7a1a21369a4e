//! The integer arithmetic of the software renderer: blending, fills, checksums,
//! node colors and the bounds of what was drawn. Pixels are RGBA bytes, row by row.

use vstd::prelude::*;
use crate::compositor::{CompositorNode, CompositorNodeRole, CompositorNodeStatus};
use crate::scene::SceneSourceKind;
use crate::text::{chars_of, push_char, string_from_chars, trim, trim_spec};

verus! {

/// One channel of `source` laid over `destination` with opacity `alpha` out of 255.
pub open spec fn blend_channel_spec(source: u8, destination: u8, alpha: u16, inverse_alpha: u16) -> int {
    (source as int * alpha as int + destination as int * inverse_alpha as int + 127) / 255
}

/// Blends one channel, rounding to the nearest value.
pub fn blend_channel(source: u8, destination: u8, alpha: u16, inverse_alpha: u16) -> (r: u8)
    requires
        alpha as int + inverse_alpha as int == 255,
    ensures
        r as int == blend_channel_spec(source, destination, alpha, inverse_alpha),
{
    let s = source as u16;
    let d = destination as u16;
    assert(s * alpha + d * inverse_alpha <= 255 * 255) by (nonlinear_arith)
        requires
            s <= 255,
            d <= 255,
            alpha + inverse_alpha == 255,
    ;
    assert(s * alpha + d * inverse_alpha + 127 < 256 * 255) by (nonlinear_arith)
        requires
            s * alpha + d * inverse_alpha <= 255 * 255,
    ;
    ((s * alpha + d * inverse_alpha + 127) / 255) as u8
}

/// The pixel at `offset` after laying `color` over it: each color channel blended,
/// the alpha channel accumulated.
pub open spec fn blended(old: Seq<u8>, offset: int, color: [u8; 4]) -> Seq<u8> {
    let a = color[3] as u16;
    let ia = (255 - color[3]) as u16;
    let alpha = a as int + old[offset + 3] as int * ia as int / 255;
    old.update(offset, blend_channel_spec(color[0], old[offset], a, ia) as u8)
        .update(offset + 1, blend_channel_spec(color[1], old[offset + 1], a, ia) as u8)
        .update(offset + 2, blend_channel_spec(color[2], old[offset + 2], a, ia) as u8)
        .update(offset + 3, (if alpha > 255 { 255 } else { alpha }) as u8)
}

/// Lays `color` over the pixel at `offset`.
pub fn blend_pixel(pixels: &mut Vec<u8>, offset: usize, color: [u8; 4])
    requires
        offset + 4 <= old(pixels)@.len(),
    ensures
        final(pixels)@ == blended(old(pixels)@, offset as int, color),
{
    let n = pixels.len();
    assert(offset + 4 <= n);
    let a = color[3] as u16;
    let ia: u16 = 255 - a;
    let r = blend_channel(color[0], pixels[offset], a, ia);
    let g = blend_channel(color[1], pixels[offset + 1], a, ia);
    let b = blend_channel(color[2], pixels[offset + 2], a, ia);
    let d = pixels[offset + 3] as u16;
    assert(d * ia <= 255 * 255) by (nonlinear_arith)
        requires
            d <= 255,
            ia <= 255,
    ;
    let sum: u16 = a + d * ia / 255;
    let alpha: u8 = if sum > 255 { 255 } else { sum as u8 };
    pixels.set(offset, r);
    pixels.set(offset + 1, g);
    pixels.set(offset + 2, b);
    pixels.set(offset + 3, alpha);
}

/// Every whole pixel painted with the background; trailing bytes that do not make a
/// pixel are left alone.
pub open spec fn filled(old: Seq<u8>, background: [u8; 4]) -> Seq<u8> {
    Seq::new(old.len(), |i: int| if i < old.len() / 4 * 4 { background[i % 4] } else { old[i] })
}

/// Paints every pixel with the background color.
pub fn fill_background(pixels: &mut Vec<u8>, background: [u8; 4])
    ensures
        final(pixels)@ == filled(old(pixels)@, background),
{
    let n = pixels.len();
    let whole = n / 4 * 4;
    let mut i: usize = 0;
    while i < whole
        invariant
            n == pixels@.len(),
            n == old(pixels)@.len(),
            whole == n / 4 * 4,
            i <= whole,
            forall|k: int| 0 <= k < i ==> pixels@[k] == background[k % 4],
            forall|k: int| i <= k < n ==> pixels@[k] == old(pixels)@[k],
        decreases whole - i,
    {
        pixels.set(i, background[i % 4]);
        i = i + 1;
    }
    assert(pixels@ =~= filled(old(pixels)@, background));
}

/// The 64-bit FNV-1a hash of the bytes.
pub open spec fn fnv1a(bytes: Seq<u8>) -> u64
    decreases bytes.len(),
{
    if bytes.len() == 0 {
        0xcbf2_9ce4_8422_2325
    } else {
        let h = fnv1a(bytes.drop_last()) ^ (bytes.last() as u64);
        ((h as nat * 0x0000_0100_0000_01b3nat) % 0x1_0000_0000_0000_0000nat) as u64
    }
}

/// The FNV-1a checksum of a frame's pixels.
pub fn checksum_pixels(pixels: &[u8]) -> (r: u64)
    ensures
        r == fnv1a(pixels@),
{
    let mut hash: u64 = 0xcbf2_9ce4_8422_2325;
    let mut i: usize = 0;
    while i < pixels.len()
        invariant
            i <= pixels@.len(),
            hash == fnv1a(pixels@.subrange(0, i as int)),
        decreases pixels@.len() - i,
    {
        assert(pixels@.subrange(0, i + 1 as int).drop_last() =~= pixels@.subrange(0, i as int));
        hash = hash ^ (pixels[i] as u64);
        hash = hash.wrapping_mul(0x0000_0100_0000_01b3);
        i = i + 1;
    }
    assert(pixels@.subrange(0, pixels@.len() as int) =~= pixels@);
    hash
}

/// A tint from 0 to 47 derived from an identifier's bytes.
pub open spec fn tint_hash(bytes: Seq<u8>) -> u8
    decreases bytes.len(),
{
    if bytes.len() == 0 {
        0
    } else {
        ((tint_hash(bytes.drop_last()) as nat * 31 % 256 + bytes.last() as nat) % 256) as u8
    }
}

/// A stable tint for a source, from its identifier's bytes.
pub fn stable_source_tint(value: &[u8]) -> (r: u8)
    ensures
        r == tint_hash(value@) % 48,
{
    let mut hash: u8 = 0;
    let mut i: usize = 0;
    while i < value.len()
        invariant
            i <= value@.len(),
            hash == tint_hash(value@.subrange(0, i as int)),
        decreases value@.len() - i,
    {
        assert(value@.subrange(0, i + 1 as int).drop_last() =~= value@.subrange(0, i as int));
        hash = hash.wrapping_mul(31).wrapping_add(value[i]);
        i = i + 1;
    }
    assert(value@.subrange(0, value@.len() as int) =~= value@);
    hash % 48
}

/// The color of a node's fill: by its status, or by its role when it is ready or
/// hidden.
pub open spec fn base_color_of(status: CompositorNodeStatus, role: CompositorNodeRole) -> (u8, u8, u8) {
    match status {
        CompositorNodeStatus::Unavailable => (133, 55, 71),
        CompositorNodeStatus::PermissionRequired => (202, 126, 46),
        CompositorNodeStatus::Placeholder => (94, 112, 139),
        _ => match role {
            CompositorNodeRole::Video => (43, 104, 217),
            CompositorNodeRole::Audio => (36, 170, 142),
            CompositorNodeRole::Overlay => (211, 137, 55),
            CompositorNodeRole::Text => (178, 81, 209),
            CompositorNodeRole::Group => (123, 139, 163),
        },
    }
}

/// The opaque fill color of a node.
pub fn node_base_color(node: &CompositorNode) -> (r: [u8; 4])
    ensures
        (r[0], r[1], r[2]) == base_color_of(node.status, node.role),
        r[3] == 255,
{
    let (red, green, blue): (u8, u8, u8) = match node.status {
        CompositorNodeStatus::Unavailable => (133, 55, 71),
        CompositorNodeStatus::PermissionRequired => (202, 126, 46),
        CompositorNodeStatus::Placeholder => (94, 112, 139),
        _ => match node.role {
            CompositorNodeRole::Video => (43, 104, 217),
            CompositorNodeRole::Audio => (36, 170, 142),
            CompositorNodeRole::Overlay => (211, 137, 55),
            CompositorNodeRole::Text => (178, 81, 209),
            CompositorNodeRole::Group => (123, 139, 163),
        },
    };
    [red, green, blue, 255]
}

/// The accent color of a kind of source.
pub open spec fn accent_color_of(kind: SceneSourceKind) -> (u8, u8, u8) {
    match kind {
        SceneSourceKind::Display => (45, 151, 230),
        SceneSourceKind::Window => (82, 118, 232),
        SceneSourceKind::Camera => (77, 205, 189),
        SceneSourceKind::AudioMeter => (66, 214, 139),
        SceneSourceKind::ImageMedia => (224, 146, 58),
        SceneSourceKind::BrowserOverlay => (209, 99, 191),
        SceneSourceKind::Text => (196, 114, 230),
        SceneSourceKind::Group => (148, 163, 184),
    }
}

/// The opaque accent color of a node, by the kind of its source.
pub fn node_accent_color(node: &CompositorNode) -> (r: [u8; 4])
    ensures
        (r[0], r[1], r[2]) == accent_color_of(node.source_kind),
        r[3] == 255,
{
    let (red, green, blue): (u8, u8, u8) = match node.source_kind {
        SceneSourceKind::Display => (45, 151, 230),
        SceneSourceKind::Window => (82, 118, 232),
        SceneSourceKind::Camera => (77, 205, 189),
        SceneSourceKind::AudioMeter => (66, 214, 139),
        SceneSourceKind::ImageMedia => (224, 146, 58),
        SceneSourceKind::BrowserOverlay => (209, 99, 191),
        SceneSourceKind::Text => (196, 114, 230),
        SceneSourceKind::Group => (148, 163, 184),
    };
    [red, green, blue, 255]
}

pub open spec fn hex_digit(d: nat) -> char {
    if d < 10 { ((d + 48) as u32) as char } else { ((d + 87) as u32) as char }
}

/// A byte as two lowercase hexadecimal digits.
pub open spec fn hex_byte(b: u8) -> Seq<char> {
    seq![hex_digit(b as nat / 16), hex_digit(b as nat % 16)]
}

fn hex_digit_exec(d: u8) -> (r: char)
    requires
        d < 16,
    ensures
        r == hex_digit(d as nat),
{
    if d < 10 { (d + 48) as char } else { (d + 87) as char }
}

/// `#rrggbb` for a color, in lowercase.
pub fn normalized_hex_color(color: [u8; 4]) -> (r: String)
    ensures
        r@ == seq!['#'] + hex_byte(color[0]) + hex_byte(color[1]) + hex_byte(color[2]),
{
    let mut s = String::new();
    push_char(&mut s, '#');
    let mut k: usize = 0;
    while k < 3
        invariant
            k <= 3,
            s@.len() == 1 + 2 * k,
            s@ == seq!['#'] + (if k >= 1 { hex_byte(color[0]) } else { seq![] }) + (if k >= 2 {
                hex_byte(color[1])
            } else {
                seq![]
            }) + (if k >= 3 { hex_byte(color[2]) } else { seq![] }),
        decreases 3 - k,
    {
        let ghost before = s@;
        let b = color[k];
        push_char(&mut s, hex_digit_exec(b / 16));
        push_char(&mut s, hex_digit_exec(b % 16));
        assert(s@ =~= before + hex_byte(b));
        k = k + 1;
        assert(s@ =~= seq!['#'] + (if k >= 1 { hex_byte(color[0]) } else { seq![] }) + (if k >= 2 {
            hex_byte(color[1])
        } else {
            seq![]
        }) + (if k >= 3 { hex_byte(color[2]) } else { seq![] }));
    }
    s
}

/// The value of a hexadecimal digit in either case.
pub open spec fn hex_value(c: char) -> Option<u8> {
    if '0' <= c && c <= '9' {
        Some((c as u32 - 48) as u8)
    } else if 'a' <= c && c <= 'f' {
        Some((c as u32 - 87) as u8)
    } else if 'A' <= c && c <= 'F' {
        Some((c as u32 - 55) as u8)
    } else {
        None
    }
}

/// A two-character color channel read as a base-16 `u8`, as `u8::from_str_radix` reads
/// it: two digits, or a plus sign and one digit.
pub open spec fn channel_value(c0: char, c1: char) -> Option<u8> {
    if c0 == '+' {
        hex_value(c1)
    } else {
        match (hex_value(c0), hex_value(c1)) {
            (Some(h), Some(l)) => Some((h * 16 + l) as u8),
            _ => None,
        }
    }
}

/// The digits after `#` in a trimmed color, if it starts with `#`.
pub open spec fn color_digits(value: Seq<char>) -> Option<Seq<char>> {
    let t = trim_spec(value);
    if t.len() > 0 && t[0] == '#' {
        Some(t.drop_first())
    } else {
        None
    }
}

/// The red, green and blue channels of a `#rrggbb` color, if it is one.
pub open spec fn parsed_color(value: Seq<char>) -> Option<(u8, u8, u8)> {
    match color_digits(value) {
        Some(h) => if h.len() == 6 {
            match (channel_value(h[0], h[1]), channel_value(h[2], h[3]), channel_value(h[4], h[5])) {
                (Some(r), Some(g), Some(b)) => Some((r, g, b)),
                _ => None,
            }
        } else {
            None
        },
        None => None,
    }
}

proof fn lemma_hex_byte_channel(b: u8)
    ensures
        channel_value(hex_byte(b)[0], hex_byte(b)[1]) == Some(b),
        !crate::text::is_ws(hex_byte(b)[0]) && !crate::text::is_ws(hex_byte(b)[1]),
{
    let hi = b as nat / 16;
    let lo = b as nat % 16;
    assert(hi < 16 && lo < 16);
    assert(b == hi * 16 + lo);
}

/// Reading back a color written as `#rrggbb` gives its red, green and blue.
pub proof fn lemma_hex_color_round_trip(color: [u8; 4])
    ensures
        parsed_color(seq!['#'] + hex_byte(color[0]) + hex_byte(color[1]) + hex_byte(color[2])) == Some(
            (color[0], color[1], color[2]),
        ),
{
    let s = seq!['#'] + hex_byte(color[0]) + hex_byte(color[1]) + hex_byte(color[2]);
    lemma_hex_byte_channel(color[0]);
    lemma_hex_byte_channel(color[1]);
    lemma_hex_byte_channel(color[2]);
    assert(s.len() == 7);
    assert(!crate::text::is_ws(s[0]));
    assert(s.last() == hex_byte(color[2])[1]);
    assert(crate::text::trim_ws_start(s) == s);
    assert(crate::text::trim_ws_end(s) == s);
    let h = s.drop_first();
    assert(h[0] == hex_byte(color[0])[0] && h[1] == hex_byte(color[0])[1]);
    assert(h[2] == hex_byte(color[1])[0] && h[3] == hex_byte(color[1])[1]);
    assert(h[4] == hex_byte(color[2])[0] && h[5] == hex_byte(color[2])[1]);
}

/// The number of bytes a character takes in UTF-8.
pub open spec fn utf8_len(c: char) -> nat {
    let u = c as u32;
    if u < 0x80 {
        1
    } else if u < 0x800 {
        2
    } else if u < 0x10000 {
        3
    } else {
        4
    }
}

/// The number of bytes a string takes in UTF-8.
pub open spec fn utf8_byte_len(s: Seq<char>) -> nat
    decreases s.len(),
{
    if s.len() == 0 {
        0
    } else {
        utf8_byte_len(s.drop_last()) + utf8_len(s.last())
    }
}

/// Byte offset `k` falls between two characters of `s`.
pub open spec fn on_char_boundary(s: Seq<char>, k: int) -> bool {
    exists|i: int| 0 <= i <= s.len() && #[trigger] utf8_byte_len(s.take(i)) == k
}

/// The digits are six bytes long, but cutting them into three two-byte channels would
/// split a character (the case in which slicing them panics).
pub open spec fn color_channels_split_char(h: Seq<char>) -> bool {
    utf8_byte_len(h) == 6 && !(on_char_boundary(h, 2) && on_char_boundary(h, 4))
}

fn hex_value_exec(c: char) -> (r: Option<u8>)
    ensures
        r == hex_value(c),
{
    if '0' <= c && c <= '9' {
        Some((c as u32 - 48) as u8)
    } else if 'a' <= c && c <= 'f' {
        Some((c as u32 - 87) as u8)
    } else if 'A' <= c && c <= 'F' {
        Some((c as u32 - 55) as u8)
    } else {
        None
    }
}

fn channel_exec(c0: char, c1: char) -> (r: Option<u8>)
    ensures
        r == channel_value(c0, c1),
{
    if c0 == '+' {
        return hex_value_exec(c1);
    }
    match (hex_value_exec(c0), hex_value_exec(c1)) {
        (Some(h), Some(l)) => Some(h * 16 + l),
        _ => None,
    }
}

fn parse_color_channels(value: &str) -> (r: Option<(u8, u8, u8)>)
    ensures
        r == parsed_color(value@),
{
    let t = trim(value);
    let cs = chars_of(t.as_str());
    if cs.len() != 7 || cs[0] != '#' {
        proof {
            if cs@.len() > 0 && cs@[0] == '#' {
                assert(cs@.drop_first().len() != 6);
            }
        }
        return None;
    }
    proof {
        let h = cs@.drop_first();
        assert(h[0] == cs@[1] && h[1] == cs@[2] && h[2] == cs@[3]);
        assert(h[3] == cs@[4] && h[4] == cs@[5] && h[5] == cs@[6]);
    }
    match (channel_exec(cs[1], cs[2]), channel_exec(cs[3], cs[4]), channel_exec(cs[5], cs[6])) {
        (Some(r), Some(g), Some(b)) => Some((r, g, b)),
        _ => None,
    }
}

/// The background color of the output: `#rrggbb` after trimming, opaque; a dark
/// default otherwise.
pub fn parse_background_color(value: &str) -> (r: [u8; 4])
    requires
        color_digits(value@) matches Some(h) ==> !color_channels_split_char(h),
    ensures
        match parsed_color(value@) {
            Some((red, green, blue)) => r@ == seq![red, green, blue, 255u8],
            None => r@ == seq![5u8, 7u8, 17u8, 255u8],
        },
{
    match parse_color_channels(value) {
        Some((red, green, blue)) => {
            let r = [red, green, blue, 255];
            assert(r@ =~= seq![red, green, blue, 255u8]);
            r
        },
        None => {
            let r = [5, 7, 17, 255];
            assert(r@ =~= seq![5u8, 7u8, 17u8, 255u8]);
            r
        },
    }
}

/// The color of a text source: `#rrggbb` after trimming, opaque; nothing otherwise.
pub fn parse_text_color(value: &str) -> (r: Option<[u8; 4]>)
    requires
        color_digits(value@) matches Some(h) ==> !color_channels_split_char(h),
    ensures
        match parsed_color(value@) {
            Some((red, green, blue)) => r matches Some(c) && c@ == seq![red, green, blue, 255u8],
            None => r is None,
        },
{
    match parse_color_channels(value) {
        Some((red, green, blue)) => {
            let c = [red, green, blue, 255];
            assert(c@ =~= seq![red, green, blue, 255u8]);
            Some(c)
        },
        None => None,
    }
}

/// The file path of a media asset URI: trimmed, without a `file://` prefix; nothing
/// when blank.
pub open spec fn asset_path_spec(uri: Seq<char>) -> Option<Seq<char>> {
    let t = trim_spec(uri);
    if t.len() == 0 {
        None
    } else if "file://"@.len() <= t.len() && t.subrange(0, "file://"@.len() as int) == "file://"@ {
        Some(t.subrange("file://"@.len() as int, t.len() as int))
    } else {
        Some(t)
    }
}

/// The file path that a media asset URI names.
pub fn asset_uri_path(asset_uri: &str) -> (r: Option<String>)
    ensures
        match r {
            Some(p) => asset_path_spec(asset_uri@) == Some(p@),
            None => asset_path_spec(asset_uri@) is None,
        },
{
    let t = trim(asset_uri);
    if t.unicode_len() == 0 {
        return None;
    }
    if crate::text::starts_with(t.as_str(), "file://") {
        let cs = chars_of(t.as_str());
        let n = "file://".unicode_len();
        let mut out: Vec<char> = Vec::new();
        let mut k: usize = n;
        while k < cs.len()
            invariant
                cs@ == t@,
                n == "file://"@.len(),
                n <= k <= cs@.len(),
                out@ == t@.subrange(n as int, k as int),
            decreases cs@.len() - k,
        {
            out.push(cs[k]);
            k = k + 1;
            assert(out@ =~= t@.subrange(n as int, k as int));
        }
        Some(string_from_chars(out.as_slice()))
    } else {
        Some(t)
    }
}

/// The image formats the renderer decodes, by lowercase extension.
pub open spec fn supported_extension(ext: Seq<char>) -> bool {
    ext == "png"@ || ext == "jpg"@ || ext == "jpeg"@ || ext == "webp"@ || ext == "gif"@
}

/// A file extension lowercased, when it names a supported image format.
pub fn supported_image_extension(extension: &str) -> (r: Option<String>)
    ensures
        match r {
            Some(e) => supported_extension(e@) && e@ == crate::text::ascii_lower(extension@),
            None => !supported_extension(crate::text::ascii_lower(extension@)),
        },
{
    let e = crate::text::to_ascii_lowercase(extension);
    let s = e.as_str();
    if crate::text::str_eq(s, "png") || crate::text::str_eq(s, "jpg") || crate::text::str_eq(s, "jpeg")
        || crate::text::str_eq(s, "webp") || crate::text::str_eq(s, "gif") {
        Some(e)
    } else {
        None
    }
}

// ---------------------------------------------------------------------------------
// The bounds of what was drawn

/// The pixel at column `x` and row `y` of a frame `w` pixels wide is not transparent.
pub open spec fn opaque_at(pixels: Seq<u8>, w: int, x: int, y: int) -> bool {
    pixels[(y * w + x) * 4 + 3] != 0
}

/// A rectangle of pixels.
#[derive(Clone, Copy, Debug, PartialEq, Eq, Structural)]
pub struct PixelBounds {
    pub x: usize,
    pub y: usize,
    pub width: usize,
    pub height: usize,
}

/// The smallest rectangle holding every pixel that is not transparent, within a
/// frame of `w` by `h` pixels.
pub open spec fn bounds_of(r: Option<PixelBounds>, pixels: Seq<u8>, w: int, h: int) -> bool {
    let any = exists|x: int, y: int| 0 <= x < w && 0 <= y < h && #[trigger] opaque_at(pixels, w, x, y);
    match r {
        None => !any,
        Some(b) => {
            &&& any
            &&& forall|x: int, y: int| 0 <= x < w && 0 <= y < h && #[trigger] opaque_at(pixels, w, x, y) ==> b.x <= x
                < b.x + b.width && b.y <= y < b.y + b.height
            &&& exists|x: int, y: int| 0 <= x < w && 0 <= y < h && #[trigger] opaque_at(pixels, w, x, y) && x == b.x
            &&& exists|x: int, y: int| 0 <= x < w && 0 <= y < h && #[trigger] opaque_at(pixels, w, x, y) && y == b.y
            &&& exists|x: int, y: int| 0 <= x < w && 0 <= y < h && #[trigger] opaque_at(pixels, w, x, y) && x == b.x
                + b.width - 1
            &&& exists|x: int, y: int| 0 <= x < w && 0 <= y < h && #[trigger] opaque_at(pixels, w, x, y) && y == b.y
                + b.height - 1
        },
    }
}

proof fn lemma_pixel_index(w: int, h: int, x: int, y: int)
    requires
        0 <= x < w,
        0 <= y < h,
    ensures
        (y * w + x) * 4 + 3 < w * h * 4,
        0 <= y * w + x,
{
    assert(y * w + x < w * h) by (nonlinear_arith)
        requires
            0 <= x < w,
            0 <= y < h,
    ;
    assert(0 <= y * w) by (nonlinear_arith)
        requires
            0 <= y,
            0 <= w,
    ;
}

/// The bounds of the pixels that are not transparent, in a frame `width` by `height`
/// (each taken as at least one).
pub fn alpha_bounds(pixels: &[u8], width: u32, height: u32) -> (r: Option<PixelBounds>)
    requires
        (if width == 0 { 1 } else { width as int }) * (if height == 0 { 1 } else { height as int }) * 4
            <= pixels@.len(),
    ensures
        bounds_of(r, pixels@, if width == 0 { 1 } else { width as int }, if height == 0 { 1 } else { height as int }),
{
    let w: usize = if width == 0 { 1 } else { width as usize };
    let h: usize = if height == 0 { 1 } else { height as usize };
    let ghost ps = pixels@;
    let mut min_x: usize = w;
    let mut min_y: usize = h;
    let mut max_x: usize = 0;
    let mut max_y: usize = 0;
    let mut found = false;
    let ghost mut wx0: int = 0;
    let ghost mut wy0: int = 0;
    let ghost mut wx1: int = 0;
    let ghost mut wy1: int = 0;
    let ghost mut wx2: int = 0;
    let ghost mut wy2: int = 0;
    let ghost mut wx3: int = 0;
    let ghost mut wy3: int = 0;
    let mut y: usize = 0;
    while y < h
        invariant
            ps == pixels@,
            w as int * h as int * 4 <= ps.len(),
            w >= 1,
            h >= 1,
            y <= h,
            found ==> (min_x < w && min_y < h && max_x < w && max_y < h),
            !found ==> forall|x: int, yy: int| 0 <= x < w && 0 <= yy < y ==> !#[trigger] opaque_at(ps, w as int, x, yy),
            found ==> forall|x: int, yy: int| 0 <= x < w && 0 <= yy < y && #[trigger] opaque_at(ps, w as int, x, yy)
                ==> min_x <= x <= max_x && min_y <= yy <= max_y,
            found ==> (0 <= wx0 < w && 0 <= wy0 < y && opaque_at(ps, w as int, wx0, wy0) && wx0 == min_x),
            found ==> (0 <= wx1 < w && 0 <= wy1 < y && opaque_at(ps, w as int, wx1, wy1) && wy1 == min_y),
            found ==> (0 <= wx2 < w && 0 <= wy2 < y && opaque_at(ps, w as int, wx2, wy2) && wx2 == max_x),
            found ==> (0 <= wx3 < w && 0 <= wy3 < y && opaque_at(ps, w as int, wx3, wy3) && wy3 == max_y),
        decreases h - y,
    {
        let mut x: usize = 0;
        while x < w
            invariant
                ps == pixels@,
                w as int * h as int * 4 <= ps.len(),
                w >= 1,
                h >= 1,
                y < h,
                x <= w,
                found ==> (min_x < w && min_y < h && max_x < w && max_y < h),
                !found ==> forall|xx: int, yy: int| 0 <= xx < w && 0 <= yy < y ==> !#[trigger] opaque_at(ps, w as int, xx, yy),
                !found ==> forall|xx: int| 0 <= xx < x ==> !#[trigger] opaque_at(ps, w as int, xx, y as int),
                found ==> forall|xx: int, yy: int| 0 <= xx < w && 0 <= yy < y && #[trigger] opaque_at(ps, w as int, xx, yy)
                    ==> min_x <= xx <= max_x && min_y <= yy <= max_y,
                found ==> forall|xx: int| 0 <= xx < x && #[trigger] opaque_at(ps, w as int, xx, y as int) ==> min_x <= xx
                    <= max_x && min_y <= y <= max_y,
                found ==> (0 <= wx0 < w && 0 <= wy0 <= y && opaque_at(ps, w as int, wx0, wy0) && wx0 == min_x),
                found ==> (0 <= wx1 < w && 0 <= wy1 <= y && opaque_at(ps, w as int, wx1, wy1) && wy1 == min_y),
                found ==> (0 <= wx2 < w && 0 <= wy2 <= y && opaque_at(ps, w as int, wx2, wy2) && wx2 == max_x),
                found ==> (0 <= wx3 < w && 0 <= wy3 <= y && opaque_at(ps, w as int, wx3, wy3) && wy3 == max_y),
            decreases w - x,
        {
            proof {
                lemma_pixel_index(w as int, h as int, x as int, y as int);
            }
            let len = pixels.len();
            assert(0 <= (y as int) * (w as int) <= (y as int) * (w as int) + (x as int)) by (nonlinear_arith)
                requires
                    0 <= y,
                    0 <= w,
                    0 <= x,
            ;
            let idx = (y * w + x) * 4 + 3;
            let alpha = pixels[idx];
            if alpha != 0 {
                proof {
                    assert(opaque_at(ps, w as int, x as int, y as int));
                }
                if !found || x < min_x {
                    min_x = x;
                    proof { wx0 = x as int; wy0 = y as int; }
                }
                if !found || y < min_y {
                    min_y = y;
                    proof { wx1 = x as int; wy1 = y as int; }
                }
                if !found || x > max_x {
                    max_x = x;
                    proof { wx2 = x as int; wy2 = y as int; }
                }
                if !found || y > max_y {
                    max_y = y;
                    proof { wx3 = x as int; wy3 = y as int; }
                }
                found = true;
            }
            x = x + 1;
        }
        y = y + 1;
    }
    if found {
        let b = PixelBounds { x: min_x, y: min_y, width: max_x - min_x + 1, height: max_y - min_y + 1 };
        proof {
            assert(opaque_at(ps, w as int, wx0, wy0));
            assert(opaque_at(ps, w as int, wx1, wy1));
            assert(opaque_at(ps, w as int, wx2, wy2));
            assert(opaque_at(ps, w as int, wx3, wy3));
        }
        Some(b)
    } else {
        None
    }
}


// ---------------------------------------------------------------------------------
// Frames

/// A rendered frame of one target: RGBA rows, with the checksum of its pixels.
#[derive(Clone, Debug)]
pub struct SoftwareCompositorFrame {
    pub target_id: String,
    pub target_kind: crate::compositor::CompositorRenderTargetKind,
    pub width: u32,
    pub height: u32,
    pub frame_format: crate::compositor::CompositorFrameFormat,
    pub bytes_per_row: usize,
    pub checksum: u64,
    pub pixels: Vec<u8>,
}

/// A frame's side: the target's, at least one pixel.
pub open spec fn frame_side(v: u32) -> u32 {
    if v == 0 { 1 } else { v }
}

/// A frame buffer `width` by `height` (each at least one) painted with the background.
pub fn background_frame(width: u32, height: u32, background: [u8; 4]) -> (r: Vec<u8>)
    requires
        frame_side(width) as int * frame_side(height) as int * 4 <= usize::MAX,
    ensures
        r@.len() == frame_side(width) as int * frame_side(height) as int * 4,
        forall|i: int| 0 <= i < r@.len() ==> #[trigger] r@[i] == background[i % 4],
{
    let w = if width == 0 { 1usize } else { width as usize };
    let h = if height == 0 { 1usize } else { height as usize };
    assert(w as int * h as int <= usize::MAX) by (nonlinear_arith)
        requires
            w as int * h as int * 4 <= usize::MAX,
            w >= 1,
            h >= 1,
    ;
    let m = w * h;
    let n = m * 4;
    let mut pixels: Vec<u8> = Vec::new();
    let mut i: usize = 0;
    while i < n
        invariant
            i <= n,
            pixels@.len() == i,
            forall|k: int| 0 <= k < i ==> #[trigger] pixels@[k] == 0,
        decreases n - i,
    {
        pixels.push(0);
        i = i + 1;
    }
    fill_background(&mut pixels, background);
    assert(n / 4 * 4 == n);
    pixels
}

/// The frame of a target once its nodes are drawn: its side lengths (at least one),
/// four bytes per pixel and row, and the FNV-1a checksum of its pixels.
pub fn finish_software_frame(
    target_id: String,
    target_kind: crate::compositor::CompositorRenderTargetKind,
    width: u32,
    height: u32,
    pixels: Vec<u8>,
) -> (r: SoftwareCompositorFrame)
    requires
        frame_side(width) as int * 4 <= usize::MAX,
    ensures
        r.target_id == target_id,
        r.target_kind == target_kind,
        r.width == frame_side(width),
        r.height == frame_side(height),
        r.frame_format == crate::compositor::CompositorFrameFormat::Rgba8,
        r.bytes_per_row == frame_side(width) as int * 4,
        r.checksum == fnv1a(pixels@),
        r.pixels@ == pixels@,
{
    let w: u32 = if width == 0 { 1 } else { width };
    let h: u32 = if height == 0 { 1 } else { height };
    let checksum = checksum_pixels(pixels.as_slice());
    SoftwareCompositorFrame {
        target_id,
        target_kind,
        width: w,
        height: h,
        frame_format: crate::compositor::CompositorFrameFormat::Rgba8,
        bytes_per_row: (w as usize) * 4,
        checksum,
        pixels,
    }
}

#[derive(Clone, Copy, Debug, PartialEq, Eq, Structural)]
pub enum SoftwareCompositorAssetStatus {
    Decoded,
    MissingFile,
    UnsupportedExtension,
    DecodeFailed,
    VideoPlaceholder,
    NoAsset,
}

/// What the renderer knows of a media asset.
#[derive(Clone, Debug)]
pub struct SoftwareCompositorAssetMetadata {
    pub uri: String,
    pub status: SoftwareCompositorAssetStatus,
    pub status_detail: String,
    pub format: Option<String>,
    pub width: Option<u32>,
    pub height: Option<u32>,
    pub checksum: Option<u64>,
    pub modified_unix_ms: Option<u64>,
    pub cache_hit: bool,
}

/// Asset metadata before any decoding: no size, checksum or time, not from the cache.
pub fn asset_metadata(
    uri: String,
    status: SoftwareCompositorAssetStatus,
    status_detail: String,
    format: Option<String>,
) -> (r: SoftwareCompositorAssetMetadata)
    ensures
        r.uri == uri,
        r.status == status,
        r.status_detail == status_detail,
        r.format == format,
        r.width is None && r.height is None && r.checksum is None && r.modified_unix_ms is None,
        !r.cache_hit,
{
    SoftwareCompositorAssetMetadata {
        uri,
        status,
        status_detail,
        format,
        width: None,
        height: None,
        checksum: None,
        modified_unix_ms: None,
        cache_hit: false,
    }
}

/// A decoded image as the renderer keeps it: its size, format, the checksum of its
/// pixels and the RGBA pixels themselves.
#[derive(Clone, Debug)]
pub struct CachedDecodedImage {
    pub width: u32,
    pub height: u32,
    pub format: String,
    pub checksum: u64,
    pub pixels: Vec<u8>,
}

/// A decoded image as a value: its size, format, checksum and pixels.
pub struct CachedImageView {
    pub width: u32,
    pub height: u32,
    pub format: Seq<char>,
    pub checksum: u64,
    pub pixels: Seq<u8>,
}

impl View for CachedDecodedImage {
    type V = CachedImageView;

    open spec fn view(&self) -> CachedImageView {
        CachedImageView {
            width: self.width,
            height: self.height,
            format: self.format@,
            checksum: self.checksum,
            pixels: self.pixels@,
        }
    }
}

fn copy_bytes(v: &Vec<u8>) -> (r: Vec<u8>)
    ensures
        r@ == v@,
{
    let mut r: Vec<u8> = Vec::new();
    let mut i: usize = 0;
    while i < v.len()
        invariant
            i <= v@.len(),
            r@ == v@.subrange(0, i as int),
        decreases v@.len() - i,
    {
        r.push(v[i]);
        i = i + 1;
        assert(r@ =~= v@.subrange(0, i as int));
    }
    assert(r@ =~= v@);
    r
}

impl CachedDecodedImage {
    /// A copy of the image.
    pub fn copy(&self) -> (r: CachedDecodedImage)
        ensures
            r@ == self@,
    {
        CachedDecodedImage {
            width: self.width,
            height: self.height,
            format: crate::text::DeepCopy::deep_copy(&self.format),
            checksum: self.checksum,
            pixels: copy_bytes(&self.pixels),
        }
    }
}

/// An image asset ready to draw: when its file was last modified, and whether it came
/// from the cache.
#[derive(Clone, Debug)]
pub struct DecodedImageAsset {
    pub modified_unix_ms: u64,
    pub cache_hit: bool,
    pub image: CachedDecodedImage,
}

/// What was found on disk for an image asset's path: nothing, something that is not a
/// file, an image already decoded for the file at its modification time, a freshly
/// decoded image (its size and RGBA pixels), or a decoding error.
#[derive(Clone, Debug)]
pub enum ImageAssetProbe {
    Missing,
    NotAFile,
    Cached { modified_unix_ms: u64, image: CachedDecodedImage },
    Decoded { modified_unix_ms: u64, width: u32, height: u32, pixels: Vec<u8> },
    DecodeFailed(String),
}

/// Asset metadata that records only a status, its detail and the format.
pub open spec fn bare_asset_metadata(
    m: SoftwareCompositorAssetMetadata,
    uri: Seq<char>,
    status: SoftwareCompositorAssetStatus,
    detail: Seq<char>,
    format: Option<Seq<char>>,
) -> bool {
    &&& m.uri@ == uri
    &&& m.status == status
    &&& m.status_detail@ == detail
    &&& match format {
        Some(f) => m.format matches Some(g) && g@ == f,
        None => m.format is None,
    }
    &&& m.width is None && m.height is None && m.checksum is None && m.modified_unix_ms is None
    &&& !m.cache_hit
}

/// The format an extension names, lowercased, when it is a supported one.
pub open spec fn image_format(extension: Option<String>) -> Option<Seq<char>> {
    match extension {
        Some(e) => if supported_extension(crate::text::ascii_lower(e@)) {
            Some(crate::text::ascii_lower(e@))
        } else {
            None
        },
        None => None,
    }
}

/// What becomes of an image asset of a supported `format` once its file was probed.
pub open spec fn probed_image_asset(
    r: Result<DecodedImageAsset, SoftwareCompositorAssetMetadata>,
    uri: Seq<char>,
    path: Seq<char>,
    format: Seq<char>,
    probe: ImageAssetProbe,
) -> bool {
    match probe {
        ImageAssetProbe::Missing => (r matches Err(m) && bare_asset_metadata(m, uri,
            SoftwareCompositorAssetStatus::MissingFile, "Image asset file does not exist: "@ + path, Some(format))),
        ImageAssetProbe::NotAFile => (r matches Err(m) && bare_asset_metadata(m, uri,
            SoftwareCompositorAssetStatus::MissingFile, "Image asset path is not a file: "@ + path, Some(format))),
        ImageAssetProbe::Cached { modified_unix_ms, image } => (r matches Ok(d) && d.modified_unix_ms
            == modified_unix_ms && d.cache_hit && d.image == image),
        ImageAssetProbe::Decoded { modified_unix_ms, width, height, pixels } => (r matches Ok(d)
            && d.modified_unix_ms == modified_unix_ms && !d.cache_hit && d.image.width == width && d.image.height
            == height && d.image.format@ == format && d.image.checksum == fnv1a(pixels@) && d.image.pixels@
            == pixels@),
        ImageAssetProbe::DecodeFailed(error) => (r matches Err(m) && bare_asset_metadata(m, uri,
            SoftwareCompositorAssetStatus::DecodeFailed, "Image asset could not be decoded: "@ + error@, Some(format))),
    }
}

/// The image asset for `asset_uri`, given the extension of the path it names, that
/// path as shown, and what was found for it: no file, something that is not a file, a
/// cached image, a decoded one or a decoding error. Without a path the asset is
/// missing; with an extension other than png, jpg, jpeg, webp or gif it is
/// unsupported; then the file must exist, be a file and decode. A fresh image gets the
/// checksum of its pixels.
pub fn image_asset_from_probe(
    asset_uri: &str,
    extension: Option<String>,
    normalized_path: &str,
    probe: ImageAssetProbe,
) -> (r: Result<DecodedImageAsset, SoftwareCompositorAssetMetadata>)
    ensures
        match asset_path_spec(asset_uri@) {
            None => (r matches Err(m) && bare_asset_metadata(m, asset_uri@, SoftwareCompositorAssetStatus::NoAsset,
                "No local image asset has been selected."@, None)),
            Some(_) => match image_format(extension) {
                None => (r matches Err(m) && bare_asset_metadata(m, asset_uri@,
                    SoftwareCompositorAssetStatus::UnsupportedExtension,
                    "Unsupported image extension. Supported image assets are png, jpg, jpeg, webp, and gif."@, None)),
                Some(format) => probed_image_asset(r, asset_uri@, normalized_path@, format, probe),
            },
        },
{
    let uri = String::from_str(asset_uri);
    if asset_uri_path(asset_uri).is_none() {
        return Err(asset_metadata(uri, SoftwareCompositorAssetStatus::NoAsset,
            String::from_str("No local image asset has been selected."), None));
    }
    let format = match extension {
        Some(e) => supported_image_extension(e.as_str()),
        None => None,
    };
    let format = match format {
        Some(f) => f,
        None => {
            return Err(asset_metadata(uri, SoftwareCompositorAssetStatus::UnsupportedExtension,
                String::from_str("Unsupported image extension. Supported image assets are png, jpg, jpeg, webp, and gif."),
                None));
        },
    };
    match probe {
        ImageAssetProbe::Missing => Err(asset_metadata(uri, SoftwareCompositorAssetStatus::MissingFile,
            crate::text::cat2("Image asset file does not exist: ", normalized_path), Some(format))),
        ImageAssetProbe::NotAFile => Err(asset_metadata(uri, SoftwareCompositorAssetStatus::MissingFile,
            crate::text::cat2("Image asset path is not a file: ", normalized_path), Some(format))),
        ImageAssetProbe::Cached { modified_unix_ms, image } => Ok(DecodedImageAsset {
            modified_unix_ms,
            cache_hit: true,
            image,
        }),
        ImageAssetProbe::Decoded { modified_unix_ms, width, height, pixels } => {
            let checksum = checksum_pixels(pixels.as_slice());
            Ok(DecodedImageAsset {
                modified_unix_ms,
                cache_hit: false,
                image: CachedDecodedImage { width, height, format, checksum, pixels },
            })
        },
        ImageAssetProbe::DecodeFailed(error) => Err(asset_metadata(uri, SoftwareCompositorAssetStatus::DecodeFailed,
            crate::text::cat2("Image asset could not be decoded: ", error.as_str()), Some(format))),
    }
}

/// What decoding `bytes` as an image gives: its width, height and RGBA pixels, or the
/// decoder's error text.
pub uninterp spec fn image_decode(bytes: Seq<u8>, format: Seq<char>) -> Result<(u32, u32, Seq<u8>), Seq<char>>;

/// Decodes an image held in memory with the `image` crate: an `ImageReader` over the
/// bytes, set to the format that the extension names and then to the format that the
/// first bytes show, if they show one; the result converted to 8-bit RGBA. The contract
/// claims only that the outcome is `image_decode` of the bytes and the format; what the
/// decoders accept and produce is left to the crate.
#[verifier::external_body]
fn decode_rgba(bytes: &[u8], format: &str) -> (r: Result<(u32, u32, Vec<u8>), String>)
    requires
        supported_extension(format@),
    ensures
        match r {
            Ok((width, height, pixels)) => image_decode(bytes@, format@) == Ok::<(u32, u32, Seq<u8>), Seq<char>>((width, height, pixels@)),
            Err(e) => image_decode(bytes@, format@) == Err::<(u32, u32, Seq<u8>), Seq<char>>(e@),
        },
{
    let hint = image::ImageFormat::from_extension(format).unwrap();
    let reader = image::ImageReader::with_format(std::io::Cursor::new(bytes), hint);
    let rgba = match reader.with_guessed_format() {
        Ok(reader) => match reader.decode() {
            Ok(image) => image.to_rgba8(),
            Err(error) => return Err(error.to_string()),
        },
        Err(error) => return Err(error.to_string()),
    };
    let (width, height) = rgba.dimensions();
    Ok((width, height, rgba.into_raw()))
}

/// What was found on disk for an image asset's path: nothing, something that is not a
/// file, an image already decoded for the file at its modification time, the error
/// from reading the file, or the file's bytes.
#[derive(Clone, Debug)]
pub enum ImageAssetFile {
    Missing,
    NotAFile,
    Cached { modified_unix_ms: u64, image: CachedDecodedImage },
    ReadFailed(String),
    Read { modified_unix_ms: u64, bytes: Vec<u8> },
}

/// What becomes of an image asset of a supported `format` once its file was read.
pub open spec fn read_image_asset(
    r: Result<DecodedImageAsset, SoftwareCompositorAssetMetadata>,
    uri: Seq<char>,
    path: Seq<char>,
    format: Seq<char>,
    file: ImageAssetFile,
) -> bool {
    match file {
        ImageAssetFile::Missing => probed_image_asset(r, uri, path, format, ImageAssetProbe::Missing),
        ImageAssetFile::NotAFile => probed_image_asset(r, uri, path, format, ImageAssetProbe::NotAFile),
        ImageAssetFile::Cached { modified_unix_ms, image } => probed_image_asset(r, uri, path, format,
            ImageAssetProbe::Cached { modified_unix_ms, image }),
        ImageAssetFile::ReadFailed(error) => (r matches Err(m) && bare_asset_metadata(m, uri,
            SoftwareCompositorAssetStatus::DecodeFailed, "Image asset could not be decoded: "@ + error@, Some(format))),
        ImageAssetFile::Read { modified_unix_ms, bytes } => match image_decode(bytes@, format) {
            Ok((width, height, pixels)) => (r matches Ok(d) && d.modified_unix_ms == modified_unix_ms && !d.cache_hit
                && d.image.width == width && d.image.height == height && d.image.format@ == format && d.image.checksum
                == fnv1a(pixels) && d.image.pixels@ == pixels),
            Err(error) => (r matches Err(m) && bare_asset_metadata(m, uri, SoftwareCompositorAssetStatus::DecodeFailed,
                "Image asset could not be decoded: "@ + error, Some(format))),
        },
    }
}

/// The image asset for `asset_uri`, given the extension of the path it names, that
/// path as shown, and what was found on disk; a file that was read is decoded here.
pub fn decode_image_asset(
    asset_uri: &str,
    extension: Option<String>,
    normalized_path: &str,
    file: ImageAssetFile,
) -> (r: Result<DecodedImageAsset, SoftwareCompositorAssetMetadata>)
    ensures
        match asset_path_spec(asset_uri@) {
            None => (r matches Err(m) && bare_asset_metadata(m, asset_uri@, SoftwareCompositorAssetStatus::NoAsset,
                "No local image asset has been selected."@, None)),
            Some(_) => match image_format(extension) {
                None => (r matches Err(m) && bare_asset_metadata(m, asset_uri@,
                    SoftwareCompositorAssetStatus::UnsupportedExtension,
                    "Unsupported image extension. Supported image assets are png, jpg, jpeg, webp, and gif."@, None)),
                Some(format) => read_image_asset(r, asset_uri@, normalized_path@, format, file),
            },
        },
{
    let format = match &extension {
        Some(e) => supported_image_extension(e.as_str()),
        None => None,
    };
    let probe = match format {
        None => ImageAssetProbe::Missing,
        Some(format) => match file {
            ImageAssetFile::Missing => ImageAssetProbe::Missing,
            ImageAssetFile::NotAFile => ImageAssetProbe::NotAFile,
            ImageAssetFile::Cached { modified_unix_ms, image } => ImageAssetProbe::Cached { modified_unix_ms, image },
            ImageAssetFile::ReadFailed(error) => ImageAssetProbe::DecodeFailed(error),
            ImageAssetFile::Read { modified_unix_ms, bytes } => match decode_rgba(bytes.as_slice(), format.as_str()) {
                Ok((width, height, pixels)) => ImageAssetProbe::Decoded { modified_unix_ms, width, height, pixels },
                Err(error) => ImageAssetProbe::DecodeFailed(error),
            },
        },
    };
    image_asset_from_probe(asset_uri, extension, normalized_path, probe)
}

#[derive(Clone, Copy, Debug, PartialEq, Eq, Structural)]
pub enum SoftwareCompositorTextStatus {
    Rendered,
    FontFallback,
    Empty,
    InvalidColor,
}

} // verus!
