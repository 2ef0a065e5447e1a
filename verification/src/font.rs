use vstd::prelude::*;

use crate::sdk::surface::Color;

verus! {

pub const NONE: i32 = 0x000;
pub const ITALIC: i32 = 0x001;
pub const UNDERLINE: i32 = 0x002;
pub const STRIKEOUT: i32 = 0x004;
pub const SYMBOL: i32 = 0x008;
pub const ANTI_ALIAS: i32 = 0x010;
pub const GAUSSIAN_BLUR: i32 = 0x020;
pub const ROTARY: i32 = 0x040;
pub const DROP_SHADOW: i32 = 0x080;
pub const ADDITIVE: i32 = 0x100;
pub const OUTLINE: i32 = 0x200;
pub const CUSTOM: i32 = 0x400;
pub const BITMAP: i32 = 0x800;

/// Every font flag bit that has a name.
pub const ALL_FONT_FLAGS: i32 = ITALIC | UNDERLINE | STRIKEOUT | SYMBOL | ANTI_ALIAS | GAUSSIAN_BLUR
    | ROTARY | DROP_SHADOW | ADDITIVE | OUTLINE | CUSTOM | BITMAP;

/// The rendering options of a font, one bit per option.
#[derive(Debug, Clone, Copy, PartialEq, Eq, Structural)]
pub struct FontFlags {
    bits: i32,
}

impl FontFlags {
    /// The bits of the options set.
    pub closed spec fn spec_bits(self) -> i32 {
        self.bits
    }

    /// The options whose bits are set in `bits`; bits without a named option are dropped.
    pub fn from_bits_truncate(bits: i32) -> (r: FontFlags)
        ensures
            r.spec_bits() == bits & ALL_FONT_FLAGS,
    {
        FontFlags { bits: bits & ALL_FONT_FLAGS }
    }

    /// The bits of the options set.
    pub fn bits(&self) -> (r: i32)
        ensures
            r == self.spec_bits(),
    {
        self.bits
    }

    /// Whether every option of `other` is set.
    pub fn contains(&self, other: FontFlags) -> (r: bool)
        ensures
            r == ((self.spec_bits() & other.spec_bits()) == other.spec_bits()),
    {
        (self.bits & other.bits) == other.bits
    }

    /// The options set in either.
    pub fn union(self, other: FontFlags) -> (r: FontFlags)
        ensures
            r.spec_bits() == self.spec_bits() | other.spec_bits(),
    {
        FontFlags { bits: self.bits | other.bits }
    }
}

/// The fonts text is drawn with.
#[derive(Debug, Clone, Copy, PartialEq, Eq, Structural)]
pub enum FontType {
    Outline,
    Shadow,
}

/// The handles of the two fonts once the surface has created them.
#[derive(Debug, Clone, Copy, PartialEq, Eq, Structural)]
pub struct Fonts {
    pub outline: u64,
    pub shadow: u64,
}

/// The handle of the font of a type.
pub open spec fn spec_font_by_type(fonts: Fonts, font_type: FontType) -> u64 {
    match font_type {
        FontType::Outline => fonts.outline,
        FontType::Shadow => fonts.shadow,
    }
}

/// The handle of the font of type `font_type`.
pub fn font_by_type(fonts: &Fonts, font_type: FontType) -> (r: u64)
    ensures
        r == spec_font_by_type(*fonts, font_type),
{
    match font_type {
        FontType::Outline => fonts.outline,
        FontType::Shadow => fonts.shadow,
    }
}

/// How one font is set up on the surface: the face, its size and weight, and its
/// rendering options.
#[derive(Debug, Clone, Copy)]
pub struct FontGlyph {
    pub font_type: FontType,
    pub windows_font_name: &'static str,
    pub tall: i32,
    pub weight: i32,
    pub blur: i32,
    pub scanlines: i32,
    pub flags: i32,
    pub range_min: i32,
    pub range_max: i32,
}

/// The setup of a font: 12-point Tahoma of weight 500 with the given options.
pub open spec fn tahoma_glyph(g: FontGlyph, font_type: FontType, flags: i32) -> bool {
    &&& g.font_type == font_type
    &&& g.windows_font_name@ == "Tahoma"@
    &&& g.tall == 12
    &&& g.weight == 500
    &&& g.blur == 0
    &&& g.scanlines == 0
    &&& g.flags == flags
    &&& g.range_min == 0
    &&& g.range_max == 0
}

/// The fonts to create, in order: the outlined font, then the shadowed font
/// (anti-aliased with a drop shadow). Creating them and storing their handles in
/// `Fonts` is the caller's part.
pub fn setup_fonts() -> (r: Vec<FontGlyph>)
    ensures
        r@.len() == 2,
        tahoma_glyph(r@[0], FontType::Outline, OUTLINE),
        tahoma_glyph(r@[1], FontType::Shadow, ANTI_ALIAS | DROP_SHADOW),
{
    let outline = FontFlags::from_bits_truncate(OUTLINE);
    let shadow = FontFlags::from_bits_truncate(ANTI_ALIAS).union(FontFlags::from_bits_truncate(DROP_SHADOW));
    assert(OUTLINE & ALL_FONT_FLAGS == OUTLINE) by (bit_vector);
    assert((ANTI_ALIAS & ALL_FONT_FLAGS) | (DROP_SHADOW & ALL_FONT_FLAGS) == ANTI_ALIAS | DROP_SHADOW) by (bit_vector);
    let mut fonts: Vec<FontGlyph> = Vec::new();
    fonts.push(
        FontGlyph {
            font_type: FontType::Outline,
            windows_font_name: "Tahoma",
            tall: 12,
            weight: 500,
            blur: 0,
            scanlines: 0,
            flags: outline.bits(),
            range_min: 0,
            range_max: 0,
        },
    );
    fonts.push(
        FontGlyph {
            font_type: FontType::Shadow,
            windows_font_name: "Tahoma",
            tall: 12,
            weight: 500,
            blur: 0,
            scanlines: 0,
            flags: shadow.bits(),
            range_min: 0,
            range_max: 0,
        },
    );
    fonts
}

/// The UTF-16 code units of one character: one unit below U+10000, else a
/// surrogate pair.
pub open spec fn utf16_of_char(c: char) -> Seq<u16> {
    let v = (c as u32) as int;
    if v < 0x10000 {
        seq![v as u16]
    } else {
        let w = v - 0x10000;
        seq![(0xD800 + w / 1024) as u16, (0xDC00 + w % 1024) as u16]
    }
}

/// The UTF-16 encoding of a string.
pub open spec fn utf16_of(s: Seq<char>) -> Seq<u16>
    decreases s.len(),
{
    if s.len() == 0 {
        seq![]
    } else {
        utf16_of(s.drop_last()) + utf16_of_char(s.last())
    }
}

/// `text` in UTF-16, followed by a terminating zero unit.
pub fn convert_to_utf16(text: &str) -> (r: Vec<u16>)
    ensures
        r@ == utf16_of(text@).push(0),
{
    let n = text.unicode_len();
    let mut out: Vec<u16> = Vec::new();
    let mut i: usize = 0;
    while i < n
        invariant
            n == text@.len(),
            i <= n,
            out@ == utf16_of(text@.take(i as int)),
        decreases n - i,
    {
        let c = text.get_char(i);
        let v = c as u32;
        if v < 0x10000 {
            out.push(v as u16);
        } else {
            let w = v - 0x10000;
            out.push((0xD800 + w / 1024) as u16);
            out.push((0xDC00 + w % 1024) as u16);
        }
        assert(text@.take(i + 1).drop_last() =~= text@.take(i as int));
        i = i + 1;
    }
    assert(text@.take(n as int) =~= text@);
    out.push(0);
    out
}

/// Text to draw on the surface: the text, the screen position of its top-left
/// corner, the font and the color.
pub struct TextDraw {
    pub text: String,
    pub x: i32,
    pub y: i32,
    pub font_type: FontType,
    pub color: Color,
}

/// What the surface is asked to measure: the font's handle and the text in UTF-16
/// with its terminating zero.
pub struct TextRequest {
    pub font: u64,
    pub text: Vec<u16>,
}

/// The measuring request for `text` in the font of type `font_type`; the surface
/// answers it with the text's width and height.
pub fn text_bounds(fonts: &Fonts, text: &str, font_type: FontType) -> (r: TextRequest)
    ensures
        r.font == spec_font_by_type(*fonts, font_type),
        r.text@ == utf16_of(text@).push(0),
{
    let font = font_by_type(fonts, font_type);
    let units = convert_to_utf16(text);
    TextRequest { font, text: units }
}


/// Encoding two strings one after the other gives the two encodings one after the
/// other.
pub proof fn law_utf16_concat(a: Seq<char>, b: Seq<char>)
    ensures
        utf16_of(a + b) == utf16_of(a) + utf16_of(b),
    decreases b.len(),
{
    if b.len() == 0 {
        assert(a + b =~= a);
        assert(utf16_of(a) + utf16_of(b) =~= utf16_of(a));
    } else {
        law_utf16_concat(a, b.drop_last());
        assert((a + b).drop_last() =~= a + b.drop_last());
        assert((a + b).last() == b.last());
        assert(utf16_of(a) + utf16_of(b.drop_last()) + utf16_of_char(b.last()) =~= utf16_of(a) + (
        utf16_of(b.drop_last()) + utf16_of_char(b.last())));
    }
}

/// A string of characters below U+10000 encodes to one unit per character, each
/// unit the character's code.
pub proof fn law_utf16_basic_plane(s: Seq<char>)
    requires
        forall|i: int| 0 <= i < s.len() ==> (s[i] as u32) < 0x10000,
    ensures
        utf16_of(s).len() == s.len(),
        forall|i: int| 0 <= i < s.len() ==> utf16_of(s)[i] == s[i] as u32,
    decreases s.len(),
{
    if s.len() > 0 {
        let p = s.drop_last();
        assert forall|i: int| 0 <= i < p.len() implies (p[i] as u32) < 0x10000 by {
            assert(p[i] == s[i]);
        }
        law_utf16_basic_plane(p);
        assert forall|i: int| 0 <= i < s.len() implies utf16_of(s)[i] == s[i] as u32 by {
            if i < p.len() {
                assert(utf16_of(s)[i] == utf16_of(p)[i]);
                assert(p[i] == s[i]);
            } else {
                let v = (s[s.len() - 1] as u32) as int;
                assert(s.last() == s[s.len() - 1]);
                assert((s[s.len() - 1] as u32) < 0x10000);
                assert(utf16_of_char(s.last()) == seq![v as u16]);
                assert(utf16_of(s)[i] == v as u16);
            }
        }
    }
}

} // verus!
