//! Luminance computation and the luminance-to-glyph mapping: a fixed ordered
//! ramp of 86 printable glyphs, from blank to dense, indexed by quantized
//! luminance.

use vstd::prelude::*;

verus! {

/// Number of glyphs in the ramp.
pub const RAMP_LEN: usize = 86;

/// Luminance of a pixel: the unweighted mean of the color channels, each
/// third truncated separately; a fully transparent pixel counts as dark.
pub open spec fn luminance(r: u8, g: u8, b: u8, a: u8) -> int {
    if a == 0 {
        0
    } else {
        r as int / 3 + g as int / 3 + b as int / 3
    }
}

/// Quantized ramp index for a luminance value: one step per three luminance
/// levels, so the largest luminance (255) lands on the last ramp entry (85).
pub open spec fn glyph_index(lum: int) -> int {
    lum / 3
}

/// The ramp index chosen for a pixel.
pub open spec fn pixel_glyph_index(r: u8, g: u8, b: u8, a: u8) -> int {
    glyph_index(luminance(r, g, b, a))
}

/// The glyphs of the default ramp, in order of increasing visual density.
pub open spec fn default_ramp_view() -> Seq<Seq<char>> {
    seq![
        " "@, "\""@, "'"@, "*"@, "+"@, ","@, "-"@, "."@, ":"@, ";"@,
        "0"@, "1"@, "2"@, "3"@, "4"@, "5"@, "6"@, "7"@, "8"@, "9"@,
        "="@,
        "a"@, "b"@, "c"@, "d"@, "e"@, "f"@, "g"@, "h"@, "i"@, "j"@,
        "k"@, "l"@, "m"@, "n"@, "o"@, "p"@, "q"@, "r"@, "s"@, "t"@,
        "u"@, "v"@, "w"@, "x"@, "y"@, "z"@,
        "A"@, "B"@, "C"@, "D"@, "E"@, "F"@, "G"@, "H"@, "I"@, "J"@,
        "K"@, "L"@, "M"@, "N"@, "O"@, "P"@, "Q"@, "R"@, "S"@, "T"@,
        "U"@, "V"@, "W"@, "X"@, "Y"@, "Z"@,
        "#"@, "("@, ")"@, "$"@, "%"@, "&"@, "{"@, "|"@, "}"@, "~"@,
        "@"@, "?"@, ">"@,
    ]
}

/// The ordered, immutable glyph ramp shared by all rendering work.
pub struct GlyphRamp {
    glyphs: Vec<&'static str>,
}

impl View for GlyphRamp {
    type V = Seq<Seq<char>>;

    closed spec fn view(&self) -> Seq<Seq<char>> {
        Seq::new(self.glyphs@.len(), |i: int| self.glyphs@[i]@)
    }
}

impl GlyphRamp {
    /// A well-formed ramp has exactly one glyph per quantized luminance step.
    pub open spec fn wf(&self) -> bool {
        self@.len() == RAMP_LEN
    }

    /// Builds the default ramp.
    pub fn new_default() -> (r: GlyphRamp)
        ensures
            r.wf(),
            r@ == default_ramp_view(),
    {
        let mut glyphs: Vec<&'static str> = Vec::new();
        glyphs.push(" ");
        glyphs.push("\"");
        glyphs.push("'");
        glyphs.push("*");
        glyphs.push("+");
        glyphs.push(",");
        glyphs.push("-");
        glyphs.push(".");
        glyphs.push(":");
        glyphs.push(";");
        glyphs.push("0");
        glyphs.push("1");
        glyphs.push("2");
        glyphs.push("3");
        glyphs.push("4");
        glyphs.push("5");
        glyphs.push("6");
        glyphs.push("7");
        glyphs.push("8");
        glyphs.push("9");
        glyphs.push("=");
        glyphs.push("a");
        glyphs.push("b");
        glyphs.push("c");
        glyphs.push("d");
        glyphs.push("e");
        glyphs.push("f");
        glyphs.push("g");
        glyphs.push("h");
        glyphs.push("i");
        glyphs.push("j");
        glyphs.push("k");
        glyphs.push("l");
        glyphs.push("m");
        glyphs.push("n");
        glyphs.push("o");
        glyphs.push("p");
        glyphs.push("q");
        glyphs.push("r");
        glyphs.push("s");
        glyphs.push("t");
        glyphs.push("u");
        glyphs.push("v");
        glyphs.push("w");
        glyphs.push("x");
        glyphs.push("y");
        glyphs.push("z");
        glyphs.push("A");
        glyphs.push("B");
        glyphs.push("C");
        glyphs.push("D");
        glyphs.push("E");
        glyphs.push("F");
        glyphs.push("G");
        glyphs.push("H");
        glyphs.push("I");
        glyphs.push("J");
        glyphs.push("K");
        glyphs.push("L");
        glyphs.push("M");
        glyphs.push("N");
        glyphs.push("O");
        glyphs.push("P");
        glyphs.push("Q");
        glyphs.push("R");
        glyphs.push("S");
        glyphs.push("T");
        glyphs.push("U");
        glyphs.push("V");
        glyphs.push("W");
        glyphs.push("X");
        glyphs.push("Y");
        glyphs.push("Z");
        glyphs.push("#");
        glyphs.push("(");
        glyphs.push(")");
        glyphs.push("$");
        glyphs.push("%");
        glyphs.push("&");
        glyphs.push("{");
        glyphs.push("|");
        glyphs.push("}");
        glyphs.push("~");
        glyphs.push("@");
        glyphs.push("?");
        glyphs.push(">");
        let r = GlyphRamp { glyphs };
        proof {
            assert(r@ =~= default_ramp_view());
        }
        r
    }

    /// Selects the ramp glyph for a luminance value.
    pub fn glyph_for(&self, lum: u8) -> (g: &'static str)
        requires
            self.wf(),
        ensures
            g@ == self@[glyph_index(lum as int)],
    {
        let idx: usize = (lum / 3) as usize;
        self.glyphs[idx]
    }
}

/// Computes the luminance of a pixel.
pub fn luminance_of(r: u8, g: u8, b: u8, a: u8) -> (l: u8)
    ensures
        l as int == luminance(r, g, b, a),
{
    if a == 0 {
        0
    } else {
        r / 3 + g / 3 + b / 3
    }
}

/// Every luminance value maps into the ramp: the quantized index lies within
/// [0, 85], and the largest luminance value selects the last ramp entry.
pub proof fn lemma_glyph_index_in_range(lum: u8)
    ensures
        0 <= glyph_index(lum as int) < RAMP_LEN,
        lum == 255 ==> glyph_index(lum as int) == RAMP_LEN - 1,
{
}

/// A fully transparent pixel always selects the blank glyph: its luminance
/// is 0, so the chosen ramp entry is the one for luminance 0, whatever the
/// color channels hold.
pub proof fn lemma_transparent_pixel_is_blank(r: u8, g: u8, b: u8)
    ensures
        luminance(r, g, b, 0) == 0,
        pixel_glyph_index(r, g, b, 0) == glyph_index(0),
{
}

} // verus!
