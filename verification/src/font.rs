use crate::glyph_table::{find, register};
use crate::graphics::TextStyle;
use std::collections::BTreeMap;
use vstd::prelude::*;

verus! {

/// Where a glyph sits in the atlas, as (column, row) of its cell, and
/// whether it fills the whole cell or half of it.
#[derive(Copy, Clone, Debug)]
pub struct BitmapFontLookupResult {
    pub pos: (i32, i32),
    pub is_full_width: bool,
}

/// The width in pixels of a cell of the bitmap from which the number of
/// columns is taken.
pub const REFERENCE_CELL: i32 = 16;

/// The atlas index of every character of a manifest whose first character
/// has index `first`: characters are numbered in order, and a character
/// listed twice keeps its last number.
pub open spec fn glyph_indices(glyphs: Seq<char>, first: int) -> Map<char, int>
    decreases glyphs.len(),
{
    if glyphs.len() == 0 {
        Map::empty()
    } else {
        glyph_indices(glyphs.drop_last(), first).insert(glyphs.last(), first + glyphs.len() - 1)
    }
}

/// The cell of the glyph with atlas index `index` in an atlas of `columns`
/// columns.
pub open spec fn glyph_cell(index: int, columns: int, is_full_width: bool) -> BitmapFontLookupResult {
    BitmapFontLookupResult {
        pos: ((index % columns) as i32, (index / columns) as i32),
        is_full_width,
    }
}

/// Whether an atlas can be built from two manifests and a reference bitmap
/// of the given width: the bitmap is at least one cell wide, every index
/// fits, and `'?'` is listed.
pub open spec fn loadable(full_width: Seq<char>, half_width: Seq<char>, reference_width: int) -> bool {
    &&& reference_width / (REFERENCE_CELL as int) > 0
    &&& full_width.len() + half_width.len() <= i32::MAX
    &&& (full_width.contains('?') || half_width.contains('?'))
}

/// The characters of a font and where each sits in the atlas.
pub struct BitmapFont {
    columns: u32,
    glyphs_full_width: BTreeMap<u32, u32>,
    glyphs_half_width: BTreeMap<u32, u32>,
}

/// A table keyed by code point, read as a map from characters.
pub open spec fn by_char(table: Map<u32, u32>) -> Map<char, int> {
    Map::new(|c: char| table.contains_key(code_point(c)), |c: char| table[code_point(c)] as int)
}

/// The code point of a character.
pub open spec fn code_point(c: char) -> u32 {
    c as u32
}

impl BitmapFont {
    /// The number of cells in a row of the atlas.
    pub closed spec fn columns(&self) -> int {
        self.columns as int
    }

    /// The full-width characters, each with its atlas index.
    pub closed spec fn full_width_glyphs(&self) -> Map<char, int> {
        by_char(self.glyphs_full_width@)
    }

    /// The half-width characters, each with its atlas index.
    pub closed spec fn half_width_glyphs(&self) -> Map<char, int> {
        by_char(self.glyphs_half_width@)
    }

    /// What every font holds: at least one column, indices that fit, and a
    /// glyph for `'?'`.
    pub open spec fn well_formed(&self) -> bool {
        &&& 0 < self.columns() <= i32::MAX
        &&& forall|c: char| #[trigger]
            self.full_width_glyphs().contains_key(c) ==> 0 <= self.full_width_glyphs()[c]
                <= i32::MAX
        &&& forall|c: char| #[trigger]
            self.half_width_glyphs().contains_key(c) ==> 0 <= self.half_width_glyphs()[c]
                <= i32::MAX
        &&& (self.full_width_glyphs().contains_key('?') || self.half_width_glyphs().contains_key(
            '?',
        ))
    }

    #[verifier::type_invariant]
    spec fn inv(&self) -> bool {
        self.well_formed()
    }

    /// The glyph registered for `c`: the full-width registry is asked
    /// first, then the half-width one.
    pub open spec fn glyph(&self, c: char) -> Option<BitmapFontLookupResult> {
        if self.full_width_glyphs().contains_key(c) {
            Some(glyph_cell(self.full_width_glyphs()[c], self.columns(), true))
        } else if self.half_width_glyphs().contains_key(c) {
            Some(glyph_cell(self.half_width_glyphs()[c], self.columns(), false))
        } else {
            None
        }
    }

    /// The glyph drawn for `c`: its own, or that of `'?'` where `c` is not
    /// registered.
    pub open spec fn glyph_or_default(&self, c: char) -> BitmapFontLookupResult {
        match self.glyph(c) {
            Some(found) => found,
            None => self.glyph('?').unwrap(),
        }
    }

    /// Builds the atlas from the characters of the full-width manifest, those
    /// of the half-width manifest, and the pixel width of the reference
    /// bitmap. Full-width characters are numbered from 0, half-width ones
    /// follow them. Gives no font where `loadable` does not hold.
    pub fn load(glyphs_full_width: &[char], glyphs_half_width: &[char], reference_width: i32) -> (font:
        Option<Self>)
        ensures
            font.is_some() <==> loadable(
                glyphs_full_width@,
                glyphs_half_width@,
                reference_width as int,
            ),
            font matches Some(f) ==> {
                &&& f.well_formed()
                &&& f.columns() == reference_width / REFERENCE_CELL
                &&& f.full_width_glyphs() == glyph_indices(glyphs_full_width@, 0)
                &&& f.half_width_glyphs() == glyph_indices(
                    glyphs_half_width@,
                    glyphs_full_width@.len() as int,
                )
            },
    {
        if reference_width < REFERENCE_CELL {
            return None;
        }
        let columns: u32 = (reference_width / REFERENCE_CELL) as u32;
        let hw_begin: usize = glyphs_full_width.len();
        if hw_begin > 0x7fff_ffff || glyphs_half_width.len() > 0x7fff_ffff - hw_begin {
            return None;
        }
        let full = index_glyphs(glyphs_full_width, 0);
        let half = index_glyphs(glyphs_half_width, hw_begin as u32);
        let question: u32 = '?' as u32;
        let has_default = find(&full, question).is_some() || find(&half, question).is_some();
        proof {
            lemma_indices_domain(glyphs_full_width@, 0);
            lemma_indices_domain(glyphs_half_width@, hw_begin as int);
            assert(question == code_point('?'));
            assert(by_char(full@).contains_key('?') == full@.contains_key(question));
            assert(by_char(half@).contains_key('?') == half@.contains_key(question));
            assert(glyph_indices(glyphs_full_width@, 0).contains_key('?')
                == glyphs_full_width@.contains('?'));
            assert(glyph_indices(glyphs_half_width@, hw_begin as int).contains_key('?')
                == glyphs_half_width@.contains('?'));
        }
        if !has_default {
            return None;
        }
        Some(BitmapFont { columns, glyphs_full_width: full, glyphs_half_width: half })
    }

    /// Looks `c` up in the full-width registry, then in the half-width one.
    pub fn lookup(&self, c: char) -> (found: Option<BitmapFontLookupResult>)
        ensures
            found == self.glyph(c),
    {
        proof {
            use_type_invariant(self);
        }
        let code: u32 = c as u32;
        if let Some(i) = find(&self.glyphs_full_width, code) {
            return Some(
                BitmapFontLookupResult {
                    pos: ((i % self.columns) as i32, (i / self.columns) as i32),
                    is_full_width: true,
                },
            );
        }
        if let Some(i) = find(&self.glyphs_half_width, code) {
            return Some(
                BitmapFontLookupResult {
                    pos: ((i % self.columns) as i32, (i / self.columns) as i32),
                    is_full_width: false,
                },
            );
        }
        None
    }

    /// Looks `c` up and falls back to the glyph of `'?'`.
    pub fn lookup_or_default(&self, c: char) -> (found: BitmapFontLookupResult)
        ensures
            self.well_formed(),
            found == self.glyph_or_default(c),
            self.glyph(c).is_none() ==> Some(found) == self.glyph('?'),
    {
        proof {
            use_type_invariant(self);
        }
        match self.lookup(c) {
            Some(found) => found,
            None => self.lookup('?').unwrap(),
        }
    }
}

/// The file that lists a font's full-width glyphs, or its half-width ones:
/// the path base followed by `-gf.txt` or `-gh.txt`.
pub fn glyph_manifest_path(path_base: &str, full_width: bool) -> (path: String)
    ensures
        path@ == path_base@ + (if full_width {
            "-gf.txt"@
        } else {
            "-gh.txt"@
        }),
{
    let base = path_base.to_owned();
    if full_width {
        base.concat("-gf.txt")
    } else {
        base.concat("-gh.txt")
    }
}

/// The file that holds the bitmap strip of a style: the path base, a hyphen,
/// the style's suffix and `.png`.
pub fn bitmap_path(path_base: &str, style: TextStyle) -> (path: String)
    ensures
        path@ == path_base@ + "-"@ + style.spec_suffix() + ".png"@,
{
    path_base.to_owned().concat("-").concat(style.suffix()).concat(".png")
}

/// The place of the one font a process draws text with. It is empty until a
/// font is loaded, and a load puts the new font, or none, in place of the
/// old one as a whole.
pub struct FontSlot {
    font: Option<BitmapFont>,
}

impl FontSlot {
    /// The font in the slot.
    pub closed spec fn current(&self) -> Option<BitmapFont> {
        self.font
    }

    /// An empty slot.
    pub fn new() -> (slot: Self)
        ensures
            slot.current().is_none(),
    {
        FontSlot { font: None }
    }

    /// Whether a font is in the slot.
    pub fn is_font_loaded(&self) -> (present: bool)
        ensures
            present == self.current().is_some(),
    {
        self.font.is_some()
    }

    /// The font in the slot, if there is one.
    pub fn font(&self) -> (font: Option<&BitmapFont>)
        ensures
            font.is_some() == self.current().is_some(),
            font matches Some(f) ==> *f == self.current().unwrap() && f.well_formed(),
    {
        match &self.font {
            Some(f) => {
                proof {
                    use_type_invariant(f);
                }
                Some(f)
            },
            None => None,
        }
    }

    /// Puts the font built from the two manifests and the reference width in
    /// the slot, in place of what was there. Where no font can be built the
    /// slot is left empty.
    pub fn load_bitmap_font(
        &mut self,
        glyphs_full_width: &[char],
        glyphs_half_width: &[char],
        reference_width: i32,
    )
        ensures
            final(self).current().is_some() <==> loadable(
                glyphs_full_width@,
                glyphs_half_width@,
                reference_width as int,
            ),
            final(self).current() matches Some(f) ==> {
                &&& f.well_formed()
                &&& f.columns() == reference_width / REFERENCE_CELL
                &&& f.full_width_glyphs() == glyph_indices(glyphs_full_width@, 0)
                &&& f.half_width_glyphs() == glyph_indices(
                    glyphs_half_width@,
                    glyphs_full_width@.len() as int,
                )
            },
    {
        self.font = BitmapFont::load(glyphs_full_width, glyphs_half_width, reference_width);
    }
}

/// Numbers the characters of a manifest from `first` on.
fn index_glyphs(glyphs: &[char], first: u32) -> (table: BTreeMap<u32, u32>)
    requires
        first + glyphs@.len() <= i32::MAX,
    ensures
        by_char(table@) == glyph_indices(glyphs@, first as int),
{
    let mut table: BTreeMap<u32, u32> = BTreeMap::new();
    let mut i: usize = 0;
    assert(by_char(table@) =~= glyph_indices(glyphs@.take(0), first as int));
    while i < glyphs.len()
        invariant
            i <= glyphs@.len(),
            first + glyphs@.len() <= i32::MAX,
            by_char(table@) == glyph_indices(glyphs@.take(i as int), first as int),
        decreases glyphs@.len() - i,
    {
        let c: char = glyphs[i];
        let ghost before = table@;
        register(&mut table, c as u32, first + i as u32);
        proof {
            let prefix = glyphs@.take(i as int + 1);
            assert(prefix.drop_last() =~= glyphs@.take(i as int));
            assert(prefix.last() == c);
            assert forall|other: char| #[trigger] code_point(other) == code_point(c) implies other
                == c by {
                vstd::utf8::char_u32_cast(other, code_point(other));
                vstd::utf8::char_u32_cast(c, code_point(c));
            }
            assert(by_char(table@) =~= by_char(before).insert(c, first + i));
        }
        i = i + 1;
    }
    assert(glyphs@.take(glyphs@.len() as int) =~= glyphs@);
    table
}

/// The characters that have an index are those of the manifest, and every
/// index lies within the manifest's range of numbers.
pub proof fn lemma_indices_domain(glyphs: Seq<char>, first: int)
    ensures
        forall|c: char| #[trigger]
            glyph_indices(glyphs, first).contains_key(c) <==> glyphs.contains(c),
        forall|c: char| #[trigger]
            glyph_indices(glyphs, first).contains_key(c) ==> first <= glyph_indices(
                glyphs,
                first,
            )[c] < first + glyphs.len(),
    decreases glyphs.len(),
{
    if glyphs.len() > 0 {
        let rest = glyphs.drop_last();
        lemma_indices_domain(rest, first);
        assert(glyph_indices(glyphs, first) == glyph_indices(rest, first).insert(
            glyphs.last(),
            first + glyphs.len() - 1,
        ));
        assert forall|c: char| #[trigger]
            glyph_indices(glyphs, first).contains_key(c) <==> glyphs.contains(c) by {
            if c == glyphs.last() {
                assert(glyphs[glyphs.len() - 1] == c);
            } else if rest.contains(c) {
                let k = choose|k: int| 0 <= k < rest.len() && rest[k] == c;
                assert(glyphs[k] == c);
            } else if glyphs.contains(c) {
                let k = choose|k: int| 0 <= k < glyphs.len() && glyphs[k] == c;
                assert(rest[k] == c);
            }
        }
    } else {
        assert forall|c: char| !glyphs.contains(c) by {}
    }
}

/// A character's index is its place in the manifest, counted from `first`,
/// where it is not listed again further on.
pub proof fn lemma_index_is_last_place(glyphs: Seq<char>, first: int, place: int)
    requires
        0 <= place < glyphs.len(),
        forall|later: int| place < later < glyphs.len() ==> glyphs[later] != glyphs[place],
    ensures
        glyph_indices(glyphs, first).contains_key(glyphs[place]),
        glyph_indices(glyphs, first)[glyphs[place]] == first + place,
    decreases glyphs.len(),
{
    if place < glyphs.len() - 1 {
        let rest = glyphs.drop_last();
        assert(rest[place] == glyphs[place]);
        assert forall|later: int| place < later < rest.len() implies rest[later] != rest[place] by {
            assert(rest[later] == glyphs[later]);
        }
        lemma_index_is_last_place(rest, first, place);
        assert(glyphs.last() == glyphs[glyphs.len() - 1]);
    }
}

/// A character that neither registry holds is drawn with the glyph of
/// `'?'`, and a well-formed font has that glyph.
pub proof fn lemma_unregistered_uses_question_mark(font: BitmapFont, c: char)
    requires
        font.well_formed(),
        !font.full_width_glyphs().contains_key(c),
        !font.half_width_glyphs().contains_key(c),
    ensures
        font.glyph('?').is_some(),
        font.glyph_or_default(c) == font.glyph('?').unwrap(),
{
}

} // verus!
