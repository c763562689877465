//! The model of a completed recognition that the cursor walks.
//!
//! The engine decomposes a recognized page into strictly nested containers:
//! blocks hold paragraphs, paragraphs hold lines, lines hold words, words
//! hold symbols. A `PageLayout` records that tree flatly: one `Element` per
//! container at each level, and one `Position` per symbol-granular place,
//! naming the enclosing element at every level. The verified cursor in
//! `result_iterator` is defined over this record of the engine's replies.

use vstd::prelude::*;

use crate::result_iterator::BoundingRect;

verus! {

/// The granularity at which the cursor advances: one of the five strictly
/// nested container kinds of the layout tree.
#[derive(Clone, Copy, Debug, PartialEq, Eq, Structural)]
pub enum Level {
    Block,
    Paragraph,
    Line,
    Word,
    Symbol,
}

impl Level {
    /// The engine's integer code for this level.
    pub open spec fn spec_engine_code(self) -> u32 {
        match self {
            Level::Block => 0,
            Level::Paragraph => 1,
            Level::Line => 2,
            Level::Word => 3,
            Level::Symbol => 4,
        }
    }

    /// The level a given engine code denotes, if any.
    pub open spec fn spec_from_engine_code(code: u32) -> Option<Level> {
        if code == 0 {
            Some(Level::Block)
        } else if code == 1 {
            Some(Level::Paragraph)
        } else if code == 2 {
            Some(Level::Line)
        } else if code == 3 {
            Some(Level::Word)
        } else if code == 4 {
            Some(Level::Symbol)
        } else {
            None
        }
    }

    /// Converts to the engine's integer code at the foreign boundary; the
    /// raw code is never what callers see.
    pub fn engine_code(self) -> (r: u32)
        ensures
            r == self.spec_engine_code(),
    {
        match self {
            Level::Block => 0,
            Level::Paragraph => 1,
            Level::Line => 2,
            Level::Word => 3,
            Level::Symbol => 4,
        }
    }

    /// Converts an engine code back into a level; unknown codes are refused.
    pub fn from_engine_code(code: u32) -> (r: Option<Level>)
        ensures
            r == Level::spec_from_engine_code(code),
    {
        match code {
            0 => Some(Level::Block),
            1 => Some(Level::Paragraph),
            2 => Some(Level::Line),
            3 => Some(Level::Word),
            4 => Some(Level::Symbol),
            _ => None,
        }
    }
}

/// The five levels map one-to-one onto the engine's codes: converting a
/// level to its code and back yields the level again.
pub proof fn lemma_engine_code_roundtrip(level: Level)
    ensures
        Level::spec_from_engine_code(level.spec_engine_code()) == Some(level),
{
}

/// What the engine reports of one element of the layout tree.
pub struct Element {
    /// Content bytes of the element's text buffer, terminator excluded;
    /// absence records that the engine returned a null text pointer.
    pub text: Option<Vec<u8>>,
    /// IEEE-754 bit pattern of the engine's 32-bit confidence score.
    pub confidence_bits: u32,
    /// Absence records that the engine reported no box for the element.
    pub bounding_box: Option<BoundingRect>,
}

impl Element {
    /// Text contents come from a null-terminated buffer, so they hold no
    /// zero byte.
    pub open spec fn wf(self) -> bool {
        self.text matches Some(b) ==> forall|i: int| 0 <= i < b@.len() ==> b@[i] != 0
    }
}

/// Every element of a level's roster is well-formed.
pub open spec fn elems_wf(s: Seq<Element>) -> bool {
    forall|k: int| 0 <= k < s.len() ==> (#[trigger] s[k]).wf()
}

/// One symbol-granular place in the layout tree: for each level, the index
/// of the enclosing element in that level's roster.
#[derive(Clone, Copy, Debug, PartialEq, Eq, Structural)]
pub struct Position {
    pub block: usize,
    pub paragraph: usize,
    pub line: usize,
    pub word: usize,
    pub symbol: usize,
}

impl Position {
    /// The index of the enclosing element at `level`.
    pub open spec fn spec_idx(self, level: Level) -> usize {
        match level {
            Level::Block => self.block,
            Level::Paragraph => self.paragraph,
            Level::Line => self.line,
            Level::Word => self.word,
            Level::Symbol => self.symbol,
        }
    }

    /// Reads the index of the enclosing element at `level`.
    pub fn idx(&self, level: Level) -> (r: usize)
        ensures
            r == self.spec_idx(level),
    {
        match level {
            Level::Block => self.block,
            Level::Paragraph => self.paragraph,
            Level::Line => self.line,
            Level::Word => self.word,
            Level::Symbol => self.symbol,
        }
    }
}

/// A completed recognition's layout tree, as the engine's replies describe
/// it: a roster of elements per level, and the symbol-granular positions in
/// reading order. An empty `positions` models an empty page.
pub struct PageLayout {
    pub blocks: Vec<Element>,
    pub paragraphs: Vec<Element>,
    pub lines: Vec<Element>,
    pub words: Vec<Element>,
    pub symbols: Vec<Element>,
    pub positions: Vec<Position>,
}

impl PageLayout {
    /// The roster of elements at `level`.
    pub open spec fn spec_elems(self, level: Level) -> Seq<Element> {
        match level {
            Level::Block => self.blocks@,
            Level::Paragraph => self.paragraphs@,
            Level::Line => self.lines@,
            Level::Word => self.words@,
            Level::Symbol => self.symbols@,
        }
    }

    /// Borrows the roster of elements at `level`.
    pub fn elems(&self, level: Level) -> (r: &Vec<Element>)
        ensures
            r@ == self.spec_elems(level),
    {
        match level {
            Level::Block => &self.blocks,
            Level::Paragraph => &self.paragraphs,
            Level::Line => &self.lines,
            Level::Word => &self.words,
            Level::Symbol => &self.symbols,
        }
    }

    /// A position names an element of every level's roster.
    pub open spec fn pos_wf(self, p: Position) -> bool {
        &&& p.block < self.blocks@.len()
        &&& p.paragraph < self.paragraphs@.len()
        &&& p.line < self.lines@.len()
        &&& p.word < self.words@.len()
        &&& p.symbol < self.symbols@.len()
    }

    /// The engine-supplied shape of a completed recognition: every position
    /// points into every roster, and every element is well-formed.
    pub open spec fn wf(self) -> bool {
        &&& forall|j: int|
            0 <= j < self.positions@.len() ==> self.pos_wf(#[trigger] self.positions@[j])
        &&& elems_wf(self.blocks@)
        &&& elems_wf(self.paragraphs@)
        &&& elems_wf(self.lines@)
        &&& elems_wf(self.words@)
        &&& elems_wf(self.symbols@)
    }

    /// The index of the element enclosing position `j` at `level`.
    pub open spec fn pos_idx(self, j: int, level: Level) -> usize {
        self.positions@[j].spec_idx(level)
    }

    /// The element enclosing position `j` at `level`.
    pub open spec fn elem_at(self, j: int, level: Level) -> Element {
        self.spec_elems(level)[self.pos_idx(j, level) as int]
    }

    /// In a well-formed layout, each position's index at each level lands
    /// inside that level's roster.
    pub proof fn lemma_pos_idx_in_bounds(self, j: int, level: Level)
        requires
            self.wf(),
            0 <= j < self.positions@.len(),
        ensures
            self.pos_idx(j, level) < self.spec_elems(level).len(),
            self.spec_elems(level)[self.pos_idx(j, level) as int].wf(),
    {
        assert(self.pos_wf(self.positions@[j]));
        assert(elems_wf(self.spec_elems(level)));
    }
}

} // verus!
