//! The cursor over a completed recognition and its lazy sequence of records.

use vstd::prelude::*;

use crate::layout::Level;
use crate::layout::PageLayout;
use crate::text::Text;

verus! {

/// An axis-aligned box in image pixel coordinates, origin at the top left.
/// The engine supplies `left <= right` and `top <= bottom`; the record does
/// not re-check that.
#[derive(Debug, Clone, Copy, PartialEq, Eq, Structural)]
pub struct BoundingRect {
    pub left: i32,
    pub top: i32,
    pub right: i32,
    pub bottom: i32,
}

impl BoundingRect {
    /// Horizontal extent: `right - left`.
    pub fn width(&self) -> (r: i32)
        requires
            i32::MIN <= self.right - self.left <= i32::MAX,
        ensures
            r == self.right - self.left,
    {
        self.right - self.left
    }

    /// Vertical extent: `bottom - top`.
    pub fn height(&self) -> (r: i32)
        requires
            i32::MIN <= self.bottom - self.top <= i32::MAX,
        ensures
            r == self.bottom - self.top,
    {
        self.bottom - self.top
    }
}

/// Adapts the engine's geometry reply, a success flag beside four out
/// parameters, to an optional rectangle: the edges count only on success.
pub fn rect_from_box(success: bool, left: i32, top: i32, right: i32, bottom: i32) -> (r: Option<
    BoundingRect,
>)
    ensures
        r == (if success {
            Some(BoundingRect { left, top, right, bottom })
        } else {
            None::<BoundingRect>
        }),
{
    if success {
        Some(BoundingRect { left, top, right, bottom })
    } else {
        None
    }
}

/// One record of the lazy sequence: what the cursor reported of the element
/// at the sequence's level when the record was produced.
#[derive(Debug)]
pub struct ResultItem {
    /// Absent when the engine returned a null text pointer.
    pub text: Option<Text>,
    /// IEEE-754 bit pattern of the engine's 32-bit confidence score.
    pub confidence_bits: u32,
    /// Absent when the engine reported that no box is available.
    pub bounding_rect: Option<BoundingRect>,
    /// The level the producing sequence was created with.
    pub level: Level,
}

/// The mathematical shadow of a `ResultItem`: the text as its bytes.
pub struct ResultItemView {
    pub text: Option<Seq<u8>>,
    pub confidence_bits: u32,
    pub bounding_rect: Option<BoundingRect>,
    pub level: Level,
}

impl View for ResultItem {
    type V = ResultItemView;

    open spec fn view(&self) -> ResultItemView {
        ResultItemView {
            text: match self.text {
                Some(t) => Some(t@),
                None => None,
            },
            confidence_bits: self.confidence_bits,
            bounding_rect: self.bounding_rect,
            level: self.level,
        }
    }
}

/// The cursor over a completed recognition: exclusive owner of one walk
/// over the layout the engine reported.
///
/// The cursor names one symbol-granular position of the layout and starts at
/// the first one; every read reflects the current position, and `next` is
/// the only mutation. On an empty page the reads report the engine's empty
/// replies: no text, no box, a zero confidence.
pub struct ResultIterator {
    pub layout: PageLayout,
    pub cur: usize,
}

impl ResultIterator {
    /// The cursor points at a position of its layout, or at the start of an
    /// empty page.
    pub open spec fn wf(self) -> bool {
        &&& self.layout.wf()
        &&& if self.layout.positions@.len() == 0 {
            self.cur == 0
        } else {
            (self.cur as int) < self.layout.positions@.len()
        }
    }

    /// An empty page: no position to read.
    pub open spec fn spec_is_empty(self) -> bool {
        self.layout.positions@.len() == 0
    }

    /// The element enclosing the current position at `level`.
    pub open spec fn current_elem(self, level: Level) -> crate::layout::Element {
        self.layout.elem_at(self.cur as int, level)
    }

    /// The confidence bits the cursor reports at `level`: the element's
    /// score, or zero on an empty page.
    pub open spec fn spec_confidence(self, level: Level) -> u32 {
        if self.spec_is_empty() {
            0
        } else {
            self.current_elem(level).confidence_bits
        }
    }

    /// The text bytes the cursor reports at `level`, if any.
    pub open spec fn spec_text(self, level: Level) -> Option<Seq<u8>> {
        if self.spec_is_empty() {
            None
        } else {
            match self.current_elem(level).text {
                Some(b) => Some(b@),
                None => None,
            }
        }
    }

    /// The box the cursor reports at `level`, if any.
    pub open spec fn spec_bounding_rect(self, level: Level) -> Option<BoundingRect> {
        if self.spec_is_empty() {
            None
        } else {
            self.current_elem(level).bounding_box
        }
    }

    /// The current position starts the enclosing element at `level`: it is
    /// the page's first position, or the one before it lies in a different
    /// element of that level.
    pub open spec fn spec_at_beginning(self, level: Level) -> bool {
        &&& !self.spec_is_empty()
        &&& (self.cur == 0 || self.layout.pos_idx(self.cur as int - 1, level) != self.layout.pos_idx(
            self.cur as int,
            level,
        ))
    }

    /// Scans forward from position `j`: the enclosing `element` at the
    /// current position is final within its enclosing `level` when that
    /// level (or the page) ends before another `element` begins.
    pub open spec fn final_scan(self, j: int, level: Level, element: Level) -> bool
        decreases self.layout.positions@.len() - j,
    {
        if j >= self.layout.positions@.len() {
            true
        } else if self.layout.pos_idx(j, level) != self.layout.pos_idx(self.cur as int, level) {
            true
        } else if self.layout.pos_idx(j, element) != self.layout.pos_idx(
            self.cur as int,
            element,
        ) {
            false
        } else {
            self.final_scan(j + 1, level, element)
        }
    }

    /// The current `element` is the last of its kind within the enclosing
    /// `level`; false on an empty page.
    pub open spec fn spec_at_final(self, level: Level, element: Level) -> bool {
        &&& !self.spec_is_empty()
        &&& self.final_scan(self.cur as int + 1, level, element)
    }

    /// The first position after the current one that lies in a different
    /// element at `level`; the page length when there is none.
    pub open spec fn next_scan(self, j: int, level: Level) -> int
        decreases self.layout.positions@.len() - j,
    {
        if j >= self.layout.positions@.len() {
            self.layout.positions@.len() as int
        } else if self.layout.pos_idx(j, level) != self.layout.pos_idx(self.cur as int, level) {
            j
        } else {
            self.next_scan(j + 1, level)
        }
    }

    /// Where an advance at `level` would land.
    pub open spec fn spec_next_pos(self, level: Level) -> int {
        self.next_scan(self.cur as int + 1, level)
    }

    /// A further element exists at `level`.
    pub open spec fn spec_has_next(self, level: Level) -> bool {
        self.spec_next_pos(level) < self.layout.positions@.len()
    }

    /// The cursor after a successful advance at `level`.
    pub open spec fn spec_advanced(self, level: Level) -> ResultIterator {
        ResultIterator { layout: self.layout, cur: self.spec_next_pos(level) as usize }
    }

    /// What one emitted record reads at the current position.
    pub open spec fn spec_item_view(self, level: Level) -> ResultItemView {
        ResultItemView {
            text: self.spec_text(level),
            confidence_bits: self.spec_confidence(level),
            bounding_rect: self.spec_bounding_rect(level),
            level,
        }
    }

    /// Takes exclusive ownership of a completed recognition's layout; the
    /// cursor starts at the first position.
    pub fn new(layout: PageLayout) -> (r: ResultIterator)
        requires
            layout.wf(),
        ensures
            r.wf(),
            r.layout == layout,
            r.cur == 0,
    {
        ResultIterator { layout, cur: 0 }
    }

    /// The engine's confidence for the element at `level` at the current
    /// position, carried as the bit pattern of its 32-bit float score.
    pub fn confidence(&self, level: Level) -> (r: u32)
        requires
            self.wf(),
        ensures
            r == self.spec_confidence(level),
    {
        if self.layout.positions.len() == 0 {
            return 0;
        }
        let idx = self.layout.positions[self.cur].idx(level);
        proof {
            self.layout.lemma_pos_idx_in_bounds(self.cur as int, level);
        }
        self.layout.elems(level)[idx].confidence_bits
    }

    /// Whether the current position is the first of its enclosing element at
    /// `level`.
    pub fn is_at_beginning_of(&self, level: Level) -> (r: bool)
        requires
            self.wf(),
        ensures
            r == self.spec_at_beginning(level),
    {
        if self.layout.positions.len() == 0 {
            return false;
        }
        if self.cur == 0 {
            return true;
        }
        let prev = self.layout.positions[self.cur - 1].idx(level);
        let here = self.layout.positions[self.cur].idx(level);
        prev != here
    }

    /// Whether the current `element` is the last of its kind within its
    /// enclosing `level`.
    pub fn is_at_final_element(&self, level: Level, element: Level) -> (r: bool)
        requires
            self.wf(),
        ensures
            r == self.spec_at_final(level, element),
    {
        let n = self.layout.positions.len();
        if n == 0 {
            return false;
        }
        let mut j = self.cur + 1;
        while j < n
            invariant
                self.wf(),
                n == self.layout.positions@.len(),
                self.cur as int + 1 <= j as int <= n as int,
                self.final_scan(self.cur as int + 1, level, element) == self.final_scan(
                    j as int,
                    level,
                    element,
                ),
            decreases n - j,
        {
            if self.layout.positions[j].idx(level) != self.layout.positions[self.cur].idx(level) {
                return true;
            }
            if self.layout.positions[j].idx(element) != self.layout.positions[self.cur].idx(
                element,
            ) {
                return false;
            }
            j += 1;
        }
        true
    }

    /// The box of the element at `level` at the current position, when the
    /// engine has one.
    pub fn get_bounding_rect(&self, level: Level) -> (r: Option<BoundingRect>)
        requires
            self.wf(),
        ensures
            r == self.spec_bounding_rect(level),
    {
        if self.layout.positions.len() == 0 {
            return None;
        }
        let idx = self.layout.positions[self.cur].idx(level);
        proof {
            self.layout.lemma_pos_idx_in_bounds(self.cur as int, level);
        }
        self.layout.elems(level)[idx].bounding_box
    }

    /// The text of the element at `level` at the current position, as a
    /// freshly owned `Text`, when the engine has one.
    pub fn get_utf8_text(&self, level: Level) -> (r: Option<Text>)
        requires
            self.wf(),
        ensures
            r is Some <==> self.spec_text(level) is Some,
            r matches Some(t) ==> Some(t@) == self.spec_text(level) && t.wf(),
    {
        if self.layout.positions.len() == 0 {
            return None;
        }
        let idx = self.layout.positions[self.cur].idx(level);
        proof {
            self.layout.lemma_pos_idx_in_bounds(self.cur as int, level);
        }
        match &self.layout.elems(level)[idx].text {
            Some(b) => Some(Text::from_content(clone_bytes(b))),
            None => None,
        }
    }

    /// Advances to the next element at `level`. Returns false, leaving the
    /// cursor in place, when no further element exists: the walk at that
    /// level is exhausted.
    pub fn next(&mut self, level: Level) -> (r: bool)
        requires
            old(self).wf(),
        ensures
            final(self).wf(),
            r == old(self).spec_has_next(level),
            *final(self) == (if old(self).spec_has_next(level) {
                old(self).spec_advanced(level)
            } else {
                *old(self)
            }),
    {
        let n = self.layout.positions.len();
        if n == 0 {
            return false;
        }
        let mut j = self.cur + 1;
        while j < n
            invariant
                self.layout == old(self).layout,
                self.cur == old(self).cur,
                self.wf(),
                n == self.layout.positions@.len(),
                self.cur as int + 1 <= j as int <= n as int,
                self.spec_next_pos(level) == self.next_scan(j as int, level),
            decreases n - j,
        {
            if self.layout.positions[j].idx(level) != self.layout.positions[self.cur].idx(level) {
                self.cur = j;
                return true;
            }
            j += 1;
        }
        false
    }
}

impl ResultIterator {
    /// Hands the cursor to a single-use lazy sequence that advances at
    /// `level`. The sequence owns the cursor for its whole life, so no second
    /// sequence and no direct mutation can exist beside it; `into_inner`
    /// gives the cursor back.
    pub fn iter_at_level(self, level: Level) -> (r: ResultIteratorIter)
        ensures
            r.iterator == self,
            r.level == level,
            r.first_iteration,
    {
        ResultIteratorIter { iterator: self, level, first_iteration: true }
    }

    /// A sequence of the recognition's words.
    pub fn words(self) -> (r: ResultIteratorIter)
        ensures
            r.iterator == self,
            r.level == Level::Word,
            r.first_iteration,
    {
        self.iter_at_level(Level::Word)
    }

    /// A sequence of the recognition's symbols.
    pub fn symbols(self) -> (r: ResultIteratorIter)
        ensures
            r.iterator == self,
            r.level == Level::Symbol,
            r.first_iteration,
    {
        self.iter_at_level(Level::Symbol)
    }

    /// A sequence of the recognition's lines.
    pub fn lines(self) -> (r: ResultIteratorIter)
        ensures
            r.iterator == self,
            r.level == Level::Line,
            r.first_iteration,
    {
        self.iter_at_level(Level::Line)
    }

    /// A sequence of the recognition's paragraphs.
    pub fn paragraphs(self) -> (r: ResultIteratorIter)
        ensures
            r.iterator == self,
            r.level == Level::Paragraph,
            r.first_iteration,
    {
        self.iter_at_level(Level::Paragraph)
    }

    /// A sequence of the recognition's blocks.
    pub fn blocks(self) -> (r: ResultIteratorIter)
        ensures
            r.iterator == self,
            r.level == Level::Block,
            r.first_iteration,
    {
        self.iter_at_level(Level::Block)
    }
}

/// A single-use lazy sequence over the cursor, bound to one level.
///
/// The engine's cursor is inspect-then-advance: on creation it already
/// stands at the first element. The sequence bridges that to the customary
/// yield-next-or-end contract with a one-bit lookahead flag: the first step
/// reads without advancing, every later step advances first and signals end,
/// terminally, when the advance fails.
pub struct ResultIteratorIter {
    pub iterator: ResultIterator,
    pub level: Level,
    pub first_iteration: bool,
}

impl ResultIteratorIter {
    /// The sequence is as well-formed as its cursor.
    pub open spec fn wf(self) -> bool {
        self.iterator.wf()
    }

    /// A step emits a record: always on the pending first step, and later
    /// exactly while a further element exists at the sequence's level.
    pub open spec fn emits(self) -> bool {
        self.first_iteration || self.iterator.spec_has_next(self.level)
    }

    /// The sequence after one step: the first step only clears the pending
    /// flag, a later step advances the cursor, and a step past exhaustion
    /// changes nothing.
    pub open spec fn stepped(self) -> ResultIteratorIter {
        if self.first_iteration {
            ResultIteratorIter { iterator: self.iterator, level: self.level, first_iteration: false }
        } else if self.iterator.spec_has_next(self.level) {
            ResultIteratorIter {
                iterator: self.iterator.spec_advanced(self.level),
                level: self.level,
                first_iteration: false,
            }
        } else {
            self
        }
    }

    /// What the record of one step holds: the reads at the position the step
    /// ends on, at the sequence's level.
    pub open spec fn emitted_view(self) -> ResultItemView {
        self.stepped().iterator.spec_item_view(self.level)
    }

    /// Produces the next record, or signals end. The first step does not
    /// advance: the cursor already stands at the first element. Later steps
    /// advance at the sequence's level and signal end, leaving everything
    /// unchanged, once no further element exists.
    pub fn next(&mut self) -> (r: Option<ResultItem>)
        requires
            old(self).wf(),
        ensures
            final(self).wf(),
            *final(self) == old(self).stepped(),
            r is Some <==> old(self).emits(),
            r matches Some(item) ==> item@ == old(self).emitted_view(),
    {
        if self.first_iteration {
            self.first_iteration = false;
        } else {
            if !self.iterator.next(self.level) {
                return None;
            }
        }
        let text = self.iterator.get_utf8_text(self.level);
        let confidence_bits = self.iterator.confidence(self.level);
        let bounding_rect = self.iterator.get_bounding_rect(self.level);
        Some(ResultItem { text, confidence_bits, bounding_rect, level: self.level })
    }

    /// The enclosing cursor's positional read, unchanged by the sequence.
    pub fn is_at_beginning_of(&self, level: Level) -> (r: bool)
        requires
            self.wf(),
        ensures
            r == self.iterator.spec_at_beginning(level),
    {
        self.iterator.is_at_beginning_of(level)
    }

    /// The enclosing cursor's positional read, unchanged by the sequence.
    pub fn is_at_final_element(&self, level: Level, element: Level) -> (r: bool)
        requires
            self.wf(),
        ensures
            r == self.iterator.spec_at_final(level, element),
    {
        self.iterator.is_at_final_element(level, element)
    }

    /// The enclosing cursor's geometry read, unchanged by the sequence.
    pub fn get_bounding_rect(&self, level: Level) -> (r: Option<BoundingRect>)
        requires
            self.wf(),
        ensures
            r == self.iterator.spec_bounding_rect(level),
    {
        self.iterator.get_bounding_rect(level)
    }

    /// The enclosing cursor's confidence read, unchanged by the sequence.
    pub fn confidence(&self, level: Level) -> (r: u32)
        requires
            self.wf(),
        ensures
            r == self.iterator.spec_confidence(level),
    {
        self.iterator.confidence(level)
    }

    /// The enclosing cursor's text read, unchanged by the sequence.
    pub fn get_utf8_text(&self, level: Level) -> (r: Option<Text>)
        requires
            self.wf(),
        ensures
            r is Some <==> self.iterator.spec_text(level) is Some,
            r matches Some(t) ==> Some(t@) == self.iterator.spec_text(level) && t.wf(),
    {
        self.iterator.get_utf8_text(level)
    }

    /// Gives the cursor back once the sequence is done with it.
    pub fn into_inner(self) -> (r: ResultIterator)
        ensures
            r == self.iterator,
    {
        self.iterator
    }
}

/// The first step of a sequence does not advance: it emits the record of the
/// cursor's position as the sequence found it, and only clears the pending
/// flag.
pub proof fn lemma_first_step_reads_current(s: ResultIteratorIter)
    requires
        s.first_iteration,
    ensures
        s.emits(),
        s.stepped().iterator == s.iterator,
        s.emitted_view() == s.iterator.spec_item_view(s.level),
{
}

/// Every later step advances before it reads: while a further element
/// exists, the emitted record describes the advanced cursor's position.
pub proof fn lemma_later_step_advances(s: ResultIteratorIter)
    requires
        !s.first_iteration,
        s.emits(),
    ensures
        s.stepped().iterator == s.iterator.spec_advanced(s.level),
        s.emitted_view() == s.iterator.spec_advanced(s.level).spec_item_view(s.level),
{
}

/// Exhaustion is terminal: a step that signals end leaves the sequence
/// unchanged, so every further step signals end as well.
pub proof fn lemma_exhaustion_terminal(s: ResultIteratorIter)
    requires
        !s.emits(),
    ensures
        s.stepped() == s,
        !s.stepped().emits(),
{
}

/// Level fidelity: every record a sequence emits carries the level the
/// sequence was created with, and stepping never changes that level.
pub proof fn lemma_level_fidelity(s: ResultIteratorIter)
    ensures
        s.emitted_view().level == s.level,
        s.stepped().level == s.level,
{
}

/// Clones the bytes of one engine text buffer.
fn clone_bytes(v: &Vec<u8>) -> (r: Vec<u8>)
    ensures
        r@ == v@,
{
    let r = v.clone();
    proof {
        assert forall|i: int| 0 <= i < r@.len() implies r@[i] == v@[i] by {
            assert(cloned::<u8>(v@[i], r@[i]));
        }
        assert(r@ =~= v@);
    }
    r
}

} // verus!

