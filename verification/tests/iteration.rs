use ocr_results::BoundingRect;
use ocr_results::Element;
use ocr_results::Level;
use ocr_results::PageLayout;
use ocr_results::Position;
use ocr_results::ResultItem;
use ocr_results::ResultIterator;

fn elem(text: Option<&[u8]>, confidence: f32, bounding_box: Option<BoundingRect>) -> Element {
    Element {
        text: text.map(|t| t.to_vec()),
        confidence_bits: confidence.to_bits(),
        bounding_box,
    }
}

fn dummy() -> Element {
    elem(None, 0.0, None)
}

fn rect(left: i32, top: i32, right: i32, bottom: i32) -> BoundingRect {
    BoundingRect {
        left,
        top,
        right,
        bottom,
    }
}

fn empty_page() -> PageLayout {
    PageLayout {
        blocks: Vec::new(),
        paragraphs: Vec::new(),
        lines: Vec::new(),
        words: Vec::new(),
        symbols: Vec::new(),
        positions: Vec::new(),
    }
}

/// One block, one paragraph, one line; the words "hello", "brave", "world"
/// with one symbol each.
fn three_word_line() -> PageLayout {
    let words = vec![
        elem(Some(b"hello"), 95.0, Some(rect(0, 0, 40, 10))),
        elem(Some(b"brave"), 80.0, Some(rect(45, 0, 95, 10))),
        elem(Some(b"world"), 70.0, Some(rect(100, 0, 150, 10))),
    ];
    let positions = (0..3)
        .map(|i| Position {
            block: 0,
            paragraph: 0,
            line: 0,
            word: i,
            symbol: i,
        })
        .collect();
    PageLayout {
        blocks: vec![dummy()],
        paragraphs: vec![dummy()],
        lines: vec![dummy()],
        words,
        symbols: vec![dummy(), dummy(), dummy()],
        positions,
    }
}

/// One word "hi" holding the symbols "h" and "i".
fn word_with_two_symbols() -> PageLayout {
    let positions = (0..2)
        .map(|i| Position {
            block: 0,
            paragraph: 0,
            line: 0,
            word: 0,
            symbol: i,
        })
        .collect();
    PageLayout {
        blocks: vec![dummy()],
        paragraphs: vec![dummy()],
        lines: vec![dummy()],
        words: vec![elem(Some(b"hi"), 90.0, None)],
        symbols: vec![
            elem(Some(b"h"), 91.0, None),
            elem(Some(b"i"), 89.0, None),
        ],
        positions,
    }
}

/// Two paragraphs of two lines each; every line holds two one-symbol words.
fn two_paragraph_page() -> PageLayout {
    let words: Vec<Element> = (0..8).map(|_| elem(Some(b"w"), 50.0, None)).collect();
    let symbols: Vec<Element> = (0..8).map(|_| dummy()).collect();
    let positions = (0..8usize)
        .map(|i| Position {
            block: 0,
            paragraph: i / 4,
            line: i / 2,
            word: i,
            symbol: i,
        })
        .collect();
    PageLayout {
        blocks: vec![dummy()],
        paragraphs: vec![dummy(), dummy()],
        lines: vec![dummy(), dummy(), dummy(), dummy()],
        words,
        symbols,
        positions,
    }
}

fn text_bytes(item: &ResultItem) -> Option<Vec<u8>> {
    item.text.as_ref().map(|t| t.as_bytes().to_vec())
}

#[test]
fn empty_page_word_level() {
    let it = ResultIterator::new(empty_page());
    let mut seq = it.iter_at_level(Level::Word);
    let first = seq.next().expect("the first step still emits one record");
    assert!(first.text.is_none());
    assert!(first.bounding_rect.is_none());
    assert_eq!(first.confidence_bits, 0.0f32.to_bits());
    assert_eq!(first.level, Level::Word);
    assert!(seq.next().is_none());
}

#[test]
fn three_words_in_order() {
    let it = ResultIterator::new(three_word_line());
    let mut seq = it.words();
    let expected = [
        (b"hello".to_vec(), 95.0f32, rect(0, 0, 40, 10)),
        (b"brave".to_vec(), 80.0f32, rect(45, 0, 95, 10)),
        (b"world".to_vec(), 70.0f32, rect(100, 0, 150, 10)),
    ];
    for (text, confidence, r) in expected.iter() {
        let item = seq.next().expect("a word is owed");
        assert_eq!(text_bytes(&item).as_ref(), Some(text));
        assert_eq!(item.confidence_bits, confidence.to_bits());
        assert_eq!(item.bounding_rect, Some(*r));
        assert_eq!(item.level, Level::Word);
    }
    assert!(seq.next().is_none());
}

#[test]
fn first_step_reads_the_initial_position() {
    let it = ResultIterator::new(three_word_line());
    let direct_text = it.get_utf8_text(Level::Word).map(|t| t.as_bytes().to_vec());
    let direct_confidence = it.confidence(Level::Word);
    let direct_rect = it.get_bounding_rect(Level::Word);
    let mut seq = it.words();
    let first = seq.next().expect("a word is owed");
    assert_eq!(text_bytes(&first), direct_text);
    assert_eq!(first.confidence_bits, direct_confidence);
    assert_eq!(first.bounding_rect, direct_rect);
}

#[test]
fn later_steps_follow_the_cursor_advances() {
    let mut probe = ResultIterator::new(three_word_line());
    let mut observed = Vec::new();
    observed.push(probe.get_utf8_text(Level::Word).map(|t| t.as_bytes().to_vec()));
    while probe.next(Level::Word) {
        observed.push(probe.get_utf8_text(Level::Word).map(|t| t.as_bytes().to_vec()));
    }
    let mut seq = ResultIterator::new(three_word_line()).words();
    let mut emitted = Vec::new();
    while let Some(item) = seq.next() {
        emitted.push(text_bytes(&item));
    }
    assert_eq!(emitted, observed);
}

#[test]
fn exhaustion_is_terminal() {
    let it = ResultIterator::new(word_with_two_symbols());
    let mut seq = it.words();
    assert!(seq.next().is_some());
    assert!(seq.next().is_none());
    assert!(seq.next().is_none());
    assert!(seq.next().is_none());
}

#[test]
fn every_item_carries_the_sequence_level() {
    let levels = [
        Level::Block,
        Level::Paragraph,
        Level::Line,
        Level::Word,
        Level::Symbol,
    ];
    for level in levels {
        let it = ResultIterator::new(three_word_line());
        let mut seq = it.iter_at_level(level);
        while let Some(item) = seq.next() {
            assert_eq!(item.level, level);
        }
    }
}

#[test]
fn convenience_factories_bind_their_level() {
    let take_level = |mut seq: ocr_results::ResultIteratorIter| {
        seq.next().expect("one record is owed").level
    };
    assert_eq!(take_level(ResultIterator::new(three_word_line()).words()), Level::Word);
    assert_eq!(
        take_level(ResultIterator::new(three_word_line()).symbols()),
        Level::Symbol
    );
    assert_eq!(take_level(ResultIterator::new(three_word_line()).lines()), Level::Line);
    assert_eq!(
        take_level(ResultIterator::new(three_word_line()).paragraphs()),
        Level::Paragraph
    );
    assert_eq!(take_level(ResultIterator::new(three_word_line()).blocks()), Level::Block);
}

#[test]
fn symbols_below_a_word() {
    let it = ResultIterator::new(word_with_two_symbols());
    let mut seq = it.iter_at_level(Level::Symbol);
    let first = seq.next().expect("first symbol");
    assert_eq!(text_bytes(&first), Some(b"h".to_vec()));
    let second = seq.next().expect("second symbol");
    assert_eq!(text_bytes(&second), Some(b"i".to_vec()));
    assert!(seq.next().is_none());

    let it = ResultIterator::new(word_with_two_symbols());
    let mut seq = it.words();
    let only = seq.next().expect("one word");
    assert_eq!(text_bytes(&only), Some(b"hi".to_vec()));
    assert!(seq.next().is_none());
}

#[test]
fn null_text_with_valid_box() {
    let mut layout = word_with_two_symbols();
    layout.words[0] = elem(None, 30.0, Some(rect(10, 10, 20, 20)));
    let it = ResultIterator::new(layout);
    let mut seq = it.words();
    let item = seq.next().expect("one word");
    assert!(item.text.is_none());
    let r = item.bounding_rect.expect("a box is owed");
    assert_eq!(r, rect(10, 10, 20, 20));
    assert_eq!(r.width(), 10);
    assert_eq!(r.height(), 10);
    assert!(seq.next().is_none());
}

#[test]
fn geometry_absence_becomes_none() {
    let it = ResultIterator::new(word_with_two_symbols());
    let mut seq = it.words();
    let item = seq.next().expect("one word");
    assert!(item.bounding_rect.is_none());
}

#[test]
fn positional_predicates_across_paragraphs() {
    let mut it = ResultIterator::new(two_paragraph_page());
    assert!(it.is_at_beginning_of(Level::Paragraph));
    assert!(it.next(Level::Line));
    assert!(!it.is_at_beginning_of(Level::Paragraph));
    assert!(it.next(Level::Line));
    // First line of the second paragraph.
    assert!(it.is_at_beginning_of(Level::Paragraph));
    assert!(it.is_at_beginning_of(Level::Line));
    assert!(it.next(Level::Line));
    // Second line of the second paragraph.
    assert!(!it.is_at_beginning_of(Level::Paragraph));
    assert!(it.is_at_beginning_of(Level::Line));
}

#[test]
fn final_word_of_each_line() {
    let mut it = ResultIterator::new(two_paragraph_page());
    let mut finals = Vec::new();
    finals.push(it.is_at_final_element(Level::Line, Level::Word));
    while it.next(Level::Word) {
        finals.push(it.is_at_final_element(Level::Line, Level::Word));
    }
    // Eight words, two per line: exactly every second word ends its line.
    assert_eq!(
        finals,
        vec![false, true, false, true, false, true, false, true]
    );
}

#[test]
fn passthrough_reads_match_the_cursor() {
    let it = ResultIterator::new(three_word_line());
    let mut seq = it.words();
    let _ = seq.next();
    let _ = seq.next();
    assert_eq!(
        seq.get_utf8_text(Level::Word).map(|t| t.as_bytes().to_vec()),
        Some(b"brave".to_vec())
    );
    assert_eq!(seq.confidence(Level::Word), 80.0f32.to_bits());
    assert_eq!(seq.get_bounding_rect(Level::Word), Some(rect(45, 0, 95, 10)));
    assert!(seq.is_at_beginning_of(Level::Word));
    assert!(!seq.is_at_final_element(Level::Line, Level::Word));
    let it = seq.into_inner();
    assert_eq!(it.confidence(Level::Word), 80.0f32.to_bits());
}

#[test]
fn reads_after_exhaustion_do_not_crash() {
    let it = ResultIterator::new(word_with_two_symbols());
    let mut seq = it.words();
    while seq.next().is_some() {}
    assert_eq!(
        seq.get_utf8_text(Level::Word).map(|t| t.as_bytes().to_vec()),
        Some(b"hi".to_vec())
    );
    assert_eq!(seq.confidence(Level::Word), 90.0f32.to_bits());
}

#[test]
fn advance_skips_intermediate_structure() {
    let mut it = ResultIterator::new(two_paragraph_page());
    // Advancing at paragraph level jumps over lines and words.
    assert!(it.next(Level::Paragraph));
    assert!(it.is_at_beginning_of(Level::Paragraph));
    assert!(!it.next(Level::Paragraph));
    // A failed advance leaves the cursor in place.
    assert!(it.is_at_beginning_of(Level::Paragraph));
}

#[test]
fn level_codes_match_the_engine() {
    assert_eq!(Level::Block.engine_code(), 0);
    assert_eq!(Level::Paragraph.engine_code(), 1);
    assert_eq!(Level::Line.engine_code(), 2);
    assert_eq!(Level::Word.engine_code(), 3);
    assert_eq!(Level::Symbol.engine_code(), 4);
    for code in 0..5u32 {
        let level = Level::from_engine_code(code).expect("a known code");
        assert_eq!(level.engine_code(), code);
    }
    assert!(Level::from_engine_code(5).is_none());
}

#[test]
fn rect_from_box_honors_the_success_flag() {
    assert_eq!(
        ocr_results::result_iterator::rect_from_box(true, 1, 2, 3, 4),
        Some(rect(1, 2, 3, 4))
    );
    assert_eq!(
        ocr_results::result_iterator::rect_from_box(false, 1, 2, 3, 4),
        None
    );
}
