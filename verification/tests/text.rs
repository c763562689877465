use ocr_results::Text;

#[test]
fn view_excludes_the_terminator() {
    let text = Text::new(b"hello\0".to_vec());
    assert_eq!(text.as_bytes(), b"hello");
}

#[test]
fn empty_buffer_views_as_empty() {
    let text = Text::new(vec![0]);
    assert_eq!(text.as_bytes(), b"");
}

#[test]
fn debug_render_quotes_valid_utf8() {
    let text = Text::new(b"hi\0".to_vec());
    assert_eq!(text.debug_render(), "Text(\"hi\")");
}

#[test]
fn debug_render_escapes_like_debug() {
    let text = Text::new(b"a\"b\n\0".to_vec());
    assert_eq!(text.debug_render(), "Text(\"a\\\"b\\n\")");
}

#[test]
fn debug_render_tolerates_invalid_utf8() {
    let text = Text::new(vec![0xFF, 0xFE, 0x00]);
    assert_eq!(text.debug_render(), "Text(<invalid UTF-8>)");
}

#[test]
fn distinct_texts_own_distinct_buffers() {
    let first = Text::new(b"one\0".to_vec());
    let second = Text::new(b"two\0".to_vec());
    assert_eq!(first.as_bytes(), b"one");
    assert_eq!(second.as_bytes(), b"two");
    drop(first);
    assert_eq!(second.as_bytes(), b"two");
}
