use ropey::Rope;
use shl_lsp::comments::get_comments_from_lines;

#[test]
fn test_get_comments_from_lines() {
    let text = Rope::from_str("/// This is a test.\n/// It has two lines.\nfn func() {}");
    let result = get_comments_from_lines(2, &text);
    assert_eq!(result, "This is a test. It has two lines.");

    let text = Rope::from_str("/// # Title\n/// - Point one\n/// - Point two\nfn func() {}");
    let result = get_comments_from_lines(3, &text);
    assert_eq!(result, "# Title\n- Point one\n- Point two");

    let text = Rope::from_str(
        "/// This is not part of the doc \n\n/// This is part of the doc\nfn func() {}",
    );
    let result = get_comments_from_lines(3, &text);
    assert_eq!(result, "This is part of the doc");

    let text = Rope::from_str("fn func() {}");
    let result = get_comments_from_lines(0, &text);
    assert_eq!(result, "");
}

#[test]
fn comment_run_stops_at_first_unmarked_line() {
    let text = Rope::from_str("/// early\nno marker\n/// attached\nfn func() {}");
    assert_eq!(get_comments_from_lines(3, &text), "attached");
}

#[test]
fn blank_doc_line_starts_a_new_line() {
    let text = Rope::from_str("/// first\n///\n/// second\nfn func() {}");
    assert_eq!(get_comments_from_lines(3, &text), "first\n\nsecond");
}

#[test]
fn indented_code_line_starts_a_new_line() {
    let text = Rope::from_str("/// first\n///     let x = 1;\n/// second\nfn func() {}");
    assert_eq!(get_comments_from_lines(3, &text), "first\nlet x = 1;\nsecond");
}
