use mengxi::markdown::{parse_inline_styles, render_line_spans, render_markdown, split_text_lines, InlineStyle, StyledSpan};

fn chars(s: &str) -> Vec<char> {
    s.chars().collect()
}

fn spans(v: &[(&str, InlineStyle)]) -> Vec<StyledSpan> {
    v.iter().map(|(t, s)| StyledSpan { text: t.to_string(), style: *s }).collect()
}

#[test]
fn plain_text_is_one_span() {
    assert_eq!(parse_inline_styles(&chars("hello")), spans(&[("hello", InlineStyle::Plain)]));
    assert_eq!(parse_inline_styles(&[]), spans(&[("", InlineStyle::Plain)]));
    assert_eq!(parse_inline_styles(&chars("2 * 3 = 6*")), spans(&[("2 * 3 = 6*", InlineStyle::Plain)]));
}

#[test]
fn code_and_bold_runs() {
    assert_eq!(
        parse_inline_styles(&chars("use `x` and **y** now")),
        spans(&[
            ("use ", InlineStyle::Plain),
            ("x", InlineStyle::Code),
            (" and ", InlineStyle::Plain),
            ("y", InlineStyle::Bold),
            (" now", InlineStyle::Plain),
        ])
    );
}

#[test]
fn unmatched_markers() {
    assert_eq!(
        parse_inline_styles(&chars("a `b")),
        spans(&[("a ", InlineStyle::Plain), ("`", InlineStyle::Backtick), ("b", InlineStyle::Plain)])
    );
    assert_eq!(
        parse_inline_styles(&chars("**open")),
        spans(&[("**", InlineStyle::Dim), ("open", InlineStyle::Plain)])
    );
}

#[test]
fn headings_lists_and_fences() {
    assert_eq!(render_line_spans(&chars("## Title")), spans(&[("Title", InlineStyle::Heading)]));
    assert_eq!(
        render_line_spans(&chars("- item")),
        spans(&[("  \u{2022} ", InlineStyle::Plain), ("item", InlineStyle::Plain)])
    );
    assert_eq!(
        render_line_spans(&chars("12. step")),
        spans(&[("  12. ", InlineStyle::Plain), ("step", InlineStyle::Plain)])
    );
    assert_eq!(
        render_line_spans(&chars("```rust")),
        spans(&[("\u{2500}\u{2500} rust \u{2500}\u{2500}", InlineStyle::Dim)])
    );
    assert_eq!(
        render_line_spans(&chars("```")),
        spans(&[("\u{2500}\u{2500} code \u{2500}\u{2500}", InlineStyle::Dim)])
    );
    assert!(render_line_spans(&[]).is_empty());
}

#[test]
fn lines_split_like_str_lines() {
    let lines = split_text_lines(&chars("a\r\nb\n\nc\n"));
    let got: Vec<String> = lines.iter().map(|l| l.iter().collect()).collect();
    let want: Vec<String> = "a\r\nb\n\nc\n".lines().map(|s| s.to_string()).collect();
    assert_eq!(got, want);
}

#[test]
fn markdown_renders_each_line() {
    let r = render_markdown("# Hi\n\ntext");
    assert_eq!(r.len(), 3);
    assert_eq!(r[0], spans(&[("Hi", InlineStyle::Heading)]));
    assert!(r[1].is_empty());
    assert_eq!(r[2], spans(&[("text", InlineStyle::Plain)]));
}
