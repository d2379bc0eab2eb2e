//! Lightweight markdown rendering into styled spans for the chat panel.
//!
//! A line is a heading (`#`, `##`, `###`), a bullet (`- `, `* `), a numbered item
//! (`12. `), a code fence marker (three backticks and an optional language) or plain
//! text. Inside text, `` `code` `` and `**bold**` are recognised; an opening marker
//! without its closing partner is kept visible and styled as a marker.

use vstd::prelude::*;
use vstd::slice::slice_subrange;
use crate::text::{str_chars, string_from_chars};

verus! {

broadcast use vstd::string::group_string_axioms;

/// Style of a rendered span.
#[derive(Debug, Clone, Copy, PartialEq, Eq, Structural)]
pub enum InlineStyle {
    /// Unstyled text.
    Plain,
    /// Heading text (cyan, bold).
    Heading,
    /// Inline code (yellow on dark gray).
    Code,
    /// An opening backtick that has no closing one (yellow).
    Backtick,
    /// Bold text.
    Bold,
    /// An unmatched `**` marker or a code fence label (dark gray).
    Dim,
}

/// A piece of text with its style.
#[derive(Debug, Clone, PartialEq, Eq)]
pub struct StyledSpan {
    pub text: String,
    pub style: InlineStyle,
}

/// Abstract view of spans: their characters and styles.
pub open spec fn spans_view(v: Seq<StyledSpan>) -> Seq<(Seq<char>, InlineStyle)> {
    v.map_values(|sp: StyledSpan| (sp.text@, sp.style))
}

/// First index at or after `from` holding `c`.
pub open spec fn find_char(s: Seq<char>, from: int, c: char) -> Option<int>
    decreases s.len() - from,
{
    if from < 0 || from >= s.len() {
        None
    } else if s[from] == c {
        Some(from)
    } else {
        find_char(s, from + 1, c)
    }
}

/// First index `j > from` with `**` at `j - 1, j` (the closing marker of a bold run
/// whose text starts at `from`).
pub open spec fn find_bold_close(s: Seq<char>, from: int) -> Option<int>
    decreases s.len() - from,
{
    if from < 0 || from + 1 >= s.len() {
        None
    } else if s[from] == '*' && s[from + 1] == '*' {
        Some(from + 1)
    } else {
        find_bold_close(s, from + 1)
    }
}

/// The remaining text from `cs` as a plain span, when there is any.
pub open spec fn rest_span(s: Seq<char>, cs: int) -> Seq<(Seq<char>, InlineStyle)> {
    if 0 <= cs < s.len() {
        seq![(s.subrange(cs, s.len() as int), InlineStyle::Plain)]
    } else {
        Seq::empty()
    }
}

/// Pending plain text between `cs` and `i`, when there is any.
pub open spec fn pending_span(s: Seq<char>, cs: int, i: int) -> Seq<(Seq<char>, InlineStyle)> {
    if cs < i {
        seq![(s.subrange(cs, i), InlineStyle::Plain)]
    } else {
        Seq::empty()
    }
}

/// Inline spans of `s`, scanning from `i` with plain text pending since `cs`.
pub open spec fn inline_from(s: Seq<char>, cs: int, i: int) -> Seq<(Seq<char>, InlineStyle)>
    decreases s.len() - i,
{
    if i < 0 || i >= s.len() {
        rest_span(s, cs)
    } else if s[i] == '`' {
        match find_char(s, i + 1, '`') {
            Some(j) => if i < j < s.len() {
                pending_span(s, cs, i) + seq![(s.subrange(i + 1, j), InlineStyle::Code)]
                    + inline_from(s, j + 1, j + 1)
            } else {
                Seq::empty()
            },
            None => pending_span(s, cs, i) + seq![(seq!['`'], InlineStyle::Backtick)] + rest_span(
                s,
                i + 1,
            ),
        }
    } else if s[i] == '*' && i + 1 < s.len() && s[i + 1] == '*' {
        match find_bold_close(s, i + 2) {
            Some(j) => if i + 2 < j < s.len() {
                pending_span(s, cs, i) + seq![(s.subrange(i + 2, j - 1), InlineStyle::Bold)]
                    + inline_from(s, j + 1, j + 1)
            } else {
                Seq::empty()
            },
            None => pending_span(s, cs, i) + seq![(seq!['*', '*'], InlineStyle::Dim)] + rest_span(
                s,
                i + 2,
            ),
        }
    } else {
        inline_from(s, cs, i + 1)
    }
}

/// Inline spans of a whole text; text that yields no span at all (the empty text)
/// becomes one plain span.
pub open spec fn inline_spans(s: Seq<char>) -> Seq<(Seq<char>, InlineStyle)> {
    if inline_from(s, 0, 0).len() == 0 {
        seq![(s, InlineStyle::Plain)]
    } else {
        inline_from(s, 0, 0)
    }
}

/// `find_char` stays within bounds.
pub proof fn lemma_find_char(s: Seq<char>, from: int, c: char)
    requires
        0 <= from,
    ensures
        find_char(s, from, c) matches Some(j) ==> from <= j < s.len() && s[j] == c,
        find_char(s, from, c) is None ==> forall|k: int| from <= k < s.len() ==> s[k] != c,
    decreases s.len() - from,
{
    if from < s.len() && s[from] != c {
        lemma_find_char(s, from + 1, c);
    }
}

/// `find_bold_close` stays within bounds.
pub proof fn lemma_find_bold_close(s: Seq<char>, from: int)
    requires
        0 <= from,
    ensures
        find_bold_close(s, from) matches Some(j) ==> from + 1 <= j < s.len() && s[j - 1] == '*'
            && s[j] == '*',
    decreases s.len() - from,
{
    if from + 1 < s.len() && !(s[from] == '*' && s[from + 1] == '*') {
        lemma_find_bold_close(s, from + 1);
    }
}

/// Text with no backtick and no two asterisks in a row: it holds no inline markup.
pub open spec fn markup_free(s: Seq<char>) -> bool {
    forall|k: int| 0 <= k < s.len() ==> #[trigger] s[k] != '`' && !(s[k] == '*' && k + 1 < s.len()
        && s[k + 1] == '*')
}

proof fn lemma_markup_free_from(s: Seq<char>, cs: int, i: int)
    requires
        markup_free(s),
        0 <= i,
    ensures
        inline_from(s, cs, i) == rest_span(s, cs),
    decreases s.len() - i,
{
    if i < s.len() {
        assert(s[i] != '`');
        lemma_markup_free_from(s, cs, i + 1);
    }
}

/// Text without inline markup is one plain span holding the whole text.
pub proof fn lemma_markup_free_is_plain(s: Seq<char>)
    requires
        markup_free(s),
    ensures
        inline_spans(s) == seq![(s, InlineStyle::Plain)],
{
    lemma_markup_free_from(s, 0, 0);
    assert(s.subrange(0, s.len() as int) =~= s);
}

/// First index at or after `from` holding `c`.
fn find_char_exec(s: &[char], from: usize, c: char) -> (r: Option<usize>)
    ensures
        r matches Some(j) ==> find_char(s@, from as int, c) == Some(j as int),
        r is None ==> find_char(s@, from as int, c) is None,
{
    let mut k = from;
    while k < s.len()
        invariant
            from <= k,
            find_char(s@, k as int, c) == find_char(s@, from as int, c),
        decreases s@.len() - k,
    {
        if s[k] == c {
            return Some(k);
        }
        k = k + 1;
    }
    None
}

/// Closing `**` of a bold run whose text starts at `from`.
fn find_bold_close_exec(s: &[char], from: usize) -> (r: Option<usize>)
    ensures
        r matches Some(j) ==> find_bold_close(s@, from as int) == Some(j as int),
        r is None ==> find_bold_close(s@, from as int) is None,
{
    let mut k = from;
    while k < s.len() && k + 1 < s.len()
        invariant
            from <= k,
            find_bold_close(s@, k as int) == find_bold_close(s@, from as int),
        decreases s@.len() - k,
    {
        if s[k] == '*' && s[k + 1] == '*' {
            return Some(k + 1);
        }
        k = k + 1;
    }
    None
}

/// A span holding `s[a..b]`.
fn span_of(s: &[char], a: usize, b: usize, style: InlineStyle) -> (r: StyledSpan)
    requires
        a <= b <= s@.len(),
    ensures
        r.text@ == s@.subrange(a as int, b as int),
        r.style == style,
{
    let part = slice_subrange(s, a, b);
    StyledSpan { text: string_from_chars(part), style }
}

/// A marker span of one or two characters.
fn marker_span(a: char, b: Option<char>, style: InlineStyle) -> (r: StyledSpan)
    ensures
        b is None ==> r.text@ == seq![a],
        b matches Some(c) ==> r.text@ == seq![a, c],
        r.style == style,
{
    let mut v: Vec<char> = Vec::new();
    v.push(a);
    match b {
        Some(c) => {
            v.push(c);
            assert(v@ =~= seq![a, c]);
        },
        None => {
            assert(v@ =~= seq![a]);
        },
    }
    StyledSpan { text: string_from_chars(v.as_slice()), style }
}

/// Parse inline `code` and **bold** runs of a line.
pub fn parse_inline_styles(text: &[char]) -> (r: Vec<StyledSpan>)
    ensures
        spans_view(r@) == inline_spans(text@),
{
    let ghost s = text@;
    let mut out: Vec<StyledSpan> = Vec::new();
    let mut cs: usize = 0;
    let mut i: usize = 0;
    let n = text.len();
    while i < n
        invariant
            n == s.len(),
            s == text@,
            cs <= i <= n,
            spans_view(out@) + inline_from(s, cs as int, i as int) == inline_from(s, 0, 0),
        decreases n - i,
    {
        let ghost before = spans_view(out@);
        if text[i] == '`' {
            if cs < i {
                out.push(span_of(text, cs, i, InlineStyle::Plain));
            }
            proof {
                lemma_find_char(s, i + 1, '`');
            }
            match find_char_exec(text, i + 1, '`') {
                Some(j) => {
                    out.push(span_of(text, i + 1, j, InlineStyle::Code));
                    assert(spans_view(out@) =~= before + pending_span(s, cs as int, i as int)
                        + seq![(s.subrange(i + 1, j as int), InlineStyle::Code)]);
                    cs = j + 1;
                    i = j + 1;
                },
                None => {
                    out.push(marker_span('`', None, InlineStyle::Backtick));
                    assert(spans_view(out@) =~= before + pending_span(s, cs as int, i as int)
                        + seq![(seq!['`'], InlineStyle::Backtick)]);
                    cs = i + 1;
                    i = n;
                },
            }
        } else if text[i] == '*' && i + 1 < n && text[i + 1] == '*' {
            if cs < i {
                out.push(span_of(text, cs, i, InlineStyle::Plain));
            }
            proof {
                lemma_find_bold_close(s, i + 2);
            }
            match find_bold_close_exec(text, i + 2) {
                Some(j) => {
                    out.push(span_of(text, i + 2, j - 1, InlineStyle::Bold));
                    assert(spans_view(out@) =~= before + pending_span(s, cs as int, i as int)
                        + seq![(s.subrange(i + 2, j - 1), InlineStyle::Bold)]);
                    cs = j + 1;
                    i = j + 1;
                },
                None => {
                    out.push(marker_span('*', Some('*'), InlineStyle::Dim));
                    assert(spans_view(out@) =~= before + pending_span(s, cs as int, i as int)
                        + seq![(seq!['*', '*'], InlineStyle::Dim)]);
                    cs = i + 2;
                    i = n;
                },
            }
        } else {
            i = i + 1;
        }
    }
    if cs < n {
        let ghost before = spans_view(out@);
        out.push(span_of(text, cs, n, InlineStyle::Plain));
        assert(spans_view(out@) =~= before + rest_span(s, cs as int));
    } else {
        assert(rest_span(s, cs as int) =~= Seq::empty());
        assert(spans_view(out@) =~= spans_view(out@) + rest_span(s, cs as int));
    }
    if out.len() == 0 {
        out.push(StyledSpan { text: string_from_chars(text), style: InlineStyle::Plain });
        assert(spans_view(out@) =~= seq![(s, InlineStyle::Plain)]);
    }
    out
}

/// A line without one trailing carriage return.
pub open spec fn strip_cr(l: Seq<char>) -> Seq<char> {
    if l.len() > 0 && l.last() == '\r' {
        l.drop_last()
    } else {
        l
    }
}

/// The lines of a text as `str::lines` yields them: split at each line feed, a
/// carriage return right before the line feed dropped, no empty line after a
/// final line feed.
pub open spec fn split_lines(s: Seq<char>) -> Seq<Seq<char>>
    decreases s.len(),
{
    if s.len() == 0 {
        Seq::empty()
    } else {
        match find_char(s, 0, '\n') {
            None => seq![s],
            Some(j) => if 0 <= j < s.len() {
                seq![strip_cr(s.subrange(0, j))] + split_lines(s.subrange(j + 1, s.len() as int))
            } else {
                Seq::empty()
            },
        }
    }
}

/// Whether `l` starts with `p`.
pub open spec fn has_prefix(l: Seq<char>, p: Seq<char>) -> bool {
    p.len() <= l.len() && l.take(p.len() as int) == p
}

/// First index `p` with ". " at `p, p + 1`.
pub open spec fn find_dot_space(l: Seq<char>, from: int) -> Option<int>
    decreases l.len() - from,
{
    if from < 0 || from + 1 >= l.len() {
        None
    } else if l[from] == '.' && l[from + 1] == ' ' {
        Some(from)
    } else {
        find_dot_space(l, from + 1)
    }
}

/// Whether a character is an ASCII digit.
pub open spec fn is_ascii_digit(c: char) -> bool {
    '0' <= c && c <= '9'
}

/// A numbered-list item: the first ". " comes after one or more ASCII digits only.
pub open spec fn numbered_at(l: Seq<char>) -> Option<int> {
    match find_dot_space(l, 0) {
        Some(p) => if 0 < p && p + 1 < l.len() && (forall|k: int| 0 <= k < p ==> is_ascii_digit(
            #[trigger] l[k],
        )) {
            Some(p)
        } else {
            None
        },
        None => None,
    }
}

/// The spans of one rendered line.
pub open spec fn render_line(l: Seq<char>) -> Seq<(Seq<char>, InlineStyle)> {
    if l.len() == 0 {
        Seq::empty()
    } else if has_prefix(l, "### "@) {
        seq![(l.skip(4), InlineStyle::Heading)]
    } else if has_prefix(l, "## "@) {
        seq![(l.skip(3), InlineStyle::Heading)]
    } else if has_prefix(l, "# "@) {
        seq![(l.skip(2), InlineStyle::Heading)]
    } else if has_prefix(l, "- "@) || has_prefix(l, "* "@) {
        seq![("  \u{2022} "@, InlineStyle::Plain)] + inline_spans(l.skip(2))
    } else if numbered_at(l) is Some {
        let p = numbered_at(l)->0;
        seq![("  "@ + l.take(p + 1) + " "@, InlineStyle::Plain)] + inline_spans(l.skip(p + 2))
    } else if has_prefix(l, "```"@) {
        let lang = l.skip(3);
        seq![
            ("\u{2500}\u{2500} "@ + (if lang.len() == 0 { "code"@ } else { lang }) + " \u{2500}\u{2500}"@,
            InlineStyle::Dim),
        ]
    } else {
        inline_spans(l)
    }
}

/// Whether `l` starts with the characters of `p`.
fn starts_with(l: &[char], p: &str) -> (r: bool)
    ensures
        r == has_prefix(l@, p@),
{
    let pv = str_chars(p);
    if pv.len() > l.len() {
        return false;
    }
    let mut k: usize = 0;
    while k < pv.len()
        invariant
            pv@ == p@,
            pv@.len() <= l@.len(),
            k <= pv@.len(),
            forall|m: int| 0 <= m < k ==> l@[m] == pv@[m],
        decreases pv@.len() - k,
    {
        if l[k] != pv[k] {
            assert(l@.take(pv@.len() as int)[k as int] != pv@[k as int]);
            return false;
        }
        k = k + 1;
    }
    assert(l@.take(pv@.len() as int) =~= pv@);
    true
}

/// First position of ". " in a line.
fn find_dot_space_exec(l: &[char]) -> (r: Option<usize>)
    ensures
        r matches Some(p) ==> find_dot_space(l@, 0) == Some(p as int) && p + 1 < l@.len(),
        r is None ==> find_dot_space(l@, 0) is None,
{
    let n = l.len();
    let mut k: usize = 0;
    while k < n && k + 1 < n
        invariant
            n == l@.len(),
            k <= n,
            find_dot_space(l@, k as int) == find_dot_space(l@, 0),
        decreases n - k,
    {
        if l[k] == '.' && l[k + 1] == ' ' {
            return Some(k);
        }
        k = k + 1;
    }
    None
}

/// The numbered-list marker position of a line, if it is a numbered item.
fn numbered_at_exec(l: &[char]) -> (r: Option<usize>)
    ensures
        r matches Some(p) ==> numbered_at(l@) == Some(p as int) && p + 1 < l@.len(),
        r is None ==> numbered_at(l@) is None,
{
    match find_dot_space_exec(l) {
        None => None,
        Some(p) => {
            if p == 0 {
                return None;
            }
            let mut m: usize = 0;
            while m < p
                invariant
                    p + 1 < l@.len(),
                    find_dot_space(l@, 0) == Some(p as int),
                    m <= p,
                    forall|q: int| 0 <= q < m ==> is_ascii_digit(#[trigger] l@[q]),
                decreases p - m,
            {
                if !('0' <= l[m] && l[m] <= '9') {
                    assert(!is_ascii_digit(l@[m as int]));
                    return None;
                }
                m = m + 1;
            }
            Some(p)
        },
    }
}

/// The characters from `a` to the end.
fn tail_of(l: &[char], a: usize) -> (r: &[char])
    requires
        a <= l@.len(),
    ensures
        r@ == l@.skip(a as int),
{
    let r = slice_subrange(l, a, l.len());
    assert(r@ =~= l@.skip(a as int));
    r
}

/// A span from a literal.
fn literal_span(t: &str, style: InlineStyle) -> (r: StyledSpan)
    ensures
        r.text@ == t@,
        r.style == style,
{
    StyledSpan { text: String::from_str(t), style }
}

/// Render one line into spans.
pub fn render_line_spans(l: &[char]) -> (r: Vec<StyledSpan>)
    ensures
        spans_view(r@) == render_line(l@),
{
    if l.len() == 0 {
        let r: Vec<StyledSpan> = Vec::new();
        assert(spans_view(r@) =~= Seq::empty());
        return r;
    }
    if starts_with(l, "### ") {
        proof { reveal_strlit("### "); }
        let mut r: Vec<StyledSpan> = Vec::new();
        r.push(StyledSpan { text: string_from_chars(tail_of(l, 4)), style: InlineStyle::Heading });
        assert(spans_view(r@) =~= render_line(l@));
        return r;
    }
    if starts_with(l, "## ") {
        proof { reveal_strlit("## "); }
        let mut r: Vec<StyledSpan> = Vec::new();
        r.push(StyledSpan { text: string_from_chars(tail_of(l, 3)), style: InlineStyle::Heading });
        assert(spans_view(r@) =~= render_line(l@));
        return r;
    }
    if starts_with(l, "# ") {
        proof { reveal_strlit("# "); }
        let mut r: Vec<StyledSpan> = Vec::new();
        r.push(StyledSpan { text: string_from_chars(tail_of(l, 2)), style: InlineStyle::Heading });
        assert(spans_view(r@) =~= render_line(l@));
        return r;
    }
    if starts_with(l, "- ") || starts_with(l, "* ") {
        proof { reveal_strlit("- "); reveal_strlit("* "); }
        let mut r: Vec<StyledSpan> = Vec::new();
        r.push(literal_span("  \u{2022} ", InlineStyle::Plain));
        let mut rest = parse_inline_styles(tail_of(l, 2));
        let ghost v1 = spans_view(r@);
        let ghost v2 = spans_view(rest@);
        r.append(&mut rest);
        assert(spans_view(r@) =~= v1 + v2);
        return r;
    }
    match numbered_at_exec(l) {
        Some(p) => {
            let mut s = String::from_str("  ");
            let head = string_from_chars(slice_subrange(l, 0, p + 1));
            s.append(head.as_str());
            s.append(" ");
            let mut r: Vec<StyledSpan> = Vec::new();
            r.push(StyledSpan { text: s, style: InlineStyle::Plain });
            let mut rest = parse_inline_styles(tail_of(l, p + 2));
            let ghost v1 = spans_view(r@);
            let ghost v2 = spans_view(rest@);
            r.append(&mut rest);
            assert(spans_view(r@) =~= v1 + v2);
            assert(l@.subrange(0, p + 1) =~= l@.take(p + 1));
            return r;
        },
        None => {},
    }
    if starts_with(l, "```") {
        proof { reveal_strlit("```"); }
        let lang = tail_of(l, 3);
        let mut s = String::from_str("\u{2500}\u{2500} ");
        if lang.len() == 0 {
            s.append("code");
        } else {
            let ls = string_from_chars(lang);
            s.append(ls.as_str());
        }
        s.append(" \u{2500}\u{2500}");
        let mut r: Vec<StyledSpan> = Vec::new();
        r.push(StyledSpan { text: s, style: InlineStyle::Dim });
        assert(spans_view(r@) =~= render_line(l@));
        return r;
    }
    parse_inline_styles(l)
}

/// The lines of a text, split as `str::lines` does.
pub fn split_text_lines(text: &[char]) -> (r: Vec<Vec<char>>)
    ensures
        r@.len() == split_lines(text@).len(),
        forall|i: int| 0 <= i < r@.len() ==> #[trigger] r@[i]@ == split_lines(text@)[i],
{
    let mut out: Vec<Vec<char>> = Vec::new();
    let mut start: usize = 0;
    let n = text.len();
    assert(text@.skip(0) =~= text@);
    assert(Seq::new(out@.len(), |i: int| out@[i]@) =~= Seq::<Seq<char>>::empty());
    while start < n
        invariant
            n == text@.len(),
            start <= n,
            ({
                let done = Seq::new(out@.len(), |i: int| out@[i]@);
                done + split_lines(text@.skip(start as int)) == split_lines(text@)
            }),
        decreases n - start,
    {
        let ghost rest = text@.skip(start as int);
        let ghost done = Seq::new(out@.len(), |i: int| out@[i]@);
        proof { lemma_find_char(rest, 0, '\n'); }
        let mut j = start;
        while j < n && text[j] != '\n'
            invariant
                start <= j <= n,
                n == text@.len(),
                rest == text@.skip(start as int),
                find_char(rest, (j - start) as int, '\n') == find_char(rest, 0, '\n'),
            decreases n - j,
        {
            j = j + 1;
        }
        let mut line: Vec<char> = Vec::new();
        let mut k = start;
        while k < j
            invariant
                start <= k <= j <= n,
                n == text@.len(),
                line@ == text@.subrange(start as int, k as int),
            decreases j - k,
        {
            line.push(text[k]);
            assert(text@.subrange(start as int, k + 1) =~= text@.subrange(start as int, k as int).push(text@[k as int]));
            k = k + 1;
        }
        if j < n {
            if line.len() > 0 && line[line.len() - 1] == '\r' {
                line.pop();
            }
            assert(rest.subrange(0, (j - start) as int) =~= text@.subrange(start as int, j as int));
            assert(rest.subrange((j - start) + 1, rest.len() as int) =~= text@.skip(j + 1));
            out.push(line);
            let ghost done2 = Seq::new(out@.len(), |i: int| out@[i]@);
            assert(done2 =~= done.push(strip_cr(text@.subrange(start as int, j as int))));
            assert(done2 + split_lines(text@.skip(j + 1)) =~= done + split_lines(rest));
            start = j + 1;
        } else {
            assert(line@ =~= rest);
            out.push(line);
            let ghost done2 = Seq::new(out@.len(), |i: int| out@[i]@);
            assert(done2 =~= done.push(rest));
            assert(text@.skip(n as int) =~= Seq::<char>::empty());
            assert(done2 + split_lines(text@.skip(n as int)) =~= done + split_lines(rest));
            start = n;
        }
    }
    assert(text@.skip(n as int) =~= Seq::<char>::empty());
    let ghost done = Seq::new(out@.len(), |i: int| out@[i]@);
    assert(done =~= split_lines(text@));
    out
}

/// Render a markdown text: one span list per line (an empty list for an empty line).
pub fn render_markdown(text: &str) -> (r: Vec<Vec<StyledSpan>>)
    ensures
        r@.len() == split_lines(text@).len(),
        forall|i: int| 0 <= i < r@.len() ==> spans_view(#[trigger] r@[i]@) == render_line(
            split_lines(text@)[i],
        ),
{
    let chars = str_chars(text);
    let lines = split_text_lines(chars.as_slice());
    let mut out: Vec<Vec<StyledSpan>> = Vec::new();
    let mut i: usize = 0;
    while i < lines.len()
        invariant
            i <= lines@.len(),
            chars@ == text@,
            lines@.len() == split_lines(text@).len(),
            forall|k: int| 0 <= k < lines@.len() ==> #[trigger] lines@[k]@ == split_lines(text@)[k],
            out@.len() == i,
            forall|k: int| 0 <= k < i ==> spans_view(#[trigger] out@[k]@) == render_line(
                split_lines(text@)[k],
            ),
        decreases lines@.len() - i,
    {
        out.push(render_line_spans(lines[i].as_slice()));
        i = i + 1;
    }
    out
}

} // verus!
