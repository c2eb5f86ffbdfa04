//! Text-to-chapter processing for documents destined for narration: detecting
//! chapter headings in plain text, slicing long text into sections, and
//! assembling whole documents. Reading files and containers stays with the
//! hosting layer, which passes the extracted text in.

use vstd::prelude::*;
use crate::strutil::{
    append_chars, chars_of, dec_chars, dec_chars_of, digits_value, is_digit, is_digit_char,
    is_space, is_space_char, is_upper, is_upper_char, join_chars, join_with, lower_seq,
    spec_split, spec_trim, split_chars, split_ws, split_ws_chars, string_from_chars, sub_vec,
    trim_chars, trim_start_count,
};
use crate::scanner::run_end_from;
use crate::strutil::lower_chars;
use crate::engine::opt_string_view;

verus! {

/// One chapter of a processed document.
#[derive(Debug, Clone)]
pub struct DocumentChapter {
    pub title: String,
    pub text: String,
    pub word_count: usize,
    pub page_start: Option<u32>,
    pub page_end: Option<u32>,
}

/// A document turned into narration-sized chapters.
#[derive(Debug, Clone)]
pub struct ProcessedDocument {
    pub title: String,
    pub author: Option<String>,
    pub chapters: Vec<DocumentChapter>,
    pub format: String,
    pub total_pages: Option<u32>,
    pub total_chapters: usize,
}

/// Why a document could not be processed.
#[derive(Debug, Clone, Copy, PartialEq, Eq, Structural)]
pub enum DocumentError {
    /// The file name has no extension to dispatch on.
    NoExtension,
    /// The extension names no supported document format.
    UnsupportedFormat,
}

/// A line with one trailing carriage return removed.
pub open spec fn strip_cr(l: Seq<char>) -> Seq<char> {
    if l.len() > 0 && l.last() == '\r' {
        l.drop_last()
    } else {
        l
    }
}

/// The lines of `text`: newline-separated, each without a trailing carriage
/// return, and with no empty final line for text that ends in a newline.
pub open spec fn spec_lines(text: Seq<char>) -> Seq<Seq<char>> {
    if text.len() == 0 {
        Seq::empty()
    } else {
        let raw = spec_split(text, '\n');
        let kept = if text.last() == '\n' {
            raw.drop_last()
        } else {
            raw
        };
        kept.map_values(|l: Seq<char>| strip_cr(l))
    }
}

/// The lines of `text`, as character vectors.
pub fn lines_of(text: &Vec<char>) -> (r: Vec<Vec<char>>)
    ensures
        r.deep_view() == spec_lines(text@),
{
    if text.len() == 0 {
        let r: Vec<Vec<char>> = Vec::new();
        proof {
            assert(r.deep_view() =~= spec_lines(text@));
        }
        return r;
    }
    let mut raw = split_chars(text, '\n');
    proof {
        crate::strutil::lemma_split_nonempty(text@, '\n');
        assert(raw.deep_view().len() == raw@.len());
    }
    if text[text.len() - 1] == '\n' {
        let ghost pre = raw.deep_view();
        let popped = raw.pop();
        proof {
            assert(raw.deep_view() =~~= pre.drop_last());
        }
    }
    let n = raw.len();
    let mut out: Vec<Vec<char>> = Vec::new();
    let mut i: usize = 0;
    while i < n
        invariant
            i <= n,
            n == raw@.len(),
            out.deep_view().len() == i,
            forall|j: int| 0 <= j < i ==> #[trigger] out.deep_view()[j] == strip_cr(
                raw.deep_view()[j],
            ),
        decreases n - i,
    {
        let l = &raw[i];
        let m = l.len();
        let stripped = if m > 0 && l[m - 1] == '\r' {
            sub_vec(l, 0, m - 1)
        } else {
            sub_vec(l, 0, m)
        };
        proof {
            crate::strutil::lemma_pieces_view(raw);
            assert(raw.deep_view()[i as int] == raw@[i as int]@);
            if m > 0 && l@[m - 1] == '\r' {
                assert(stripped@ =~= strip_cr(l@));
            } else {
                assert(stripped@ =~= strip_cr(l@));
            }
        }
        let ghost pre = out.deep_view();
        out.push(stripped);
        i = i + 1;
        proof {
            assert(out.deep_view() =~~= pre.push(strip_cr(raw.deep_view()[i - 1])));
        }
    }
    proof {
        assert(out.deep_view() =~= spec_lines(text@));
    }
    out
}

/// Whether, after an opening keyword, one or more spaces and then a digit
/// follow: the shape of "Chapter 7 ..." style headings, case-insensitively.
pub open spec fn hdr_keyword_num(line: Seq<char>, kw: Seq<char>) -> bool {
    let low = lower_seq(line);
    &&& kw.len() <= line.len()
    &&& low.subrange(0, kw.len() as int) == kw
    &&& {
        let rest = line.subrange(kw.len() as int, line.len() as int);
        let sp = trim_start_count(rest);
        sp >= 1 && sp < rest.len() && is_digit_char(rest[sp])
    }
}

/// Whether the line opens with digits, a period, spaces and a capital: the
/// shape of "12. Title" headings.
pub open spec fn hdr_numbered(line: Seq<char>) -> bool {
    let d = run_end_from(line, 0);
    &&& d >= 1
    &&& d < line.len()
    &&& line[d] == '.'
    &&& {
        let rest = line.subrange(d + 1, line.len() as int);
        let sp = trim_start_count(rest);
        sp >= 1 && sp < rest.len() && is_upper_char(rest[sp])
    }
}

/// Whether the whole line is capitals and whitespace, within the length
/// bounds: an all-caps heading.
pub open spec fn hdr_allcaps(line: Seq<char>, min: int, max: int) -> bool {
    &&& min <= line.len() <= max
    &&& forall|j: int| 0 <= j < line.len() ==> is_upper_char(#[trigger] line[j]) || is_space_char(
        line[j],
    )
}

/// Whether a trimmed line reads as a chapter heading: at most 100 characters
/// and one of the heading shapes.
pub open spec fn spec_is_chapter_header(line: Seq<char>) -> bool {
    &&& line.len() <= 100
    &&& {
        ||| hdr_keyword_num(line, "chapter"@)
        ||| hdr_keyword_num(line, "part"@)
        ||| hdr_numbered(line)
        ||| hdr_allcaps(line, 5, 50)
    }
}

/// Count the whitespace characters of `s` from `from` on.
fn count_leading_ws(s: &Vec<char>, from: usize) -> (r: usize)
    requires
        from <= s@.len(),
    ensures
        from + r <= s@.len(),
        r == trim_start_count(s@.subrange(from as int, s@.len() as int)),
{
    let n = s.len();
    let mut i: usize = from;
    while i < n && is_space(s[i])
        invariant
            from <= i <= n,
            n == s@.len(),
            trim_start_count(s@.subrange(from as int, n as int)) == (i - from)
                + trim_start_count(s@.subrange(i as int, n as int)),
        decreases n - i,
    {
        proof {
            let rest = s@.subrange(i as int, n as int);
            assert(rest[0] == s@[i as int]);
            assert(rest.drop_first() =~= s@.subrange(i as int + 1, n as int));
        }
        i = i + 1;
    }
    proof {
        let rest = s@.subrange(i as int, n as int);
        if i < n {
            assert(rest[0] == s@[i as int]);
        }
        assert(trim_start_count(rest) == 0);
    }
    i - from
}

/// Count the digit characters of `s` from `from` on.
fn count_digits(s: &Vec<char>, from: usize) -> (r: usize)
    requires
        from <= s@.len(),
    ensures
        from + r <= s@.len(),
        from + r == run_end_from(s@, from as int),
{
    let n = s.len();
    let mut i: usize = from;
    while i < n && is_digit(s[i])
        invariant
            from <= i <= n,
            n == s@.len(),
            run_end_from(s@, from as int) == run_end_from(s@, i as int),
        decreases n - i,
    {
        i = i + 1;
    }
    i - from
}

/// Whether the keyword-then-number heading shape holds, per
/// `hdr_keyword_num`.
fn check_keyword_num(line: &Vec<char>, kw: &Vec<char>) -> (r: bool)
    ensures
        r == hdr_keyword_num(line@, kw@),
{
    let kl = kw.len();
    if kl > line.len() {
        return false;
    }
    let mut j: usize = 0;
    while j < kl
        invariant
            j <= kl,
            kl == kw@.len(),
            kl <= line@.len(),
            forall|k: int| 0 <= k < j ==> lower_seq(line@)[k] == kw@[k],
        decreases kl - j,
    {
        if crate::strutil::to_lower(line[j]) != kw[j] {
            proof {
                assert(lower_seq(line@).subrange(0, kw@.len() as int) != kw@) by {
                    assert(lower_seq(line@).subrange(0, kw@.len() as int)[j as int] != kw@[
                        j as int
                    ]);
                }
            }
            return false;
        }
        j = j + 1;
    }
    proof {
        assert(lower_seq(line@).subrange(0, kw@.len() as int) =~= kw@);
    }
    let sp = count_leading_ws(line, kl);
    proof {
        assert(line@.subrange(kl as int, line@.len() as int) =~= line@.subrange(
            kl as int,
            line@.len() as int,
        ));
    }
    if sp >= 1 && kl + sp < line.len() && is_digit(line[kl + sp]) {
        proof {
            let rest = line@.subrange(kl as int, line@.len() as int);
            assert(rest[sp as int] == line@[kl + sp]);
        }
        true
    } else {
        proof {
            let rest = line@.subrange(kl as int, line@.len() as int);
            if sp >= 1 && sp < rest.len() {
                assert(rest[sp as int] == line@[kl + sp]);
            }
        }
        false
    }
}

/// Whether the numbered heading shape holds, per `hdr_numbered`.
fn check_numbered(line: &Vec<char>) -> (r: bool)
    ensures
        r == hdr_numbered(line@),
{
    let d = count_digits(line, 0);
    if d >= 1 && d < line.len() && line[d] == '.' {
        let sp = count_leading_ws(line, d + 1);
        if sp >= 1 && d + 1 + sp < line.len() && is_upper(line[d + 1 + sp]) {
            proof {
                let rest = line@.subrange(d + 1, line@.len() as int);
                assert(rest[sp as int] == line@[d + 1 + sp]);
            }
            true
        } else {
            proof {
                let rest = line@.subrange(d + 1, line@.len() as int);
                if sp >= 1 && sp < rest.len() {
                    assert(rest[sp as int] == line@[d + 1 + sp]);
                }
            }
            false
        }
    } else {
        false
    }
}

/// Whether the all-caps heading shape holds, per `hdr_allcaps`.
fn check_allcaps(line: &Vec<char>, min: usize, max: usize) -> (r: bool)
    ensures
        r == hdr_allcaps(line@, min as int, max as int),
{
    let n = line.len();
    if n < min || n > max {
        return false;
    }
    let mut i: usize = 0;
    while i < n
        invariant
            i <= n,
            n == line@.len(),
            forall|j: int| 0 <= j < i ==> is_upper_char(#[trigger] line@[j]) || is_space_char(
                line@[j],
            ),
        decreases n - i,
    {
        if !is_upper(line[i]) && !is_space(line[i]) {
            return false;
        }
        i = i + 1;
    }
    true
}

/// Whether the (already trimmed) line reads as a chapter heading.
pub fn is_chapter_header_chars(line: &Vec<char>) -> (r: bool)
    ensures
        r == spec_is_chapter_header(line@),
{
    if line.len() > 100 {
        return false;
    }
    let kw_chapter = chars_of("chapter");
    let kw_part = chars_of("part");
    check_keyword_num(line, &kw_chapter) || check_keyword_num(line, &kw_part) || check_numbered(
        line,
    ) || check_allcaps(line, 5, 50)
}

/// The chapter pairs (title, text) that plain text yields: lines accumulate
/// under the latest heading; a block of more than five kept lines becomes a
/// chapter whose text is the lines joined and trimmed.
pub open spec fn detect_rec(
    lines: Seq<Seq<char>>,
    cur_title: Seq<char>,
    cur: Seq<Seq<char>>,
    acc: Seq<(Seq<char>, Seq<char>)>,
) -> Seq<(Seq<char>, Seq<char>)>
    decreases lines.len(),
{
    if lines.len() == 0 {
        if cur.len() > 5 {
            acc.push((cur_title, spec_trim(join_with(cur, seq!['\n']))))
        } else {
            acc
        }
    } else {
        let t = spec_trim(lines[0]);
        if spec_is_chapter_header(t) {
            let acc2 = if cur.len() > 5 {
                acc.push((cur_title, spec_trim(join_with(cur, seq!['\n']))))
            } else {
                acc
            };
            detect_rec(lines.drop_first(), t, Seq::empty(), acc2)
        } else if t.len() > 0 {
            detect_rec(lines.drop_first(), cur_title, cur.push(lines[0]), acc)
        } else {
            detect_rec(lines.drop_first(), cur_title, cur, acc)
        }
    }
}

/// The chapters of plain text: heading-delimited blocks, or the whole
/// trimmed text under the fallback title when no block qualifies.
pub open spec fn spec_text_chapters(text: Seq<char>, fallback_title: Seq<char>) -> Seq<
    (Seq<char>, Seq<char>),
> {
    let cs = detect_rec(spec_lines(text), "Introduction"@, Seq::empty(), Seq::empty());
    if cs.len() == 0 {
        seq![(fallback_title, spec_trim(text))]
    } else {
        cs
    }
}

/// The chapter list matches the (title, text) pairs, with each count the
/// number of whitespace-separated words of its text and no page bounds.
pub open spec fn chapters_match_pairs(chs: Seq<DocumentChapter>, cs: Seq<(Seq<char>, Seq<char>)>) -> bool {
    &&& chs.len() == cs.len()
    &&& forall|j: int| 0 <= j < cs.len() ==> {
        &&& (#[trigger] chs[j]).title@ == cs[j].0
        &&& chs[j].text@ == cs[j].1
        &&& chs[j].word_count == split_ws(cs[j].1).len()
        &&& chs[j].page_start is None
        &&& chs[j].page_end is None
    }
}

/// The chapter list matches the (title, text, word count) triples, with no
/// page bounds.
pub open spec fn chapters_match_triples(
    chs: Seq<DocumentChapter>,
    cs: Seq<(Seq<char>, Seq<char>, int)>,
) -> bool {
    &&& chs.len() == cs.len()
    &&& forall|j: int| 0 <= j < cs.len() ==> {
        &&& (#[trigger] chs[j]).title@ == cs[j].0
        &&& chs[j].text@ == cs[j].1
        &&& chs[j].word_count == cs[j].2
        &&& chs[j].page_start is None
        &&& chs[j].page_end is None
    }
}

/// The chapter pairs of a chapter vector.
pub open spec fn chapter_pairs(chs: Seq<DocumentChapter>) -> Seq<(Seq<char>, Seq<char>)> {
    chs.map_values(|c: DocumentChapter| (c.title@, c.text@))
}

/// The section triples (title, text, word count) that long text yields:
/// two-thousand-word chunks, each titled by its ordinal.
pub open spec fn sections_rec(
    words: Seq<Seq<char>>,
    title: Seq<char>,
    idx: int,
    acc: Seq<(Seq<char>, Seq<char>, int)>,
) -> Seq<(Seq<char>, Seq<char>, int)>
    decreases words.len(),
{
    if words.len() == 0 {
        acc
    } else {
        let k: int = if words.len() < 2000 {
            words.len() as int
        } else {
            2000
        };
        let txt = join_with(words.subrange(0, k), " "@);
        let acc2 = if spec_trim(txt).len() > 0 {
            acc.push((title + " - Section "@ + dec_chars(idx), txt, k))
        } else {
            acc
        };
        sections_rec(words.skip(k), title, idx + 1, acc2)
    }
}

/// The sections of long text, or the whole text under the given title when
/// it has no words.
pub open spec fn spec_text_sections(text: Seq<char>, title: Seq<char>) -> Seq<
    (Seq<char>, Seq<char>, int),
> {
    let cs = sections_rec(split_ws(text), title, 1, Seq::empty());
    if cs.len() == 0 {
        seq![(title, text, split_ws(text).len() as int)]
    } else {
        cs
    }
}

/// Everything outside angle-bracket tags; each tag becomes one space, and an
/// unterminated tag is dropped.
pub open spec fn strip_tags_rec(s: Seq<char>, in_tag: bool, acc: Seq<char>) -> Seq<char>
    decreases s.len(),
{
    if s.len() == 0 {
        acc
    } else if in_tag {
        if s[0] == '>' {
            strip_tags_rec(s.drop_first(), false, acc)
        } else {
            strip_tags_rec(s.drop_first(), true, acc)
        }
    } else if s[0] == '<' {
        strip_tags_rec(s.drop_first(), true, acc.push(' '))
    } else {
        strip_tags_rec(s.drop_first(), false, acc.push(s[0]))
    }
}

/// Markup reduced to plain text: tags become spaces, whitespace runs collapse
/// to single spaces, and the ends are trimmed.
pub open spec fn spec_html_text(s: Seq<char>) -> Seq<char> {
    join_with(split_ws(strip_tags_rec(s, false, Seq::empty())), " "@)
}

/// The chapter pairs an epub's spine yields: each section's plain text, kept
/// when longer than 100 characters, titled by its ordinal.
pub open spec fn epub_rec(
    secs: Seq<Seq<char>>,
    count: int,
    acc: Seq<(Seq<char>, Seq<char>)>,
) -> Seq<(Seq<char>, Seq<char>)>
    decreases secs.len(),
{
    if secs.len() == 0 {
        acc
    } else {
        let txt = spec_html_text(secs[0]);
        if txt.len() > 100 {
            epub_rec(secs.drop_first(), count + 1, acc.push(("Chapter "@ + dec_chars(count + 1), txt)))
        } else {
            epub_rec(secs.drop_first(), count, acc)
        }
    }
}

/// The combined text used when no spine section is long enough on its own:
/// every non-empty section's plain text, each followed by a blank line.
pub open spec fn epub_fallback_rec(secs: Seq<Seq<char>>, acc: Seq<char>) -> Seq<char>
    decreases secs.len(),
{
    if secs.len() == 0 {
        acc
    } else {
        let txt = spec_html_text(secs[0]);
        if txt.len() > 0 {
            epub_fallback_rec(secs.drop_first(), acc + txt + seq!['\n', '\n'])
        } else {
            epub_fallback_rec(secs.drop_first(), acc)
        }
    }
}

/// The chapters of an epub spine: the long sections, or all text combined
/// under the book title when none is long enough.
pub open spec fn spec_epub_chapters(secs: Seq<Seq<char>>, book_title: Seq<char>) -> Seq<
    (Seq<char>, Seq<char>),
> {
    let cs = epub_rec(secs, 0, Seq::empty());
    if cs.len() == 0 {
        seq![(book_title, epub_fallback_rec(secs, Seq::empty()))]
    } else {
        cs
    }
}

/// Markup reduced to plain text, per `spec_html_text`.
pub fn extract_text_from_html(html: &Vec<char>) -> (r: Vec<char>)
    ensures
        r@ == spec_html_text(html@),
{
    let n = html.len();
    let mut acc: Vec<char> = Vec::new();
    let mut in_tag = false;
    let mut i: usize = 0;
    proof {
        assert(html@.subrange(0, n as int) =~= html@);
        assert(acc@ =~= Seq::<char>::empty());
    }
    while i < n
        invariant
            i <= n,
            n == html@.len(),
            strip_tags_rec(html@.subrange(i as int, n as int), in_tag, acc@) == strip_tags_rec(
                html@,
                false,
                Seq::empty(),
            ),
        decreases n - i,
    {
        let ghost pre_rest = html@.subrange(i as int, n as int);
        let c = html[i];
        if in_tag {
            if c == '>' {
                in_tag = false;
            }
        } else if c == '<' {
            in_tag = true;
            acc.push(' ');
        } else {
            acc.push(c);
        }
        i = i + 1;
        proof {
            assert(pre_rest.drop_first() =~= html@.subrange(i as int, n as int));
            assert(pre_rest[0] == html@[i - 1]);
        }
    }
    let words = split_ws_chars(&acc);
    let sp = chars_of(" ");
    join_chars(&words, &sp)
}

/// Turns documents into narration-sized chapters.
pub struct DocumentProcessor;

impl DocumentProcessor {
    pub fn new() -> (r: Self) {
        DocumentProcessor
    }

    /// Chapters of plain text, per `spec_text_chapters`: heading-delimited
    /// blocks of more than five non-empty lines, or the whole text under the
    /// fallback title.
    pub fn detect_text_chapters(&self, text: &str, title: &str) -> (r: Vec<DocumentChapter>)
        ensures
            chapters_match_pairs(r@, spec_text_chapters(text@, title@)),
    {
        let cs = chars_of(text);
        let lines = lines_of(&cs);
        let n = lines.len();
        let nl = chars_of("\n");
        let mut out: Vec<DocumentChapter> = Vec::new();
        let mut cur: Vec<Vec<char>> = Vec::new();
        let mut cur_title: Vec<char> = chars_of("Introduction");
        let mut i: usize = 0;
        proof {
            crate::strutil::lemma_pieces_view(lines);
            assert(lines.deep_view().skip(0) =~= lines.deep_view());
            assert(cur.deep_view() =~= Seq::<Seq<char>>::empty());
            assert(chapter_pairs(out@) =~= Seq::<(Seq<char>, Seq<char>)>::empty());
            reveal_strlit("\n");
        }
        while i < n
            invariant
                i <= n,
                n == lines@.len(),
                lines.deep_view().len() == n,
                nl@ == seq!['\n'],
                forall|j: int| 0 <= j < n ==> #[trigger] lines.deep_view()[j] == lines@[j]@,
                detect_rec(
                    lines.deep_view().skip(i as int),
                    cur_title@,
                    cur.deep_view(),
                    chapter_pairs(out@),
                ) == detect_rec(
                    lines.deep_view(),
                    "Introduction"@,
                    Seq::empty(),
                    Seq::empty(),
                ),
                chapters_match_pairs(out@, chapter_pairs(out@)),
            decreases n - i,
        {
            let ghost pre_rest = lines.deep_view().skip(i as int);
            let ghost pre_pairs = chapter_pairs(out@);
            let ghost pre_cur = cur.deep_view();
            let t = trim_chars(&lines[i]);
            proof {
                assert(pre_rest[0] == lines.deep_view()[i as int]);
            }
            if is_chapter_header_chars(&t) {
                if cur.len() > 5 {
                    let joined = join_chars(&cur, &nl);
                    let body = trim_chars(&joined);
                    let wc = split_ws_chars(&body).len();
                    let ghost pre_out = out@;
                    out.push(DocumentChapter {
                        title: string_from_chars(&cur_title),
                        text: string_from_chars(&body),
                        word_count: wc,
                        page_start: None,
                        page_end: None,
                    });
                    proof {
                        assert(chapter_pairs(out@) =~= pre_pairs.push(
                            (cur_title@, spec_trim(join_with(pre_cur, seq!['\n']))),
                        ));
                    }
                }
                cur_title = t;
                cur = Vec::new();
                proof {
                    assert(cur.deep_view() =~= Seq::<Seq<char>>::empty());
                }
            } else if t.len() > 0 {
                let line_copy = sub_vec(&lines[i], 0, lines[i].len());
                proof {
                    assert(line_copy@ =~= lines@[i as int]@);
                }
                let ghost pc = cur.deep_view();
                cur.push(line_copy);
                proof {
                    assert(cur.deep_view() =~~= pc.push(lines.deep_view()[i as int]));
                }
            }
            i = i + 1;
            proof {
                assert(pre_rest.drop_first() =~= lines.deep_view().skip(i as int));
            }
        }
        proof {
            assert(lines.deep_view().skip(n as int) =~= Seq::<Seq<char>>::empty());
        }
        if cur.len() > 5 {
            let joined = join_chars(&cur, &nl);
            let body = trim_chars(&joined);
            let wc = split_ws_chars(&body).len();
            let ghost pre_pairs = chapter_pairs(out@);
            let ghost pre_cur = cur.deep_view();
            out.push(DocumentChapter {
                title: string_from_chars(&cur_title),
                text: string_from_chars(&body),
                word_count: wc,
                page_start: None,
                page_end: None,
            });
            proof {
                assert(chapter_pairs(out@) =~= pre_pairs.push(
                    (cur_title@, spec_trim(join_with(pre_cur, seq!['\n']))),
                ));
            }
        }
        if out.len() == 0 {
            let body = trim_chars(&cs);
            let wc = split_ws_chars(&body).len();
            out.push(DocumentChapter {
                title: title.to_owned(),
                text: string_from_chars(&body),
                word_count: wc,
                page_start: None,
                page_end: None,
            });
            proof {
                assert(chapter_pairs(out@) =~= seq![(title@, spec_trim(text@))]);
            }
        }
        out
    }

    /// Sections of long text, per `spec_text_sections`: two-thousand-word
    /// chunks, each titled "<title> - Section <n>"; the whole text under the
    /// given title when it has no words.
    pub fn split_text_by_sections(&self, text: &str, title: &str) -> (r: Vec<DocumentChapter>)
        ensures
            chapters_match_triples(r@, spec_text_sections(text@, title@)),
    {
        let cs = chars_of(text);
        let words = split_ws_chars(&cs);
        let n = words.len();
        let sp = chars_of(" ");
        let title_chars = chars_of(title);
        let section_label = chars_of(" - Section ");
        let mut out: Vec<DocumentChapter> = Vec::new();
        let mut from: usize = 0;
        proof {
            crate::strutil::lemma_pieces_view(words);
            assert(words.deep_view().skip(0) =~= words.deep_view());
            assert(section_triples(out@) =~= Seq::<(Seq<char>, Seq<char>, int)>::empty());
            reveal_strlit(" - Section ");
        }
        while from < n
            invariant
                from <= n,
                n == words@.len(),
                words.deep_view().len() == n,
                sp@ == " "@,
                title_chars@ == title@,
                section_label@ == " - Section "@,
                sections_rec(
                    words.deep_view().skip(from as int),
                    title@,
                    from / 2000 + 1,
                    section_triples(out@),
                ) == sections_rec(words.deep_view(), title@, 1, Seq::empty()),
                chapters_match_triples(out@, section_triples(out@)),
            decreases n - from,
        {
            let ghost pre_rest = words.deep_view().skip(from as int);
            let ghost pre_triples = section_triples(out@);
            let idx: usize = from / 2000 + 1;
            let k: usize = if n - from < 2000 {
                n - from
            } else {
                2000
            };
            let mut chunk: Vec<Vec<char>> = Vec::new();
            let mut j: usize = 0;
            proof {
                assert(chunk.deep_view() =~= pre_rest.subrange(0, 0));
            }
            while j < k
                invariant
                    j <= k,
                    from + k <= n,
                    n == words@.len(),
                    words.deep_view().len() == n,
                    forall|q: int| 0 <= q < n ==> #[trigger] words.deep_view()[q] == words@[q]@,
                    chunk.deep_view() =~= words.deep_view().skip(from as int).subrange(0, j as int),
                decreases k - j,
            {
                let w = sub_vec(&words[from + j], 0, words[from + j].len());
                let ghost pc = chunk.deep_view();
                chunk.push(w);
                j = j + 1;
                proof {
                    assert(chunk.deep_view() =~~= pc.push(words.deep_view()[from + j - 1]));
                    assert(chunk.deep_view() =~= words.deep_view().skip(from as int).subrange(
                        0,
                        j as int,
                    ));
                }
            }
            let txt = join_chars(&chunk, &sp);
            let trimmed = trim_chars(&txt);
            if trimmed.len() > 0 {
                let mut t = sub_vec(&title_chars, 0, title_chars.len());
                append_chars(&mut t, &section_label);
                let num = dec_chars_of(idx as u64);
                append_chars(&mut t, &num);
                let ghost pre_out = out@;
                out.push(DocumentChapter {
                    title: string_from_chars(&t),
                    text: string_from_chars(&txt),
                    word_count: k,
                    page_start: None,
                    page_end: None,
                });
                proof {
                    assert(out@.len() == pre_out.len() + 1);
                    assert(out@[out@.len() - 1].title@ == title@ + " - Section "@ + dec_chars(
                        idx as int,
                    ));
                    assert(out@[out@.len() - 1].text@ == join_with(
                        pre_rest.subrange(0, k as int),
                        " "@,
                    ));
                    assert(section_triples(out@) =~= pre_triples.push(
                        (
                            title@ + " - Section "@ + dec_chars(idx as int),
                            join_with(pre_rest.subrange(0, k as int), " "@),
                            k as int,
                        ),
                    ));
                }
            }
            let ghost old_from = from;
            from = from + k;
            proof {
                assert(pre_rest.skip(k as int) =~= words.deep_view().skip(from as int));
                let kk: int = if pre_rest.len() < 2000 {
                    pre_rest.len() as int
                } else {
                    2000
                };
                assert(kk == k as int);
                let txts = join_with(pre_rest.subrange(0, kk), " "@);
                assert(txts == txt@);
                let acc2 = if spec_trim(txts).len() > 0 {
                    pre_triples.push(
                        (title@ + " - Section "@ + dec_chars(idx as int), txts, kk),
                    )
                } else {
                    pre_triples
                };
                assert(sections_rec(pre_rest, title@, idx as int, pre_triples) == sections_rec(
                    pre_rest.skip(kk),
                    title@,
                    idx as int + 1,
                    acc2,
                ));
                assert(section_triples(out@) == acc2);
                if k == 2000 {
                    assert(from / 2000 + 1 == idx + 1);
                } else {
                    assert(from == n);
                    assert(words.deep_view().skip(n as int) =~= Seq::<Seq<char>>::empty());
                }
            }
        }
        proof {
            assert(words.deep_view().skip(n as int) =~= Seq::<Seq<char>>::empty());
        }
        if out.len() == 0 {
            let wc = words.len();
            out.push(DocumentChapter {
                title: title.to_owned(),
                text: text.to_owned(),
                word_count: wc,
                page_start: None,
                page_end: None,
            });
            proof {
                assert(section_triples(out@) =~= seq![
                    (title@, text@, split_ws(text@).len() as int),
                ]);
            }
        }
        out
    }
}

/// The section triples of a chapter vector.
pub open spec fn section_triples(chs: Seq<DocumentChapter>) -> Seq<(Seq<char>, Seq<char>, int)> {
    chs.map_values(|c: DocumentChapter| (c.title@, c.text@, c.word_count as int))
}


/// The file stem: the last path component without its extension.
pub open spec fn spec_stem_of(path: Seq<char>) -> Seq<char> {
    let name = crate::strutil::after_last(path, '/');
    match crate::scanner::spec_extension_of(path) {
        None => name,
        Some(e) => name.subrange(0, name.len() - e.len() - 1),
    }
}

impl DocumentProcessor {
    /// Process one document: dispatch on the (lowercased) file extension.
    /// The caller reads the file and passes the extracted text in: one
    /// section holding the whole text for "pdf", "txt" and "text"; one
    /// section per spine entry, still marked up, for "epub", along with the
    /// container's title and author when it names them. PDFs and long plain
    /// text become fixed-size sections; structured text becomes
    /// heading-delimited chapters; epub spine entries become one chapter
    /// each.
    pub fn process_document(
        &self,
        file_path: &str,
        title_hint: Option<String>,
        author_hint: Option<String>,
        sections: Vec<String>,
    ) -> (r: Result<ProcessedDocument, DocumentError>)
        ensures
            match r {
                Err(e) => {
                    &&& (e == DocumentError::NoExtension) <==> crate::scanner::spec_extension_of(
                        file_path@,
                    ) is None
                    &&& (e == DocumentError::UnsupportedFormat
                        ==> (crate::scanner::spec_extension_of(file_path@) matches Some(e0)
                        && !{
                        let x = lower_seq(e0);
                        x == "pdf"@ || x == "txt"@ || x == "text"@ || x == "epub"@
                    }))
                },
                Ok(doc) => crate::scanner::spec_extension_of(file_path@) matches Some(e0) && {
                    let e = lower_seq(e0);
                    let stem = spec_stem_of(file_path@);
                    let joined = join_with(sections.deep_view(), seq!['\n', '\n']);
                    let book_title = match title_hint {
                        Some(t) => t@,
                        None => stem,
                    };
                    &&& doc.total_pages is None
                    &&& doc.total_chapters == doc.chapters@.len()
                    &&& (e == "pdf"@ || e == "txt"@ || e == "text"@ || e == "epub"@)
                    &&& (e == "pdf"@ ==> doc.format@ == "pdf"@ && doc.title@ == stem
                        && doc.author is None && chapters_match_triples(
                        doc.chapters@,
                        spec_text_sections(joined, stem),
                    ))
                    &&& ((e == "txt"@ || e == "text"@) ==> doc.format@ == "txt"@ && doc.title@
                        == stem && doc.author is None && chapters_match_pairs(
                        doc.chapters@,
                        spec_text_chapters(joined, stem),
                    ))
                    &&& (e == "epub"@ ==> doc.format@ == "epub"@ && doc.title@ == book_title
                        && opt_string_view(doc.author) == opt_string_view(author_hint)
                        && chapters_match_pairs(
                        doc.chapters@,
                        spec_epub_chapters(sections.deep_view(), book_title),
                    ))
                },
            },
    {
        let cs = chars_of(file_path);
        let name_start = crate::strutil::after_last_pos(&cs, '/');
        let name = sub_vec(&cs, name_start, cs.len());
        let dot = crate::strutil::after_last_pos(&name, '.');
        if dot <= 1 {
            proof {
                assert(crate::scanner::spec_extension_of(file_path@) is None);
            }
            return Err(DocumentError::NoExtension);
        }
        let ext = sub_vec(&name, dot, name.len());
        let low = lower_chars(&ext);
        let stem = sub_vec(&name, 0, dot - 1);
        proof {
            assert(crate::strutil::after_last(name@, '.') == ext@);
            assert(crate::scanner::spec_extension_of(file_path@) == Some(ext@));
            assert(spec_stem_of(file_path@) == stem@);
            reveal_strlit("pdf");
            reveal_strlit("txt");
            reveal_strlit("text");
            reveal_strlit("epub");
        }
        if chars_eq_str(&low, "pdf") {
            proof {
                assert("pdf"@.len() == 3);
                assert("pdf"@[0] == 'p');
                assert("pdf"@ != "txt"@);
                assert("pdf"@ != "text"@);
                assert("pdf"@ != "epub"@);
            }
            let joined = join_sections(&sections);
            let text = string_from_chars(&joined);
            let stem_string = string_from_chars(&stem);
            let chapters = self.split_text_by_sections(text.as_str(), stem_string.as_str());
            let tc = chapters.len();
            proof {
                reveal_strlit("\n\n");
            }
            return Ok(ProcessedDocument {
                title: stem_string,
                author: None,
                chapters,
                format: "pdf".to_owned(),
                total_pages: None,
                total_chapters: tc,
            });
        } else if chars_eq_str(&low, "txt") || chars_eq_str(&low, "text") {
            proof {
                assert("txt"@.len() == 3 && "text"@.len() == 4 && "pdf"@.len() == 3 && "epub"@.len()
                    == 4);
                assert("txt"@[0] == 't' && "pdf"@[0] == 'p' && "text"@[0] == 't' && "epub"@[0]
                    == 'e');
                assert("txt"@ != "pdf"@ && "txt"@ != "epub"@);
                assert("text"@ != "pdf"@ && "text"@ != "epub"@);
            }
            let joined = join_sections(&sections);
            let text = string_from_chars(&joined);
            let stem_string = string_from_chars(&stem);
            let chapters = self.detect_text_chapters(text.as_str(), stem_string.as_str());
            let tc = chapters.len();
            proof {
                reveal_strlit("\n\n");
                assert(text@ == join_with(sections.deep_view(), seq!['\n', '\n']));
                assert(stem_string@ == spec_stem_of(file_path@));
                assert(chapters_match_pairs(
                    chapters@,
                    spec_text_chapters(
                        join_with(sections.deep_view(), seq!['\n', '\n']),
                        spec_stem_of(file_path@),
                    ),
                ));
            }
            return Ok(ProcessedDocument {
                title: stem_string,
                author: None,
                chapters,
                format: "txt".to_owned(),
                total_pages: None,
                total_chapters: tc,
            });
        } else if chars_eq_str(&low, "epub") {
            proof {
                assert("txt"@.len() == 3 && "text"@.len() == 4 && "pdf"@.len() == 3 && "epub"@.len()
                    == 4);
                assert("text"@[0] == 't' && "epub"@[0] == 'e');
                assert("epub"@ != "pdf"@ && "epub"@ != "txt"@ && "epub"@ != "text"@);
            }
            let book_title: String = match title_hint {
                Some(t) => t,
                None => string_from_chars(&stem),
            };
            let chapters = epub_chapters(&sections, &book_title);
            let tc = chapters.len();
            return Ok(ProcessedDocument {
                title: book_title,
                author: author_hint,
                chapters,
                format: "epub".to_owned(),
                total_pages: None,
                total_chapters: tc,
            });
        } else {
            return Err(DocumentError::UnsupportedFormat);
        }
    }
}

/// Whether the character vector reads the same as the literal.
fn chars_eq_str(v: &Vec<char>, s: &str) -> (r: bool)
    ensures
        r == (v@ == s@),
{
    crate::strutil::chars_eq(v, &chars_of(s))
}

/// The sections joined with blank lines between them.
fn join_sections(sections: &Vec<String>) -> (r: Vec<char>)
    ensures
        r@ == join_with(sections.deep_view(), seq!['\n', '\n']),
{
    let n = sections.len();
    let mut sec_chars: Vec<Vec<char>> = Vec::new();
    let mut i: usize = 0;
    while i < n
        invariant
            i <= n,
            n == sections@.len(),
            sec_chars.deep_view().len() == i,
            forall|j: int| 0 <= j < i ==> #[trigger] sec_chars.deep_view()[j]
                == sections.deep_view()[j],
        decreases n - i,
    {
        let ghost pre = sec_chars.deep_view();
        sec_chars.push(chars_of(sections[i].as_str()));
        i = i + 1;
        proof {
            assert(sec_chars.deep_view() =~~= pre.push(sections.deep_view()[i - 1]));
        }
    }
    let sep = chars_of("\n\n");
    proof {
        reveal_strlit("\n\n");
        assert(sec_chars.deep_view() =~= sections.deep_view());
        assert(sep@ =~= seq!['\n', '\n']);
    }
    join_chars(&sec_chars, &sep)
}

/// The chapters of an epub spine, per `spec_epub_chapters`.
fn epub_chapters(sections: &Vec<String>, book_title: &String) -> (r: Vec<DocumentChapter>)
    ensures
        chapters_match_pairs(r@, spec_epub_chapters(sections.deep_view(), book_title@)),
{
    let n = sections.len();
    let head = chars_of("Chapter ");
    let mut out: Vec<DocumentChapter> = Vec::new();
    let mut count: usize = 0;
    let mut i: usize = 0;
    proof {
        assert(sections.deep_view().skip(0) =~= sections.deep_view());
        assert(chapter_pairs(out@) =~= Seq::<(Seq<char>, Seq<char>)>::empty());
        reveal_strlit("Chapter ");
    }
    while i < n
        invariant
            i <= n,
            n == sections@.len(),
            sections.deep_view().len() == n,
            count <= i,
            head@ == "Chapter "@,
            epub_rec(sections.deep_view().skip(i as int), count as int, chapter_pairs(out@))
                == epub_rec(sections.deep_view(), 0, Seq::empty()),
            chapters_match_pairs(out@, chapter_pairs(out@)),
        decreases n - i,
    {
        let ghost pre_rest = sections.deep_view().skip(i as int);
        let ghost pre_pairs = chapter_pairs(out@);
        let sc = chars_of(sections[i].as_str());
        let txt = extract_text_from_html(&sc);
        proof {
            assert(pre_rest[0] == sections.deep_view()[i as int]);
            assert(sc@ == sections.deep_view()[i as int]);
        }
        if txt.len() > 100 {
            count = count + 1;
            let mut t = sub_vec(&head, 0, head.len());
            let num = dec_chars_of(count as u64);
            append_chars(&mut t, &num);
            let wc = split_ws_chars(&txt).len();
            out.push(DocumentChapter {
                title: string_from_chars(&t),
                text: string_from_chars(&txt),
                word_count: wc,
                page_start: None,
                page_end: None,
            });
            proof {
                assert(out@.last().title@ == "Chapter "@ + dec_chars(count as int));
                assert(out@.last().text@ == spec_html_text(pre_rest[0]));
                assert(chapter_pairs(out@) =~= pre_pairs.push(
                    ("Chapter "@ + dec_chars(count as int), spec_html_text(pre_rest[0])),
                ));
            }
        }
        i = i + 1;
        proof {
            assert(pre_rest.drop_first() =~= sections.deep_view().skip(i as int));
        }
    }
    proof {
        assert(sections.deep_view().skip(n as int) =~= Seq::<Seq<char>>::empty());
    }
    if out.len() == 0 {
        let mut full: Vec<char> = Vec::new();
        let blank = chars_of("\n\n");
        let mut i2: usize = 0;
        proof {
            assert(sections.deep_view().skip(0) =~= sections.deep_view());
            assert(full@ =~= Seq::<char>::empty());
            reveal_strlit("\n\n");
        }
        while i2 < n
            invariant
                i2 <= n,
                n == sections@.len(),
                sections.deep_view().len() == n,
                blank@ == seq!['\n', '\n'],
                epub_fallback_rec(sections.deep_view().skip(i2 as int), full@)
                    == epub_fallback_rec(sections.deep_view(), Seq::empty()),
            decreases n - i2,
        {
            let ghost pre_rest = sections.deep_view().skip(i2 as int);
            let sc = chars_of(sections[i2].as_str());
            let txt = extract_text_from_html(&sc);
            proof {
                assert(pre_rest[0] == sections.deep_view()[i2 as int]);
                assert(sc@ == sections.deep_view()[i2 as int]);
            }
            if txt.len() > 0 {
                append_chars(&mut full, &txt);
                append_chars(&mut full, &blank);
            }
            i2 = i2 + 1;
            proof {
                assert(pre_rest.drop_first() =~= sections.deep_view().skip(i2 as int));
            }
        }
        proof {
            assert(sections.deep_view().skip(n as int) =~= Seq::<Seq<char>>::empty());
        }
        let wc = split_ws_chars(&full).len();
        let ghost pre_pairs = chapter_pairs(out@);
        out.push(DocumentChapter {
            title: book_title.clone(),
            text: string_from_chars(&full),
            word_count: wc,
            page_start: None,
            page_end: None,
        });
        proof {
            assert(chapter_pairs(out@) =~= seq![
                (book_title@, epub_fallback_rec(sections.deep_view(), Seq::empty())),
            ]);
        }
    }
    out
}

} // verus!
