//! The library scanner's pure logic: which files count as audio, and how
//! chapter titles are derived from filenames. Walking directories and probing
//! files stays with the hosting layer, which feeds paths and names in here.

use vstd::prelude::*;
use crate::strutil::{
    after_last, after_last_pos, append_chars, before_last, chars_eq, chars_of, contains_sub,
    dec_chars, dec_chars_of, digit_char_of, digits_value, find_sub, is_digit, is_digit_char,
    is_first_match, join_chars, join_with, lemma_first_match_unique, lower_chars, lower_seq,
    split_ws, split_ws_chars, string_from_chars, sub_vec, to_lower, to_upper, upper_char,
};

verus! {

/// The file extension as the scanner reads a path string: the part after the
/// last '.' of the last '/'-separated component; none when that component has
/// no '.' or only a leading one.
pub open spec fn spec_extension_of(path: Seq<char>) -> Option<Seq<char>> {
    let name = after_last(path, '/');
    let ext = after_last(name, '.');
    if ext.len() == name.len() {
        None
    } else if name.len() - ext.len() == 1 {
        None
    } else {
        Some(ext)
    }
}

/// The extension of `cs`, per `spec_extension_of`.
fn extension_chars(cs: &Vec<char>) -> (r: Option<Vec<char>>)
    ensures
        match r {
            Some(e) => spec_extension_of(cs@) == Some(e@),
            None => spec_extension_of(cs@) is None,
        },
{
    let name_start = after_last_pos(cs, '/');
    let name = sub_vec(cs, name_start, cs.len());
    let dot = after_last_pos(&name, '.');
    if dot <= 1 {
        None
    } else {
        Some(sub_vec(&name, dot, name.len()))
    }
}

/// Scans directories for playable audio; this verified part holds the
/// extension list and the naming rules.
pub struct FileSystemScanner {
    supported_extensions: Vec<String>,
}

impl FileSystemScanner {
    /// The recognized extensions, lowercased.
    pub closed spec fn spec_extensions(&self) -> Seq<Seq<char>> {
        self.supported_extensions.deep_view()
    }

    /// A scanner recognizing the common audio container extensions.
    pub fn new() -> (r: Self)
        ensures
            r.spec_extensions() == seq![
                "mp3"@,
                "m4a"@,
                "m4b"@,
                "aac"@,
                "flac"@,
                "wav"@,
                "ogg"@,
                "opus"@,
                "wma"@,
            ],
    {
        let mut v: Vec<String> = Vec::new();
        v.push("mp3".to_owned());
        v.push("m4a".to_owned());
        v.push("m4b".to_owned());
        v.push("aac".to_owned());
        v.push("flac".to_owned());
        v.push("wav".to_owned());
        v.push("ogg".to_owned());
        v.push("opus".to_owned());
        v.push("wma".to_owned());
        let r = FileSystemScanner { supported_extensions: v };
        proof {
            assert(r.spec_extensions() =~~= seq![
                "mp3"@,
                "m4a"@,
                "m4b"@,
                "aac"@,
                "flac"@,
                "wav"@,
                "ogg"@,
                "opus"@,
                "wma"@,
            ]);
        }
        r
    }

    /// Whether the path names a supported audio file: it has an extension and
    /// its lowercased form is on the list.
    pub fn is_supported_audio_file(&self, path: &str) -> (r: bool)
        ensures
            r == (spec_extension_of(path@) matches Some(e) && self.spec_extensions().contains(
                lower_seq(e),
            )),
    {
        let cs = chars_of(path);
        let ext = match extension_chars(&cs) {
            Some(e) => e,
            None => {
                return false;
            },
        };
        let low = lower_chars(&ext);
        let n = self.supported_extensions.len();
        let mut i: usize = 0;
        while i < n
            invariant
                i <= n,
                n == self.spec_extensions().len(),
                spec_extension_of(path@) == Some(ext@),
                low@ == lower_seq(ext@),
                forall|j: int| 0 <= j < i ==> self.spec_extensions()[j] != low@,
            decreases n - i,
        {
            proof {
                assert(self.spec_extensions()[i as int]
                    == self.supported_extensions@[i as int].deep_view());
            }
            if chars_eq(&low, &chars_of(self.supported_extensions[i].as_str())) {
                proof {
                    assert(spec_extension_of(path@) == Some(ext@));
                    assert(low@ == lower_seq(ext@));
                    assert(self.spec_extensions()[i as int] == low@);
                    assert(self.spec_extensions().contains(lower_seq(ext@)));
                }
                return true;
            }
            i = i + 1;
        }
        false
    }

    /// Derive a display title for one chapter file; see
    /// `spec_chapter_title_of` for the exact rule.
    pub fn extract_chapter_title_from_filename(&self, filename: &str, chapter_number: i32) -> (r:
        String)
        ensures
            r@ == spec_chapter_title_of(filename@, chapter_number as int),
    {
        let cs = chars_of(filename);
        let dot = after_last_pos(&cs, '.');
        let base = if dot == 0 {
            sub_vec(&cs, 0, cs.len())
        } else {
            sub_vec(&cs, 0, dot - 1)
        };
        proof {
            assert(base@ == before_last(cs@, '.'));
        }
        let low = lower_chars(&base);
        let chap = chars_of("chapter");
        let mut digits: Option<Vec<char>> = None;
        if let Some(p) = find_sub(&low, &chap) {
            proof {
                reveal_strlit("chapter");
                let ghost pc = choose|q: int| is_first_match(lower_seq(base@), "chapter"@, q);
                assert(is_first_match(lower_seq(base@), "chapter"@, p as int));
                lemma_first_match_unique(lower_seq(base@), "chapter"@, pc, p as int);
            }
            let after = sub_vec(&base, p + 7, base.len());
            if let Some((i, e)) = first_digit_run(&after) {
                digits = Some(sub_vec(&after, i, e));
            }
        }
        let head = chars_of("Chapter ");
        let mut out = head;
        match digits {
            Some(d) => {
                append_chars(&mut out, &d);
            },
            None => {
                match matching_digit_run(&base, chapter_number) {
                    Some((i, e)) => {
                        let d = sub_vec(&base, i, e);
                        append_chars(&mut out, &d);
                    },
                    None => {
                        let pad = padded_number(chapter_number);
                        append_chars(&mut out, &pad);
                    },
                }
            },
        }
        string_from_chars(&out)
    }

    /// Tidy a chapter title: underscores become spaces, whitespace runs
    /// collapse to one space, and every word is capitalized.
    pub fn clean_chapter_title(&self, title: &str) -> (r: String)
        ensures
            r@ == spec_clean_title(title@),
    {
        let cs = chars_of(title);
        let n = cs.len();
        let mut repl: Vec<char> = Vec::new();
        let mut i: usize = 0;
        while i < n
            invariant
                i <= n,
                n == cs@.len(),
                repl@.len() == i,
                forall|j: int| 0 <= j < i ==> repl@[j] == underscore_to_space(cs@[j]),
            decreases n - i,
        {
            if cs[i] == '_' {
                repl.push(' ');
            } else {
                repl.push(cs[i]);
            }
            i = i + 1;
        }
        proof {
            assert(repl@ =~= Seq::new(cs@.len(), |j: int| underscore_to_space(cs@[j])));
        }
        let words = split_ws_chars(&repl);
        let m = words.len();
        let mut caps: Vec<Vec<char>> = Vec::new();
        let mut k: usize = 0;
        proof {
            crate::strutil::lemma_pieces_view(words);
        }
        while k < m
            invariant
                k <= m,
                m == words@.len(),
                words.deep_view().len() == m,
                forall|j: int| 0 <= j < m ==> #[trigger] words.deep_view()[j] == words@[j]@,
                caps.deep_view().len() == k,
                forall|j: int| 0 <= j < k ==> #[trigger] caps.deep_view()[j] == spec_capitalize(
                    words.deep_view()[j],
                ),
            decreases m - k,
        {
            let w = &words[k];
            let mut cap: Vec<char> = Vec::new();
            if w.len() > 0 {
                cap.push(to_upper(w[0]));
                let rest = sub_vec(w, 1, w.len());
                let lowered = lower_chars(&rest);
                append_chars(&mut cap, &lowered);
                proof {
                    assert(cap@ =~= spec_capitalize(w@));
                }
            } else {
                proof {
                    assert(cap@ =~= spec_capitalize(w@));
                }
            }
            let ghost pre = caps.deep_view();
            caps.push(cap);
            k = k + 1;
            proof {
                assert(caps.deep_view() =~~= pre.push(spec_capitalize(words.deep_view()[k - 1])));
            }
        }
        let sep = chars_of(" ");
        let joined = join_chars(&caps, &sep);
        proof {
            assert(caps.deep_view() =~= split_ws(repl@).map_values(
                |w: Seq<char>| spec_capitalize(w),
            ));
        }
        string_from_chars(&joined)
    }
}

/// Underscores become spaces; everything else stands.
pub open spec fn underscore_to_space(c: char) -> char {
    if c == '_' {
        ' '
    } else {
        c
    }
}

/// A word with its first character uppercased and the rest lowercased.
pub open spec fn spec_capitalize(w: Seq<char>) -> Seq<char> {
    if w.len() == 0 {
        w
    } else {
        seq![upper_char(w[0])] + lower_seq(w.drop_first())
    }
}

/// The tidied chapter title: underscores to spaces, words re-joined by single
/// spaces, each word capitalized.
pub open spec fn spec_clean_title(t: Seq<char>) -> Seq<char> {
    let repl = Seq::new(t.len(), |i: int| underscore_to_space(t[i]));
    join_with(split_ws(repl).map_values(|w: Seq<char>| spec_capitalize(w)), " "@)
}

/// The first position at or after `from` holding a digit, if any.
pub open spec fn first_digit_from(s: Seq<char>, from: int) -> Option<int>
    decreases s.len() - from when 0 <= from <= s.len()
{
    if from >= s.len() {
        None
    } else if is_digit_char(s[from]) {
        Some(from)
    } else {
        first_digit_from(s, from + 1)
    }
}

/// The end of the digit run starting at `from`: the first position at or
/// after it that is not a digit.
pub open spec fn run_end_from(s: Seq<char>, from: int) -> int
    decreases s.len() - from when 0 <= from <= s.len()
{
    if from >= s.len() {
        s.len() as int
    } else if !is_digit_char(s[from]) {
        from
    } else {
        run_end_from(s, from + 1)
    }
}

/// The first maximal digit run of `s`, as its bounds.
pub open spec fn spec_first_digit_run(s: Seq<char>) -> Option<(int, int)> {
    match first_digit_from(s, 0) {
        Some(i) => Some((i, run_end_from(s, i))),
        None => None,
    }
}

/// The first digit run, from `from` on, that stands for a chapter number:
/// two or more digits, or a single digit equal to `n`.
pub open spec fn spec_matching_run_from(s: Seq<char>, from: int, n: int) -> Option<(int, int)>
    decreases s.len() - from when 0 <= from <= s.len()
{
    if from >= s.len() {
        None
    } else if !is_digit_char(s[from]) {
        spec_matching_run_from(s, from + 1, n)
    } else {
        let e = run_end_from(s, from);
        if e - from >= 2 || digits_value(s.subrange(from, e)) == n {
            Some((from, e))
        } else {
            spec_matching_run_from(s, from + 1, n)
        }
    }
}

/// The filename-derived chapter title: the digits after the word "chapter"
/// when both appear (case-insensitively, with the extension cut off); else
/// the first number of two or more digits, or a single digit equal to the
/// chapter number; else the chapter number itself, zero-padded to two digits.
pub open spec fn spec_chapter_title_of(filename: Seq<char>, n: int) -> Seq<char> {
    let base = before_last(filename, '.');
    let low = lower_seq(base);
    let from_chapter = if contains_sub(low, "chapter"@) {
        let p = choose|q: int| is_first_match(low, "chapter"@, q);
        let after = base.subrange(p + 7, base.len() as int);
        match spec_first_digit_run(after) {
            Some(run) => Some(after.subrange(run.0, run.1)),
            None => None,
        }
    } else {
        None
    };
    match from_chapter {
        Some(d) => "Chapter "@ + d,
        None => match spec_matching_run_from(base, 0, n) {
            Some(run) => "Chapter "@ + base.subrange(run.0, run.1),
            None => "Chapter "@ + spec_padded(n),
        },
    }
}

/// A number rendered with at least two characters: single digits get a
/// leading zero; negative numbers keep their sign.
pub open spec fn spec_padded(n: int) -> Seq<char> {
    if 0 <= n < 10 {
        seq!['0', digit_char_of(n)]
    } else if n >= 10 {
        dec_chars(n)
    } else {
        seq!['-'] + dec_chars(-n)
    }
}

/// The bounds of the first maximal digit run of `s`.
fn first_digit_run(s: &Vec<char>) -> (r: Option<(usize, usize)>)
    ensures
        match r {
            Some((i, e)) => i <= e <= s@.len() && spec_first_digit_run(s@) == Some(
                (i as int, e as int),
            ),
            None => spec_first_digit_run(s@) is None,
        },
{
    let n = s.len();
    let mut i: usize = 0;
    while i < n && !is_digit(s[i])
        invariant
            i <= n,
            n == s@.len(),
            first_digit_from(s@, 0) == first_digit_from(s@, i as int),
        decreases n - i,
    {
        i = i + 1;
    }
    if i == n {
        return None;
    }
    let start = i;
    let mut e: usize = i;
    while e < n && is_digit(s[e])
        invariant
            start <= e <= n,
            n == s@.len(),
            run_end_from(s@, start as int) == run_end_from(s@, e as int),
        decreases n - e,
    {
        e = e + 1;
    }
    Some((start, e))
}

/// The bounds of the first digit run that stands for chapter `n`, per
/// `spec_matching_run_from` at position 0.
fn matching_digit_run(s: &Vec<char>, n: i32) -> (r: Option<(usize, usize)>)
    ensures
        match r {
            Some((i, e)) => i <= e <= s@.len() && spec_matching_run_from(s@, 0, n as int) == Some(
                (i as int, e as int),
            ),
            None => spec_matching_run_from(s@, 0, n as int) is None,
        },
{
    let len = s.len();
    let mut from: usize = 0;
    while from < len
        invariant
            from <= len,
            len == s@.len(),
            spec_matching_run_from(s@, 0, n as int) == spec_matching_run_from(
                s@,
                from as int,
                n as int,
            ),
        decreases len - from,
    {
        if !is_digit(s[from]) {
            from = from + 1;
        } else {
            let start = from;
            let mut e: usize = from;
            while e < len && is_digit(s[e])
                invariant
                    start <= e <= len,
                    len == s@.len(),
                    run_end_from(s@, start as int) == run_end_from(s@, e as int),
                decreases len - e,
            {
                e = e + 1;
            }
            if e - start >= 2 {
                return Some((start, e));
            }
            let run = sub_vec(s, start, e);
            match crate::strutil::parse_i32_chars(&run) {
                Some(v) => {
                    if v == n {
                        return Some((start, e));
                    }
                },
                None => {
                    proof {
                        assert(e == start + 1);
                        assert(crate::strutil::all_digits(run@));
                        assert(run@.drop_last().len() == 0);
                        assert(crate::strutil::digits_value(run@.drop_last()) == 0);
                        assert(run@.last() == run@[0]);
                        assert(crate::strutil::digits_value(run@) == crate::strutil::digit_val(
                            run@[0],
                        ));
                        assert(false);
                    }
                },
            }
            from = from + 1;
        }
    }
    None
}

/// `n` rendered with at least two characters, per `spec_padded`.
fn padded_number(n: i32) -> (r: Vec<char>)
    ensures
        r@ == spec_padded(n as int),
{
    if n >= 0 && n < 10 {
        let mut r: Vec<char> = Vec::new();
        r.push('0');
        r.push(((48 + n) as u8) as char);
        proof {
            assert(r@ =~= spec_padded(n as int));
        }
        r
    } else if n >= 10 {
        dec_chars_of(n as u64)
    } else {
        let mut r: Vec<char> = Vec::new();
        r.push('-');
        let mag: u64 = ((-(n as i64)) as u64);
        let d = dec_chars_of(mag);
        append_chars(&mut r, &d);
        proof {
            assert(r@ =~= spec_padded(n as int));
        }
        r
    }
}

} // verus!
