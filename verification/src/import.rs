//! Helpers used when importing public-domain audiobooks from a remote
//! archive: naming heuristics, identifier extraction and runtime parsing.

use vstd::prelude::*;
use crate::strutil::{
    chars_eq, chars_of, contains_chars, contains_sub, ends_with, ends_with_chars, find_sub,
    is_first_match, lemma_first_match_unique, lower_chars, lower_seq, matches_at, parse_i32_chars,
    parse_i64_chars, spec_parse_i32, spec_parse_i64, spec_split, split_chars, starts_with,
    starts_with_chars, string_from_chars, sub_vec,
};

verus! {

/// `c` occurs at `k` and nowhere earlier in `s`.
pub open spec fn is_first_char(s: Seq<char>, c: char, k: int) -> bool {
    &&& 0 <= k < s.len()
    &&& s[k] == c
    &&& forall|j: int| 0 <= j < k ==> s[j] != c
}

/// What a runtime string like "1:23:45" denotes in seconds: one part is
/// minutes, two are minutes:seconds, three are hours:minutes:seconds; each
/// part a signed integer within the i64 range, as integer parsing reads it;
/// anything else denotes nothing.
pub open spec fn spec_runtime_seconds(s: Seq<char>) -> Option<int> {
    let parts = spec_split(s, ':');
    if parts.len() == 1 {
        match spec_parse_i64(parts[0]) {
            Some(m) => Some(m * 60),
            None => None,
        }
    } else if parts.len() == 2 {
        match (spec_parse_i64(parts[0]), spec_parse_i64(parts[1])) {
            (Some(m), Some(sec)) => Some(m * 60 + sec),
            _ => None,
        }
    } else if parts.len() == 3 {
        match (spec_parse_i64(parts[0]), spec_parse_i64(parts[1]), spec_parse_i64(parts[2])) {
            (Some(h), Some(m), Some(sec)) => Some(h * 3600 + m * 60 + sec),
            _ => None,
        }
    } else {
        None
    }
}

/// Parse a runtime string like "1:23:45" into seconds: minutes, then
/// minutes:seconds, then hours:minutes:seconds, each part a signed integer.
/// `None` for any other shape, and for totals outside the i64 range.
pub fn parse_runtime_to_seconds(runtime: &str) -> (r: Option<i64>)
    ensures
        match spec_runtime_seconds(runtime@) {
            Some(v) => if i64::MIN <= v <= i64::MAX {
                r == Some(v as i64)
            } else {
                r is None
            },
            None => r is None,
        },
{
    let cs = chars_of(runtime);
    let parts = split_chars(&cs, ':');
    proof {
        assert(parts.deep_view() == spec_split(runtime@, ':'));
        crate::strutil::lemma_pieces_view(parts);
    }
    if parts.len() == 1 {
        let m = match parse_i64_chars(&parts[0]) {
            Some(v) => v,
            None => {
                return None;
            },
        };
        let total: i128 = (m as i128) * 60;
        if total < i64::MIN as i128 || total > i64::MAX as i128 {
            None
        } else {
            Some(total as i64)
        }
    } else if parts.len() == 2 {
        let m = match parse_i64_chars(&parts[0]) {
            Some(v) => v,
            None => {
                return None;
            },
        };
        let sec = match parse_i64_chars(&parts[1]) {
            Some(v) => v,
            None => {
                return None;
            },
        };
        let total: i128 = (m as i128) * 60 + (sec as i128);
        if total < i64::MIN as i128 || total > i64::MAX as i128 {
            None
        } else {
            Some(total as i64)
        }
    } else if parts.len() == 3 {
        let h = match parse_i64_chars(&parts[0]) {
            Some(v) => v,
            None => {
                return None;
            },
        };
        let m = match parse_i64_chars(&parts[1]) {
            Some(v) => v,
            None => {
                return None;
            },
        };
        let sec = match parse_i64_chars(&parts[2]) {
            Some(v) => v,
            None => {
                return None;
            },
        };
        let total: i128 = (h as i128) * 3600 + (m as i128) * 60 + (sec as i128);
        if total < i64::MIN as i128 || total > i64::MAX as i128 {
            None
        } else {
            Some(total as i64)
        }
    } else {
        None
    }
}

/// What a synthesized chapter audio filename denotes: "chapter_C_chunk_K.wav"
/// gives (C, K); "chunk_K.wav" counts as chapter 1; anything else nothing.
/// The numbers are signed integers within the i32 range, as integer parsing
/// reads them.
pub open spec fn spec_chapter_chunk(s: Seq<char>) -> Option<(int, int)> {
    if s.len() >= 12 && starts_with(s, "chapter_"@) && ends_with(s, ".wav"@) {
        let parts = spec_split(s.subrange(8, s.len() - 4), '_');
        if parts.len() >= 3 && parts[1] == "chunk"@ {
            match (spec_parse_i32(parts[0]), spec_parse_i32(parts[2])) {
                (Some(a), Some(c)) => Some((a, c)),
                _ => None,
            }
        } else {
            None
        }
    } else if s.len() >= 10 && starts_with(s, "chunk_"@) && ends_with(s, ".wav"@) {
        match spec_parse_i32(s.subrange(6, s.len() - 4)) {
            Some(c) => Some((1int, c)),
            None => None,
        }
    } else {
        None
    }
}

/// Read the chapter and chunk numbers out of a synthesized audio filename.
pub fn extract_chapter_chunk_numbers(filename: &str) -> (r: Option<(i32, i32)>)
    ensures
        match (r, spec_chapter_chunk(filename@)) {
            (Some((c, k)), Some(p)) => c == p.0 && k == p.1,
            (None, None) => true,
            _ => false,
        },
{
    let cs = chars_of(filename);
    let chapter_prefix = chars_of("chapter_");
    let chunk_prefix = chars_of("chunk_");
    let wav_suffix = chars_of(".wav");
    if cs.len() >= 12 && starts_with_chars(&cs, &chapter_prefix) && ends_with_chars(
        &cs,
        &wav_suffix,
    ) {
        let mid = sub_vec(&cs, 8, cs.len() - 4);
        let parts = split_chars(&mid, '_');
        proof {
            assert(parts.deep_view() == spec_split(filename@.subrange(8, filename@.len() - 4), '_'));
            crate::strutil::lemma_pieces_view(parts);
        }
        if parts.len() >= 3 && chars_eq(&parts[1], &chars_of("chunk")) {
            let c = match parse_i32_chars(&parts[0]) {
                Some(v) => v,
                None => {
                    return None;
                },
            };
            let k = match parse_i32_chars(&parts[2]) {
                Some(v) => v,
                None => {
                    return None;
                },
            };
            Some((c, k))
        } else {
            None
        }
    } else if cs.len() >= 10 && starts_with_chars(&cs, &chunk_prefix) && ends_with_chars(
        &cs,
        &wav_suffix,
    ) {
        let mid = sub_vec(&cs, 6, cs.len() - 4);
        match parse_i32_chars(&mid) {
            Some(v) => Some((1, v)),
            None => None,
        }
    } else {
        None
    }
}

/// The first "/compress/" in `s` sits at `i`, and the segment after it ends
/// at the first following '/', `k` characters later.
pub open spec fn compress_id_at(s: Seq<char>, i: int, k: int) -> bool {
    &&& is_first_match(s, "/compress/"@, i)
    &&& is_first_char(s.subrange(i + 10, s.len() as int), '/', k)
}

/// The first "file=/" in `s` sits at `i`, and the stem after it ends at the
/// first following '.', `k` characters later.
pub open spec fn file_id_at(s: Seq<char>, i: int, k: int) -> bool {
    &&& is_first_match(s, "file=/"@, i)
    &&& is_first_char(s.subrange(i + 6, s.len() as int), '.', k)
}

/// The identifier embedded in an archive download address: the path segment
/// after the first "/compress/", or, failing that, the stem of the first
/// "file=/" parameter; nothing when neither is present.
pub fn extract_archive_identifier(zip_url: &str) -> (r: Option<String>)
    ensures
        match r {
            Some(id) => {
                ||| (exists|i: int, k: int|
                    #[trigger] compress_id_at(zip_url@, i, k) && id@ == zip_url@.subrange(
                        i + 10,
                        zip_url@.len() as int,
                    ).subrange(0, k))
                ||| ((forall|i: int, k: int| !(#[trigger] compress_id_at(zip_url@, i, k)))
                    && (exists|i: int, k: int|
                    #[trigger] file_id_at(zip_url@, i, k) && id@ == zip_url@.subrange(
                        i + 6,
                        zip_url@.len() as int,
                    ).subrange(0, k)))
            },
            None => {
                &&& forall|i: int, k: int| !(#[trigger] compress_id_at(zip_url@, i, k))
                &&& forall|i: int, k: int| !(#[trigger] file_id_at(zip_url@, i, k))
            },
        },
{
    let cs = chars_of(zip_url);
    let compress = chars_of("/compress/");
    proof {
        reveal_strlit("/compress/");
        reveal_strlit("file=/");
    }
    if let Some(i) = find_sub(&cs, &compress) {
        let n = cs.len();
        proof {
            assert(i + 10 <= n);
        }
        let rest = sub_vec(&cs, i + 10, n);
        if let Some(k) = find_first_char(&rest, '/') {
            let id = sub_vec(&rest, 0, k);
            proof {
                assert(compress_id_at(zip_url@, i as int, k as int));
            }
            return Some(string_from_chars(&id));
        }
        proof {
            assert forall|i2: int, k2: int| !(#[trigger] compress_id_at(zip_url@, i2, k2)) by {
                if compress_id_at(zip_url@, i2, k2) {
                    lemma_first_match_unique(zip_url@, "/compress/"@, i as int, i2);
                }
            }
        }
    } else {
        proof {
            assert forall|i2: int, k2: int| !(#[trigger] compress_id_at(zip_url@, i2, k2)) by {
                assert(!contains_sub(zip_url@, "/compress/"@));
            }
        }
    }
    let file_param = chars_of("file=/");
    if let Some(i) = find_sub(&cs, &file_param) {
        let n = cs.len();
        proof {
            assert(i + 6 <= n);
        }
        let rest = sub_vec(&cs, i + 6, n);
        if let Some(k) = find_first_char(&rest, '.') {
            let id = sub_vec(&rest, 0, k);
            proof {
                assert(file_id_at(zip_url@, i as int, k as int));
            }
            return Some(string_from_chars(&id));
        }
        proof {
            assert forall|i2: int, k2: int| !(#[trigger] file_id_at(zip_url@, i2, k2)) by {
                if file_id_at(zip_url@, i2, k2) {
                    lemma_first_match_unique(zip_url@, "file=/"@, i as int, i2);
                }
            }
        }
    } else {
        proof {
            assert forall|i2: int, k2: int| !(#[trigger] file_id_at(zip_url@, i2, k2)) by {
                assert(!contains_sub(zip_url@, "file=/"@));
            }
        }
    }
    None
}

/// The first position of `c` in `s`, if any.
pub fn find_first_char(s: &Vec<char>, c: char) -> (r: Option<usize>)
    ensures
        match r {
            Some(k) => is_first_char(s@, c, k as int),
            None => forall|j: int| 0 <= j < s@.len() ==> s@[j] != c,
        },
{
    let n = s.len();
    let mut i: usize = 0;
    while i < n
        invariant
            i <= n,
            n == s@.len(),
            forall|j: int| 0 <= j < i ==> s@[j] != c,
        decreases n - i,
    {
        if s[i] == c {
            return Some(i);
        }
        i = i + 1;
    }
    None
}

/// The likely author for a classic title, by the same fixed patterns the
/// import heuristics use: the title is ASCII-lowercased and searched for the
/// listed phrases.
pub open spec fn spec_detect_author(t: Seq<char>) -> Option<Seq<char>> {
    let s = lower_seq(t);
    if (contains_sub(s, "picture"@) && (contains_sub(s, "dorian"@) || contains_sub(s, "gray"@)
        || contains_sub(s, "grey"@))) || contains_sub(s, "wilde"@) || contains_sub(
        s,
        "importance of being earnest"@,
    ) || contains_sub(s, "canterville ghost"@) {
        Some("wilde"@)
    } else if (contains_sub(s, "pride"@) && contains_sub(s, "prejudice"@)) || contains_sub(
        s,
        "sense and sensibility"@,
    ) || contains_sub(s, "emma"@) || (contains_sub(s, "jane"@) && contains_sub(s, "austen"@)) {
        Some("austen"@)
    } else if (contains_sub(s, "alice"@) && contains_sub(s, "wonderland"@)) || contains_sub(
        s,
        "through the looking glass"@,
    ) || contains_sub(s, "carroll"@) {
        Some("carroll"@)
    } else if contains_sub(s, "great expectations"@) || contains_sub(s, "tale of two cities"@)
        || contains_sub(s, "christmas carol"@) || contains_sub(s, "oliver twist"@) || contains_sub(
        s,
        "bleak house"@,
    ) || contains_sub(s, "david copperfield"@) {
        Some("dickens"@)
    } else if (contains_sub(s, "romeo"@) && contains_sub(s, "juliet"@)) || contains_sub(
        s,
        "hamlet"@,
    ) || contains_sub(s, "macbeth"@) || contains_sub(s, "othello"@) || contains_sub(
        s,
        "king lear"@,
    ) || contains_sub(s, "midsummer night"@) || contains_sub(s, "merchant of venice"@) {
        Some("shakespeare"@)
    } else if contains_sub(s, "war and peace"@) || contains_sub(s, "anna karenina"@)
        || contains_sub(s, "tolstoy"@) {
        Some("tolstoy"@)
    } else if contains_sub(s, "adventures of huckleberry"@) || contains_sub(s, "tom sawyer"@)
        || contains_sub(s, "mark twain"@) {
        Some("twain"@)
    } else if contains_sub(s, "adventures of sherlock"@) || contains_sub(s, "sherlock holmes"@)
        || contains_sub(s, "study in scarlet"@) || contains_sub(s, "hound of baskervilles"@) || (
    contains_sub(s, "arthur"@) && contains_sub(s, "conan"@)) {
        Some("doyle"@)
    } else if contains_sub(s, "moby dick"@) || contains_sub(s, "melville"@) {
        Some("melville"@)
    } else if contains_sub(s, "frankenstein"@) || (contains_sub(s, "mary"@) && contains_sub(
        s,
        "shelley"@,
    )) {
        Some("shelley"@)
    } else if contains_sub(s, "dracula"@) || contains_sub(s, "bram stoker"@) {
        Some("stoker"@)
    } else {
        None
    }
}

/// Whether the lowercased title contains the phrase.
fn has_phrase(lower: &Vec<char>, phrase: &str) -> (r: bool)
    ensures
        r == contains_sub(lower@, phrase@),
{
    contains_chars(lower, &chars_of(phrase))
}

/// Guess the likely author of a classic book from its title.
pub fn detect_author_from_title(title: &str) -> (r: Option<String>)
    ensures
        match (r, spec_detect_author(title@)) {
            (Some(a), Some(b)) => a@ == b,
            (None, None) => true,
            _ => false,
        },
{
    let lower = lower_chars(&chars_of(title));
    if (has_phrase(&lower, "picture") && (has_phrase(&lower, "dorian") || has_phrase(
        &lower,
        "gray",
    ) || has_phrase(&lower, "grey"))) || has_phrase(&lower, "wilde") || has_phrase(
        &lower,
        "importance of being earnest",
    ) || has_phrase(&lower, "canterville ghost") {
        Some("wilde".to_owned())
    } else if (has_phrase(&lower, "pride") && has_phrase(&lower, "prejudice")) || has_phrase(
        &lower,
        "sense and sensibility",
    ) || has_phrase(&lower, "emma") || (has_phrase(&lower, "jane") && has_phrase(
        &lower,
        "austen",
    )) {
        Some("austen".to_owned())
    } else if (has_phrase(&lower, "alice") && has_phrase(&lower, "wonderland")) || has_phrase(
        &lower,
        "through the looking glass",
    ) || has_phrase(&lower, "carroll") {
        Some("carroll".to_owned())
    } else if has_phrase(&lower, "great expectations") || has_phrase(&lower, "tale of two cities")
        || has_phrase(&lower, "christmas carol") || has_phrase(&lower, "oliver twist")
        || has_phrase(&lower, "bleak house") || has_phrase(&lower, "david copperfield") {
        Some("dickens".to_owned())
    } else if (has_phrase(&lower, "romeo") && has_phrase(&lower, "juliet")) || has_phrase(
        &lower,
        "hamlet",
    ) || has_phrase(&lower, "macbeth") || has_phrase(&lower, "othello") || has_phrase(
        &lower,
        "king lear",
    ) || has_phrase(&lower, "midsummer night") || has_phrase(&lower, "merchant of venice") {
        Some("shakespeare".to_owned())
    } else if has_phrase(&lower, "war and peace") || has_phrase(&lower, "anna karenina")
        || has_phrase(&lower, "tolstoy") {
        Some("tolstoy".to_owned())
    } else if has_phrase(&lower, "adventures of huckleberry") || has_phrase(&lower, "tom sawyer")
        || has_phrase(&lower, "mark twain") {
        Some("twain".to_owned())
    } else if has_phrase(&lower, "adventures of sherlock") || has_phrase(&lower, "sherlock holmes")
        || has_phrase(&lower, "study in scarlet") || has_phrase(&lower, "hound of baskervilles")
        || (has_phrase(&lower, "arthur") && has_phrase(&lower, "conan")) {
        Some("doyle".to_owned())
    } else if has_phrase(&lower, "moby dick") || has_phrase(&lower, "melville") {
        Some("melville".to_owned())
    } else if has_phrase(&lower, "frankenstein") || (has_phrase(&lower, "mary") && has_phrase(
        &lower,
        "shelley",
    )) {
        Some("shelley".to_owned())
    } else if has_phrase(&lower, "dracula") || has_phrase(&lower, "bram stoker") {
        Some("stoker".to_owned())
    } else {
        None
    }
}

} // verus!
