//! Verified text utilities shared by the catalog and document helpers:
//! character classes, case folding, splitting, substring search and decimal
//! parsing, all specified over `Seq<char>`.

use vstd::prelude::*;
use vstd::string::StrSliceExecFns;

verus! {

/// ASCII whitespace as the text patterns here use it: space, tab, and the
/// line/page control characters.
pub open spec fn is_space_char(c: char) -> bool {
    c == ' ' || c == '\t' || c == '\n' || c == '\r' || c == '\u{b}' || c == '\u{c}'
}

pub open spec fn is_digit_char(c: char) -> bool {
    48 <= c as u32 && c as u32 <= 57
}

pub open spec fn is_upper_char(c: char) -> bool {
    65 <= c as u32 && c as u32 <= 90
}

pub open spec fn is_lower_char(c: char) -> bool {
    97 <= c as u32 && c as u32 <= 122
}

/// The numeric value of a decimal digit character.
pub open spec fn digit_val(c: char) -> int {
    c as u32 - 48
}

/// ASCII lowercasing of one character; others pass through.
pub open spec fn lower_char(c: char) -> char {
    if is_upper_char(c) {
        ((c as u32 + 32) as u8) as char
    } else {
        c
    }
}

/// ASCII uppercasing of one character; others pass through.
pub open spec fn upper_char(c: char) -> char {
    if is_lower_char(c) {
        ((c as u32 - 32) as u8) as char
    } else {
        c
    }
}

/// ASCII lowercasing of a whole character sequence.
pub open spec fn lower_seq(s: Seq<char>) -> Seq<char> {
    Seq::new(s.len(), |i: int| lower_char(s[i]))
}

pub fn is_space(c: char) -> (r: bool)
    ensures
        r == is_space_char(c),
{
    c == ' ' || c == '\t' || c == '\n' || c == '\r' || c == '\u{b}' || c == '\u{c}'
}

pub fn is_digit(c: char) -> (r: bool)
    ensures
        r == is_digit_char(c),
{
    let u = c as u32;
    48 <= u && u <= 57
}

pub fn is_upper(c: char) -> (r: bool)
    ensures
        r == is_upper_char(c),
{
    let u = c as u32;
    65 <= u && u <= 90
}

pub fn to_lower(c: char) -> (r: char)
    ensures
        r == lower_char(c),
{
    let u = c as u32;
    if 65 <= u && u <= 90 {
        ((u + 32) as u8) as char
    } else {
        c
    }
}

pub fn to_upper(c: char) -> (r: char)
    ensures
        r == upper_char(c),
{
    let u = c as u32;
    if 97 <= u && u <= 122 {
        ((u - 32) as u8) as char
    } else {
        c
    }
}

/// The characters of `s`, in order.
pub fn chars_of(s: &str) -> (r: Vec<char>)
    ensures
        r@ == s@,
{
    let n = s.unicode_len();
    let mut r: Vec<char> = Vec::new();
    let mut i: usize = 0;
    while i < n
        invariant
            i <= n,
            n == s@.len(),
            r@ == s@.subrange(0, i as int),
        decreases n - i,
    {
        r.push(s.get_char(i));
        i = i + 1;
        proof {
            assert(r@ =~= s@.subrange(0, i as int));
        }
    }
    proof {
        assert(r@ =~= s@);
    }
    r
}

/// Relies on `String`'s `FromIterator<char>` (through `Iterator::collect`):
/// the string whose characters are exactly those of the vector, in order.
#[verifier::external_body]
pub(crate) fn string_from_chars(v: &Vec<char>) -> (r: String)
    ensures
        r@ == v@,
{
    v.iter().collect()
}

/// ASCII-lowercase every character.
pub fn lower_chars(s: &Vec<char>) -> (r: Vec<char>)
    ensures
        r@ == lower_seq(s@),
{
    let n = s.len();
    let mut r: Vec<char> = Vec::new();
    let mut i: usize = 0;
    while i < n
        invariant
            i <= n,
            n == s@.len(),
            r@.len() == i,
            forall|j: int| 0 <= j < i ==> r@[j] == lower_char(s@[j]),
        decreases n - i,
    {
        r.push(to_lower(s[i]));
        i = i + 1;
    }
    proof {
        assert(r@ =~= lower_seq(s@));
    }
    r
}

/// Whether `pat` occurs in `s` starting at `at`.
pub open spec fn matches_at(s: Seq<char>, pat: Seq<char>, at: int) -> bool {
    &&& 0 <= at
    &&& at + pat.len() <= s.len()
    &&& s.subrange(at, at + pat.len()) == pat
}

/// Whether `pat` occurs anywhere in `s`.
pub open spec fn contains_sub(s: Seq<char>, pat: Seq<char>) -> bool {
    exists|i: int| matches_at(s, pat, i)
}

/// Whether the characters `s[at..at+pat.len()]` equal `pat`, by comparison.
fn check_match(s: &Vec<char>, pat: &Vec<char>, at: usize) -> (r: bool)
    requires
        at + pat@.len() <= s@.len(),
    ensures
        r == matches_at(s@, pat@, at as int),
{
    let n = s.len();
    let m = pat.len();
    let mut j: usize = 0;
    while j < m
        invariant
            j <= m,
            m == pat@.len(),
            n == s@.len(),
            at + m <= n,
            forall|k: int| 0 <= k < j ==> s@[at + k] == pat@[k],
        decreases m - j,
    {
        if s[at + j] != pat[j] {
            proof {
                assert(s@.subrange(at as int, at + pat@.len()) != pat@) by {
                    assert(s@.subrange(at as int, at + pat@.len())[j as int] != pat@[j as int]);
                }
            }
            return false;
        }
        j = j + 1;
    }
    proof {
        assert(s@.subrange(at as int, at + pat@.len()) =~= pat@);
    }
    true
}

/// The first position where `pat` occurs in `s`, if any.
pub fn find_sub(s: &Vec<char>, pat: &Vec<char>) -> (r: Option<usize>)
    ensures
        match r {
            Some(i) => matches_at(s@, pat@, i as int) && (forall|j: int|
                0 <= j < i ==> !matches_at(s@, pat@, j)),
            None => !contains_sub(s@, pat@),
        },
{
    if pat.len() > s.len() {
        return None;
    }
    if pat.len() == 0 {
        proof {
            assert(s@.subrange(0, 0) =~= pat@);
        }
        return Some(0);
    }
    let n = s.len();
    let last = s.len() - pat.len();
    let mut i: usize = 0;
    while i <= last
        invariant
            i <= last + 1,
            n == s@.len(),
            pat@.len() >= 1,
            last == s@.len() - pat@.len(),
            forall|j: int| 0 <= j < i ==> !matches_at(s@, pat@, j),
        decreases last - i + 1,
    {
        if check_match(s, pat, i) {
            return Some(i);
        }
        i = i + 1;
    }
    proof {
        assert forall|j: int| !matches_at(s@, pat@, j) by {
            if 0 <= j && j + pat@.len() <= s@.len() {
                assert(j <= last);
            }
        }
    }
    None
}

/// `pat` occurs at `i` and nowhere earlier.
pub open spec fn is_first_match(s: Seq<char>, pat: Seq<char>, i: int) -> bool {
    &&& matches_at(s, pat, i)
    &&& forall|j: int| 0 <= j < i ==> !matches_at(s, pat, j)
}

/// Two positions that are each the first occurrence are the same position.
pub proof fn lemma_first_match_unique(s: Seq<char>, pat: Seq<char>, a: int, b: int)
    requires
        is_first_match(s, pat, a),
        is_first_match(s, pat, b),
    ensures
        a == b,
{
}

/// Copy `s[from..to]` into a fresh vector.
pub fn sub_vec(s: &Vec<char>, from: usize, to: usize) -> (r: Vec<char>)
    requires
        from <= to <= s@.len(),
    ensures
        r@ == s@.subrange(from as int, to as int),
{
    let mut r: Vec<char> = Vec::new();
    let mut i: usize = from;
    while i < to
        invariant
            from <= i <= to <= s@.len(),
            r@ == s@.subrange(from as int, i as int),
        decreases to - i,
    {
        r.push(s[i]);
        i = i + 1;
        proof {
            assert(r@ =~= s@.subrange(from as int, i as int));
        }
    }
    r
}

/// Whether `s` contains `pat`.
pub fn contains_chars(s: &Vec<char>, pat: &Vec<char>) -> (r: bool)
    ensures
        r == contains_sub(s@, pat@),
{
    match find_sub(s, pat) {
        Some(_) => true,
        None => false,
    }
}

/// Whether the two character vectors hold the same characters.
pub fn chars_eq(a: &Vec<char>, b: &Vec<char>) -> (r: bool)
    ensures
        r == (a@ == b@),
{
    if a.len() != b.len() {
        return false;
    }
    let n = a.len();
    let mut i: usize = 0;
    while i < n
        invariant
            i <= n,
            n == a@.len(),
            a@.len() == b@.len(),
            forall|j: int| 0 <= j < i ==> a@[j] == b@[j],
        decreases n - i,
    {
        if a[i] != b[i] {
            return false;
        }
        i = i + 1;
    }
    proof {
        assert(a@ =~= b@);
    }
    true
}

/// Whether `s` starts with `pat`.
pub open spec fn starts_with(s: Seq<char>, pat: Seq<char>) -> bool {
    matches_at(s, pat, 0)
}

/// Whether `s` ends with `pat`.
pub open spec fn ends_with(s: Seq<char>, pat: Seq<char>) -> bool {
    pat.len() <= s.len() && matches_at(s, pat, s.len() - pat.len())
}

pub fn starts_with_chars(s: &Vec<char>, pat: &Vec<char>) -> (r: bool)
    ensures
        r == starts_with(s@, pat@),
{
    if pat.len() > s.len() {
        return false;
    }
    check_match(s, pat, 0)
}

pub fn ends_with_chars(s: &Vec<char>, pat: &Vec<char>) -> (r: bool)
    ensures
        r == ends_with(s@, pat@),
{
    if pat.len() > s.len() {
        return false;
    }
    check_match(s, pat, s.len() - pat.len())
}

/// Splitting on a separator, defined left to right: `cur` is the piece being
/// accumulated, `acc` the finished pieces.
pub open spec fn split_rec(s: Seq<char>, sep: char, cur: Seq<char>, acc: Seq<Seq<char>>) -> Seq<
    Seq<char>,
>
    decreases s.len(),
{
    if s.len() == 0 {
        acc.push(cur)
    } else if s[0] == sep {
        split_rec(s.drop_first(), sep, Seq::empty(), acc.push(cur))
    } else {
        split_rec(s.drop_first(), sep, cur.push(s[0]), acc)
    }
}

/// The pieces of `s` between occurrences of `sep`; empty pieces are kept, as
/// in `str::split`.
pub open spec fn spec_split(s: Seq<char>, sep: char) -> Seq<Seq<char>> {
    split_rec(s, sep, Seq::empty(), Seq::empty())
}

/// Split `s` on `sep`, keeping empty pieces.
pub fn split_chars(s: &Vec<char>, sep: char) -> (r: Vec<Vec<char>>)
    ensures
        r.deep_view() == spec_split(s@, sep),
{
    let n = s.len();
    let mut acc: Vec<Vec<char>> = Vec::new();
    let mut cur: Vec<char> = Vec::new();
    let mut i: usize = 0;
    proof {
        assert(s@.subrange(0, n as int) =~= s@);
        assert(acc.deep_view() =~= Seq::<Seq<char>>::empty());
    }
    while i < n
        invariant
            i <= n,
            n == s@.len(),
            split_rec(s@.subrange(i as int, n as int), sep, cur@, acc.deep_view())
                == spec_split(s@, sep),
        decreases n - i,
    {
        let ghost pre_rest = s@.subrange(i as int, n as int);
        let ghost pre_acc = acc.deep_view();
        let ghost pre_cur = cur@;
        if s[i] == sep {
            acc.push(cur);
            cur = Vec::new();
            proof {
                assert(acc.deep_view() =~~= pre_acc.push(pre_cur));
            }
        } else {
            cur.push(s[i]);
        }
        i = i + 1;
        proof {
            assert(pre_rest.drop_first() =~= s@.subrange(i as int, n as int));
            assert(pre_rest[0] == s@[i - 1]);
        }
    }
    let ghost pre_acc = acc.deep_view();
    let ghost pre_cur = cur@;
    acc.push(cur);
    proof {
        assert(acc.deep_view() =~~= pre_acc.push(pre_cur));
    }
    acc
}

/// The deep view of a vector of character vectors, read piece by piece:
/// each piece's deep view is its own character sequence.
pub proof fn lemma_pieces_view(parts: Vec<Vec<char>>)
    ensures
        parts.deep_view().len() == parts@.len(),
        forall|j: int| 0 <= j < parts@.len() ==> #[trigger] parts.deep_view()[j] == parts@[j]@,
{
    assert forall|j: int| 0 <= j < parts@.len() implies #[trigger] parts.deep_view()[j]
        == parts@[j]@ by {
        assert(parts.deep_view()[j] == parts@[j].deep_view());
        assert(parts@[j].deep_view() =~= parts@[j]@);
    }
}

/// Splitting always yields at least one piece.
proof fn lemma_split_rec_len(s: Seq<char>, sep: char, cur: Seq<char>, acc: Seq<Seq<char>>)
    ensures
        split_rec(s, sep, cur, acc).len() > acc.len(),
    decreases s.len(),
{
    if s.len() == 0 {
    } else if s[0] == sep {
        lemma_split_rec_len(s.drop_first(), sep, Seq::empty(), acc.push(cur));
    } else {
        lemma_split_rec_len(s.drop_first(), sep, cur.push(s[0]), acc);
    }
}

/// A split has at least one piece.
pub proof fn lemma_split_nonempty(s: Seq<char>, sep: char)
    ensures
        spec_split(s, sep).len() >= 1,
{
    lemma_split_rec_len(s, sep, Seq::empty(), Seq::empty());
}

/// Whether `s` is one or more decimal digits.
pub open spec fn all_digits(s: Seq<char>) -> bool {
    s.len() > 0 && forall|i: int| 0 <= i < s.len() ==> is_digit_char(#[trigger] s[i])
}

/// The number the digit string denotes.
pub open spec fn digits_value(s: Seq<char>) -> int
    decreases s.len(),
{
    if s.len() == 0 {
        0
    } else {
        digits_value(s.drop_last()) * 10 + digit_val(s.last())
    }
}

/// A string of digit characters denotes a non-negative number.
proof fn lemma_digits_value_nonneg(s: Seq<char>)
    requires
        forall|i: int| 0 <= i < s.len() ==> is_digit_char(#[trigger] s[i]),
    ensures
        digits_value(s) >= 0,
    decreases s.len(),
{
    if s.len() > 0 {
        lemma_digits_value_nonneg(s.drop_last());
    }
}

/// Extending a digit string with more digits never shrinks its value.
proof fn lemma_digits_prefix_le(s: Seq<char>, k: int)
    requires
        0 <= k <= s.len(),
        forall|i: int| 0 <= i < s.len() ==> is_digit_char(#[trigger] s[i]),
    ensures
        digits_value(s.subrange(0, k)) <= digits_value(s),
    decreases s.len() - k,
{
    if k == s.len() {
        assert(s.subrange(0, k) =~= s);
    } else {
        let a = s.subrange(0, k);
        let b = s.subrange(0, k + 1);
        assert(b.drop_last() =~= a);
        assert(b.last() == s[k]);
        assert(forall|i: int| 0 <= i < a.len() ==> is_digit_char(#[trigger] a[i]));
        lemma_digits_value_nonneg(a);
        assert(digits_value(a) <= digits_value(b));
        lemma_digits_prefix_le(s, k + 1);
    }
}

/// Parse `s[from..to]` as an unsigned decimal numeral: `Some` exactly when it
/// is one or more digits denoting a value that fits, and then that value.
pub fn parse_u64_value(s: &Vec<char>, from: usize, to: usize) -> (r: Option<u64>)
    requires
        from <= to <= s@.len(),
    ensures
        ({
            let sub = s@.subrange(from as int, to as int);
            match r {
                Some(v) => all_digits(sub) && v == digits_value(sub),
                None => !(all_digits(sub) && digits_value(sub) <= u64::MAX),
            }
        }),
{
    let ghost sub = s@.subrange(from as int, to as int);
    if from == to {
        return None;
    }
    let mut acc: u64 = 0;
    let mut i: usize = from;
    proof {
        assert(sub.subrange(0, 0) =~= Seq::<char>::empty());
    }
    while i < to
        invariant
            from <= i <= to <= s@.len(),
            from < to,
            sub == s@.subrange(from as int, to as int),
            forall|j: int| from <= j < i ==> is_digit_char(#[trigger] s@[j]),
            acc == digits_value(sub.subrange(0, i - from)),
        decreases to - i,
    {
        let c = s[i];
        proof {
            assert(sub[i - from] == s@[i as int]);
        }
        if !is_digit(c) {
            return None;
        }
        let d: u64 = (c as u32 - 48) as u64;
        let next: u128 = (acc as u128) * 10 + (d as u128);
        proof {
            let pre = sub.subrange(0, i - from);
            let now = sub.subrange(0, i + 1 - from);
            assert(now.drop_last() =~= pre);
            assert(now.last() == c);
            assert(digits_value(now) == digits_value(pre) * 10 + digit_val(c));
        }
        if next > u64::MAX as u128 {
            proof {
                if all_digits(sub) {
                    lemma_digits_prefix_le(sub, i + 1 - from);
                }
            }
            return None;
        }
        acc = next as u64;
        i = i + 1;
    }
    proof {
        assert(sub.subrange(0, to - from) =~= sub);
    }
    Some(acc)
}

/// What parsing a character string as a signed integer accepts: an optional
/// leading sign, then one or more digits; the signed value, unbounded.
pub open spec fn spec_parsed_int(s: Seq<char>) -> Option<int> {
    if s.len() >= 1 && (s[0] == '-' || s[0] == '+') {
        if all_digits(s.drop_first()) {
            if s[0] == '-' {
                Some(-digits_value(s.drop_first()))
            } else {
                Some(digits_value(s.drop_first()))
            }
        } else {
            None
        }
    } else if all_digits(s) {
        Some(digits_value(s))
    } else {
        None
    }
}

/// `spec_parsed_int` held to the i64 range, as `str::parse::<i64>` does.
pub open spec fn spec_parse_i64(s: Seq<char>) -> Option<int> {
    match spec_parsed_int(s) {
        Some(v) => if i64::MIN <= v <= i64::MAX {
            Some(v)
        } else {
            None
        },
        None => None,
    }
}

/// `spec_parsed_int` held to the i32 range, as `str::parse::<i32>` does.
pub open spec fn spec_parse_i32(s: Seq<char>) -> Option<int> {
    match spec_parsed_int(s) {
        Some(v) => if i32::MIN <= v <= i32::MAX {
            Some(v)
        } else {
            None
        },
        None => None,
    }
}

/// Parse a signed decimal numeral: an optional sign, one or more digits, and
/// the value within the i64 range — exactly what `spec_parse_i64` accepts.
pub fn parse_i64_chars(s: &Vec<char>) -> (r: Option<i64>)
    ensures
        match (r, spec_parse_i64(s@)) {
            (Some(a), Some(b)) => a == b,
            (None, None) => true,
            _ => false,
        },
{
    if s.len() == 0 {
        return None;
    }
    let c0 = s[0];
    let neg = c0 == '-';
    let from: usize = if neg || c0 == '+' {
        1
    } else {
        0
    };
    proof {
        if from == 1 {
            assert(s@.subrange(1, s@.len() as int) =~= s@.drop_first());
        } else {
            assert(s@.subrange(0, s@.len() as int) =~= s@);
        }
    }
    match parse_u64_value(s, from, s.len()) {
        None => None,
        Some(v) => {
            if neg {
                if v <= i64::MAX as u64 {
                    Some(0i64 - (v as i64))
                } else if v == 9223372036854775808u64 {
                    Some(i64::MIN)
                } else {
                    None
                }
            } else {
                if v <= i64::MAX as u64 {
                    Some(v as i64)
                } else {
                    None
                }
            }
        },
    }
}

/// Parse a signed decimal numeral within the i32 range — exactly what
/// `spec_parse_i32` accepts.
pub fn parse_i32_chars(s: &Vec<char>) -> (r: Option<i32>)
    ensures
        match (r, spec_parse_i32(s@)) {
            (Some(a), Some(b)) => a == b,
            (None, None) => true,
            _ => false,
        },
{
    if s.len() == 0 {
        return None;
    }
    let c0 = s[0];
    let neg = c0 == '-';
    let from: usize = if neg || c0 == '+' {
        1
    } else {
        0
    };
    proof {
        if from == 1 {
            assert(s@.subrange(1, s@.len() as int) =~= s@.drop_first());
        } else {
            assert(s@.subrange(0, s@.len() as int) =~= s@);
        }
    }
    match parse_u64_value(s, from, s.len()) {
        None => None,
        Some(v) => {
            if neg {
                if v <= i32::MAX as u64 {
                    Some(0i32 - (v as i32))
                } else if v == 2147483648u64 {
                    Some(i32::MIN)
                } else {
                    None
                }
            } else {
                if v <= i32::MAX as u64 {
                    Some(v as i32)
                } else {
                    None
                }
            }
        },
    }
}

/// Count of leading characters of `s` that are whitespace.
pub open spec fn trim_start_count(s: Seq<char>) -> int
    decreases s.len(),
{
    if s.len() == 0 || !is_space_char(s[0]) {
        0
    } else {
        1 + trim_start_count(s.drop_first())
    }
}

/// Count of trailing characters of `s` that are whitespace.
pub open spec fn trim_end_count(s: Seq<char>) -> int
    decreases s.len(),
{
    if s.len() == 0 || !is_space_char(s.last()) {
        0
    } else {
        1 + trim_end_count(s.drop_last())
    }
}

/// `s` with leading and trailing whitespace removed.
pub open spec fn spec_trim(s: Seq<char>) -> Seq<char> {
    if trim_start_count(s) == s.len() {
        Seq::empty()
    } else {
        s.subrange(trim_start_count(s), s.len() - trim_end_count(s))
    }
}

/// The trimmed slice of `s`, as a character vector.
pub fn trim_chars(s: &Vec<char>) -> (r: Vec<char>)
    ensures
        r@ == spec_trim(s@),
{
    let n = s.len();
    let mut lo: usize = 0;
    proof {
        assert(s@.subrange(0, n as int) =~= s@);
    }
    while lo < n && is_space(s[lo])
        invariant
            lo <= n,
            n == s@.len(),
            trim_start_count(s@) == lo + trim_start_count(s@.subrange(lo as int, n as int)),
        decreases n - lo,
    {
        proof {
            let rest = s@.subrange(lo as int, n as int);
            assert(rest.drop_first() =~= s@.subrange(lo as int + 1, n as int));
        }
        lo = lo + 1;
    }
    proof {
        let rest = s@.subrange(lo as int, n as int);
        if lo < n {
            assert(rest[0] == s@[lo as int]);
        }
        assert(trim_start_count(rest) == 0);
        assert(trim_start_count(s@) == lo);
    }
    if lo == n {
        proof {
            assert(spec_trim(s@) =~= Seq::<char>::empty());
        }
        return Vec::new();
    }
    let mut hi: usize = n;
    proof {
        assert(s@.subrange(0, n as int) =~= s@);
    }
    while hi > lo && is_space(s[hi - 1])
        invariant
            lo < hi <= n,
            n == s@.len(),
            lo < n,
            trim_start_count(s@) == lo,
            !is_space_char(s@[lo as int]),
            trim_end_count(s@) == (n - hi) + trim_end_count(s@.subrange(0, hi as int)),
        decreases hi,
    {
        proof {
            if hi - 1 == lo {
                assert(is_space_char(s@[lo as int]));
            }
        }
        proof {
            let rest = s@.subrange(0, hi as int);
            assert(rest.drop_last() =~= s@.subrange(0, hi as int - 1));
            assert(rest.last() == s@[hi - 1]);
        }
        hi = hi - 1;
    }
    proof {
        let rest = s@.subrange(0, hi as int);
        assert(rest.last() == s@[hi - 1]);
        assert(trim_end_count(rest) == 0);
        assert(trim_end_count(s@) == n - hi);
    }
    let mut r: Vec<char> = Vec::new();
    let mut i: usize = lo;
    while i < hi
        invariant
            lo <= i <= hi <= n,
            n == s@.len(),
            r@ == s@.subrange(lo as int, i as int),
        decreases hi - i,
    {
        r.push(s[i]);
        i = i + 1;
        proof {
            assert(r@ =~= s@.subrange(lo as int, i as int));
        }
    }
    proof {
        assert(r@ =~= spec_trim(s@));
    }
    r
}

/// The suffix of `s` after the last occurrence of `c`; all of `s` when `c`
/// does not occur.
pub open spec fn after_last(s: Seq<char>, c: char) -> Seq<char>
    decreases s.len(),
{
    if s.len() == 0 {
        s
    } else if s.last() == c {
        Seq::empty()
    } else {
        after_last(s.drop_last(), c).push(s.last())
    }
}

/// The prefix of `s` before the last occurrence of `c`; all of `s` when `c`
/// does not occur.
pub open spec fn before_last(s: Seq<char>, c: char) -> Seq<char> {
    if after_last(s, c).len() == s.len() {
        s
    } else {
        s.subrange(0, s.len() - after_last(s, c).len() - 1)
    }
}

/// Where the last occurrence sits, the suffix after it is `after_last`.
proof fn lemma_after_last_at(s: Seq<char>, c: char, k: int)
    requires
        0 <= k < s.len(),
        s[k] == c,
        forall|j: int| k < j < s.len() ==> s[j] != c,
    ensures
        after_last(s, c) == s.subrange(k + 1, s.len() as int),
    decreases s.len(),
{
    if k == s.len() - 1 {
        assert(s.last() == c);
        assert(after_last(s, c) =~= s.subrange(k + 1, s.len() as int));
    } else {
        assert(s.last() != c);
        lemma_after_last_at(s.drop_last(), c, k);
        assert(s.drop_last().subrange(k + 1, s.len() - 1) =~= s.subrange(k + 1, s.len() - 1));
        assert(after_last(s, c) =~= s.subrange(k + 1, s.len() as int));
    }
}

/// Where `c` does not occur, `after_last` is all of `s`.
proof fn lemma_after_last_none(s: Seq<char>, c: char)
    requires
        forall|j: int| 0 <= j < s.len() ==> s[j] != c,
    ensures
        after_last(s, c) == s,
    decreases s.len(),
{
    if s.len() > 0 {
        lemma_after_last_none(s.drop_last(), c);
        assert(after_last(s, c) =~= s);
    }
}

/// The position right after the last occurrence of `c` in `s`; 0 when `c`
/// does not occur. The suffix from there is exactly `after_last`.
pub fn after_last_pos(s: &Vec<char>, c: char) -> (r: usize)
    ensures
        r <= s@.len(),
        after_last(s@, c) == s@.subrange(r as int, s@.len() as int),
        r > 0 ==> s@[r - 1] == c,
        r == 0 ==> after_last(s@, c) == s@,
{
    let n = s.len();
    let mut i: usize = n;
    while i > 0
        invariant
            i <= n,
            n == s@.len(),
            forall|j: int| i <= j < n ==> s@[j] != c,
        decreases i,
    {
        if s[i - 1] == c {
            proof {
                lemma_after_last_at(s@, c, i - 1);
            }
            return i;
        }
        i = i - 1;
    }
    proof {
        lemma_after_last_none(s@, c);
        assert(s@.subrange(0, n as int) =~= s@);
    }
    0
}

/// Splitting on whitespace runs, defined left to right; empty pieces are
/// dropped, as in `str::split_whitespace`.
pub open spec fn split_ws_rec(s: Seq<char>, cur: Seq<char>, acc: Seq<Seq<char>>) -> Seq<Seq<char>>
    decreases s.len(),
{
    if s.len() == 0 {
        if cur.len() > 0 {
            acc.push(cur)
        } else {
            acc
        }
    } else if is_space_char(s[0]) {
        if cur.len() > 0 {
            split_ws_rec(s.drop_first(), Seq::empty(), acc.push(cur))
        } else {
            split_ws_rec(s.drop_first(), Seq::empty(), acc)
        }
    } else {
        split_ws_rec(s.drop_first(), cur.push(s[0]), acc)
    }
}

/// The whitespace-separated words of `s`.
pub open spec fn split_ws(s: Seq<char>) -> Seq<Seq<char>> {
    split_ws_rec(s, Seq::empty(), Seq::empty())
}

/// The whitespace-separated words of `s`, as character vectors.
pub fn split_ws_chars(s: &Vec<char>) -> (r: Vec<Vec<char>>)
    ensures
        r.deep_view() == split_ws(s@),
{
    let n = s.len();
    let mut acc: Vec<Vec<char>> = Vec::new();
    let mut cur: Vec<char> = Vec::new();
    let mut i: usize = 0;
    proof {
        assert(s@.subrange(0, n as int) =~= s@);
        assert(acc.deep_view() =~= Seq::<Seq<char>>::empty());
    }
    while i < n
        invariant
            i <= n,
            n == s@.len(),
            split_ws_rec(s@.subrange(i as int, n as int), cur@, acc.deep_view())
                == split_ws(s@),
        decreases n - i,
    {
        let ghost pre_rest = s@.subrange(i as int, n as int);
        let ghost pre_acc = acc.deep_view();
        let ghost pre_cur = cur@;
        if is_space(s[i]) {
            if cur.len() > 0 {
                acc.push(cur);
                cur = Vec::new();
                proof {
                    assert(acc.deep_view() =~~= pre_acc.push(pre_cur));
                }
            } else {
                proof {
                    assert(cur@ =~= Seq::<char>::empty());
                }
            }
        } else {
            cur.push(s[i]);
        }
        i = i + 1;
        proof {
            assert(pre_rest.drop_first() =~= s@.subrange(i as int, n as int));
            assert(pre_rest[0] == s@[i - 1]);
        }
    }
    if cur.len() > 0 {
        let ghost pre_acc = acc.deep_view();
        let ghost pre_cur = cur@;
        acc.push(cur);
        proof {
            assert(acc.deep_view() =~~= pre_acc.push(pre_cur));
        }
    }
    acc
}

/// The pieces joined with `sep` between them.
pub open spec fn join_with(parts: Seq<Seq<char>>, sep: Seq<char>) -> Seq<char>
    decreases parts.len(),
{
    if parts.len() == 0 {
        Seq::empty()
    } else if parts.len() == 1 {
        parts[0]
    } else {
        parts[0] + sep + join_with(parts.drop_first(), sep)
    }
}

/// Appending one more piece extends the join at the right.
pub proof fn lemma_join_push(parts: Seq<Seq<char>>, sep: Seq<char>, x: Seq<char>)
    ensures
        join_with(parts.push(x), sep) == if parts.len() == 0 {
            x
        } else {
            join_with(parts, sep) + sep + x
        },
    decreases parts.len(),
{
    let p2 = parts.push(x);
    if parts.len() == 0 {
        assert(p2.len() == 1);
        assert(join_with(p2, sep) == p2[0]);
        assert(p2[0] == x);
    } else if parts.len() == 1 {
        assert(p2.drop_first() =~= seq![x]);
        assert(join_with(p2, sep) == p2[0] + sep + join_with(p2.drop_first(), sep));
        assert(join_with(parts, sep) == parts[0]);
        assert(p2[0] == parts[0]);
    } else {
        lemma_join_push(parts.drop_first(), sep, x);
        assert(p2.drop_first() =~= parts.drop_first().push(x));
        assert(join_with(p2, sep) == p2[0] + sep + join_with(p2.drop_first(), sep));
        assert(join_with(parts, sep) + sep + x =~= p2[0] + sep + (join_with(
            parts.drop_first(),
            sep,
        ) + sep + x));
    }
}

/// Join pieces with a separator.
pub fn join_chars(parts: &Vec<Vec<char>>, sep: &Vec<char>) -> (r: Vec<char>)
    ensures
        r@ == join_with(parts.deep_view(), sep@),
{
    let n = parts.len();
    let mut r: Vec<char> = Vec::new();
    let mut i: usize = 0;
    proof {
        lemma_pieces_view(*parts);
        assert(parts.deep_view().subrange(0, 0) =~= Seq::<Seq<char>>::empty());
        assert(r@ =~= join_with(parts.deep_view().subrange(0, 0), sep@));
    }
    while i < n
        invariant
            i <= n,
            n == parts@.len(),
            parts.deep_view().len() == n,
            forall|j: int| 0 <= j < n ==> #[trigger] parts.deep_view()[j] == parts@[j]@,
            r@ == join_with(parts.deep_view().subrange(0, i as int), sep@),
        decreases n - i,
    {
        let ghost pre = parts.deep_view().subrange(0, i as int);
        if i > 0 {
            append_chars(&mut r, sep);
        }
        append_chars(&mut r, &parts[i]);
        i = i + 1;
        proof {
            let now = parts.deep_view().subrange(0, i as int);
            assert(now =~= pre.push(parts.deep_view()[i - 1]));
            lemma_join_push(pre, sep@, parts.deep_view()[i - 1]);
        }
    }
    proof {
        assert(parts.deep_view().subrange(0, n as int) =~= parts.deep_view());
    }
    r
}

/// Append every character of `b` to `a`.
pub fn append_chars(a: &mut Vec<char>, b: &Vec<char>)
    ensures
        final(a)@ == old(a)@ + b@,
{
    let n = b.len();
    let mut i: usize = 0;
    while i < n
        invariant
            i <= n,
            n == b@.len(),
            a@ == old(a)@ + b@.subrange(0, i as int),
        decreases n - i,
    {
        a.push(b[i]);
        i = i + 1;
        proof {
            assert(a@ =~= old(a)@ + b@.subrange(0, i as int));
        }
    }
    proof {
        assert(a@ =~= old(a)@ + b@);
    }
}

/// The character of a decimal digit value.
pub open spec fn digit_char_of(d: int) -> char {
    ((48 + d) as u8) as char
}

/// The decimal digits of a non-negative number, most significant first.
pub open spec fn dec_chars(n: int) -> Seq<char>
    decreases n,
{
    if n < 0 {
        Seq::empty()
    } else if n < 10 {
        seq![digit_char_of(n)]
    } else {
        dec_chars(n / 10).push(digit_char_of(n % 10))
    }
}

/// Render a number in decimal.
pub fn dec_chars_of(n: u64) -> (r: Vec<char>)
    ensures
        r@ == dec_chars(n as int),
    decreases n,
{
    if n < 10 {
        let c: char = ((48 + n) as u8) as char;
        let mut r: Vec<char> = Vec::new();
        r.push(c);
        proof {
            assert(r@ =~= seq![digit_char_of(n as int)]);
        }
        r
    } else {
        let mut r = dec_chars_of(n / 10);
        let c: char = ((48 + (n % 10)) as u8) as char;
        r.push(c);
        r
    }
}

} // verus!
