//! Character-level string utilities: substring and suffix tests, token
//! extraction and case-insensitive comparison, used to classify the output
//! lines of spawned processes.

use vstd::prelude::*;

verus! {

/// Relies on std's char::from_u32: the result is the character with scalar
/// value `u` when `u` is a Unicode scalar value (not a surrogate, at most
/// 0x10FFFF), and None otherwise.
pub assume_specification[ char::from_u32 ](u: u32) -> (r: Option<char>)
    ensures
        (u < 0xD800 || (0xE000 <= u && u <= 0x10FFFF)) ==> r == Some(u as char),
        !(u < 0xD800 || (0xE000 <= u && u <= 0x10FFFF)) ==> r is None,
;

/// ASCII whitespace, the delimiter used when picking tokens out of job output.
pub open spec fn is_space(c: char) -> bool {
    c == ' ' || c == '\t' || c == '\r' || c == '\n'
}

/// `needle` occurs in `hay` starting at position `i`.
pub open spec fn matches_at(hay: Seq<char>, needle: Seq<char>, i: int) -> bool {
    &&& 0 <= i
    &&& i + needle.len() <= hay.len()
    &&& hay.subrange(i, i + needle.len()) == needle
}

/// `needle` occurs somewhere in `hay`.
pub open spec fn contains_seq(hay: Seq<char>, needle: Seq<char>) -> bool {
    exists|i: int| matches_at(hay, needle, i)
}

/// `hay` ends with `suffix`.
pub open spec fn ends_with_seq(hay: Seq<char>, suffix: Seq<char>) -> bool {
    &&& hay.len() >= suffix.len()
    &&& hay.subrange(hay.len() - suffix.len(), hay.len() as int) == suffix
}

/// Whether `needle` occurs in `hay` at exactly position `i`.
fn check_match_at(hay: &str, needle: &str, i: usize) -> (b: bool)
    requires
        i + needle@.len() <= hay@.len(),
    ensures
        b == matches_at(hay@, needle@, i as int),
{
    let n = hay.unicode_len();
    let m = needle.unicode_len();
    let mut j: usize = 0;
    while j < m
        invariant
            j <= m,
            n == hay@.len(),
            m == needle@.len(),
            i + m <= n,
            forall|k: int| 0 <= k < j ==> hay@[i + k] == needle@[k],
        decreases m - j,
    {
        if hay.get_char(i + j) != needle.get_char(j) {
            assert(hay@.subrange(i as int, i + m) =~= needle@ ==> hay@.subrange(
                i as int,
                i + m,
            )[j as int] == needle@[j as int]);
            return false;
        }
        j += 1;
    }
    assert(hay@.subrange(i as int, i + m) =~= needle@);
    true
}

/// Substring test over characters.
pub fn str_contains(hay: &str, needle: &str) -> (b: bool)
    ensures
        b == contains_seq(hay@, needle@),
{
    let n = hay.unicode_len();
    let m = needle.unicode_len();
    if m > n {
        return false;
    }
    if m == 0 {
        assert(hay@.subrange(0, 0) =~= needle@);
        assert(matches_at(hay@, needle@, 0));
        return true;
    }
    let end = n - m;
    let mut i: usize = 0;
    while i <= end
        invariant
            n == hay@.len(),
            m == needle@.len(),
            1 <= m <= n,
            end == n - m,
            i <= end + 1,
            forall|k: int| 0 <= k < i ==> !matches_at(hay@, needle@, k),
        decreases end + 1 - i,
    {
        if check_match_at(hay, needle, i) {
            return true;
        }
        i += 1;
    }
    false
}

/// Suffix test over characters.
pub fn str_ends_with(hay: &str, suffix: &str) -> (b: bool)
    ensures
        b == ends_with_seq(hay@, suffix@),
{
    let n = hay.unicode_len();
    let m = suffix.unicode_len();
    if m > n {
        return false;
    }
    check_match_at(hay, suffix, n - m)
}

/// Executable counterpart of [`is_space`].
pub fn is_space_char(c: char) -> (b: bool)
    ensures
        b == is_space(c),
{
    c == ' ' || c == '\t' || c == '\r' || c == '\n'
}

/// Every character of `s` is whitespace (true of the empty string).
pub open spec fn all_space(s: Seq<char>) -> bool {
    forall|i: int| 0 <= i < s.len() ==> is_space(s[i])
}

/// A line is blank when it holds no visible character.
pub fn str_is_blank(s: &str) -> (b: bool)
    ensures
        b == all_space(s@),
{
    let n = s.unicode_len();
    let mut i: usize = 0;
    while i < n
        invariant
            i <= n,
            n == s@.len(),
            forall|k: int| 0 <= k < i ==> is_space(s@[k]),
        decreases n - i,
    {
        if !is_space_char(s.get_char(i)) {
            return false;
        }
        i += 1;
    }
    true
}

/// `s` with its trailing whitespace removed.
pub open spec fn trim_end_spaces(s: Seq<char>) -> Seq<char>
    decreases s.len(),
{
    if s.len() > 0 && is_space(s.last()) {
        trim_end_spaces(s.drop_last())
    } else {
        s
    }
}

/// The maximal non-whitespace suffix of `s`.
pub open spec fn tail_token(s: Seq<char>) -> Seq<char>
    decreases s.len(),
{
    if s.len() > 0 && !is_space(s.last()) {
        tail_token(s.drop_last()).push(s.last())
    } else {
        Seq::empty()
    }
}

/// The last whitespace-delimited token of `s`; empty when `s` holds no
/// visible character.
pub open spec fn last_token(s: Seq<char>) -> Seq<char> {
    tail_token(trim_end_spaces(s))
}

proof fn lemma_trim_end_subrange(s: Seq<char>, e: int)
    requires
        0 <= e <= s.len(),
        forall|k: int| e <= k < s.len() ==> is_space(s[k]),
        e == 0 || !is_space(s[e - 1]),
    ensures
        trim_end_spaces(s) == s.subrange(0, e),
    decreases s.len(),
{
    if e == s.len() {
        if s.len() > 0 {
            assert(!is_space(s.last()));
        }
        assert(s.subrange(0, e) =~= s);
    } else {
        assert(is_space(s.last()));
        let d = s.drop_last();
        assert(forall|k: int| e <= k < d.len() ==> is_space(d[k]));
        lemma_trim_end_subrange(d, e);
        assert(d.subrange(0, e) =~= s.subrange(0, e));
    }
}

proof fn lemma_tail_token_subrange(s: Seq<char>, st: int)
    requires
        0 <= st <= s.len(),
        forall|k: int| st <= k < s.len() ==> !is_space(s[k]),
        st == 0 || is_space(s[st - 1]),
    ensures
        tail_token(s) == s.subrange(st, s.len() as int),
    decreases s.len(),
{
    if st == s.len() {
        if s.len() > 0 {
            assert(is_space(s.last()));
        }
        assert(s.subrange(st, s.len() as int) =~= Seq::<char>::empty());
    } else {
        assert(!is_space(s.last()));
        let d = s.drop_last();
        assert(forall|k: int| st <= k < d.len() ==> !is_space(d[k]));
        lemma_tail_token_subrange(d, st);
        assert(d.subrange(st, d.len() as int).push(s.last()) =~= s.subrange(
            st,
            s.len() as int,
        ));
    }
}

/// The last whitespace-delimited token of a line, as the original slice of it;
/// the empty string when the line is blank. This is how a file path is picked
/// out of a job's output line.
pub fn last_token_of(s: &str) -> (t: &str)
    ensures
        t@ == last_token(s@),
{
    let n = s.unicode_len();
    let mut end: usize = n;
    while end > 0 && is_space_char(s.get_char(end - 1))
        invariant
            end <= n,
            n == s@.len(),
            forall|k: int| end <= k < n ==> is_space(s@[k]),
        decreases end,
    {
        end -= 1;
    }
    let mut start: usize = end;
    while start > 0 && !is_space_char(s.get_char(start - 1))
        invariant
            start <= end <= n,
            n == s@.len(),
            forall|k: int| start <= k < end ==> !is_space(s@[k]),
        decreases start,
    {
        start -= 1;
    }
    proof {
        lemma_trim_end_subrange(s@, end as int);
        let trimmed = s@.subrange(0, end as int);
        lemma_tail_token_subrange(trimmed, start as int);
        assert(trimmed.subrange(start as int, end as int) =~= s@.subrange(
            start as int,
            end as int,
        ));
    }
    s.substring_char(start, end)
}

/// `s` with its leading whitespace removed.
pub open spec fn trim_start_spaces(s: Seq<char>) -> Seq<char>
    decreases s.len(),
{
    if s.len() > 0 && is_space(s.first()) {
        trim_start_spaces(s.drop_first())
    } else {
        s
    }
}

/// `s` with whitespace removed from both ends.
pub open spec fn trim_spaces(s: Seq<char>) -> Seq<char> {
    trim_start_spaces(trim_end_spaces(s))
}

proof fn lemma_trim_start_subrange(s: Seq<char>, b: int)
    requires
        0 <= b <= s.len(),
        forall|k: int| 0 <= k < b ==> is_space(s[k]),
        b == s.len() || !is_space(s[b]),
    ensures
        trim_start_spaces(s) == s.subrange(b, s.len() as int),
    decreases b,
{
    if b == 0 {
        if s.len() > 0 {
            assert(!is_space(s.first()));
        }
        assert(s.subrange(0, s.len() as int) =~= s);
    } else {
        assert(is_space(s.first()));
        let d = s.drop_first();
        assert(forall|k: int| 0 <= k < b - 1 ==> d[k] == s[k + 1] && is_space(d[k]));
        lemma_trim_start_subrange(d, b - 1);
        assert(d.subrange(b - 1, d.len() as int) =~= s.subrange(b, s.len() as int));
    }
}

/// `s` without surrounding whitespace, as when a version probe's output is
/// normalised.
pub fn str_trim(s: &str) -> (t: &str)
    ensures
        t@ == trim_spaces(s@),
{
    let n = s.unicode_len();
    let mut end: usize = n;
    while end > 0 && is_space_char(s.get_char(end - 1))
        invariant
            end <= n,
            n == s@.len(),
            forall|k: int| end <= k < n ==> is_space(s@[k]),
        decreases end,
    {
        end -= 1;
    }
    let mut start: usize = 0;
    while start < end && is_space_char(s.get_char(start))
        invariant
            start <= end <= n,
            n == s@.len(),
            forall|k: int| 0 <= k < start ==> is_space(s@[k]),
        decreases end - start,
    {
        start += 1;
    }
    proof {
        lemma_trim_end_subrange(s@, end as int);
        let trimmed = s@.subrange(0, end as int);
        lemma_trim_start_subrange(trimmed, start as int);
        assert(trimmed.subrange(start as int, end as int) =~= s@.subrange(
            start as int,
            end as int,
        ));
    }
    s.substring_char(start, end)
}

/// The ASCII-lowercase counterpart of a character; anything but an ASCII
/// capital letter is left as it is.
pub open spec fn lower_char(c: char) -> char {
    if 'A' <= c && c <= 'Z' {
        ((c as u32) + 32) as char
    } else {
        c
    }
}

/// Equality of two strings up to ASCII case.
pub open spec fn eq_ignore_case(a: Seq<char>, b: Seq<char>) -> bool {
    &&& a.len() == b.len()
    &&& forall|i: int| 0 <= i < a.len() ==> lower_char(a[i]) == lower_char(b[i])
}

/// Executable counterpart of [`lower_char`].
pub fn lower_char_exec(c: char) -> (r: char)
    ensures
        r == lower_char(c),
{
    if 'A' <= c && c <= 'Z' {
        let u = (c as u32) + 32;
        char::from_u32(u).unwrap()
    } else {
        c
    }
}

/// Case-insensitive (ASCII) string comparison, used to recognise file
/// extensions whatever their case.
pub fn str_eq_ignore_case(a: &str, b: &str) -> (r: bool)
    ensures
        r == eq_ignore_case(a@, b@),
{
    let n = a.unicode_len();
    let m = b.unicode_len();
    if n != m {
        return false;
    }
    let mut i: usize = 0;
    while i < n
        invariant
            i <= n,
            n == a@.len(),
            n == b@.len(),
            forall|k: int| 0 <= k < i ==> lower_char(a@[k]) == lower_char(b@[k]),
        decreases n - i,
    {
        if lower_char_exec(a.get_char(i)) != lower_char_exec(b.get_char(i)) {
            return false;
        }
        i += 1;
    }
    true
}

/// Lexicographic order on character sequences, by Unicode scalar value: the
/// order in which version directory names compare.
pub open spec fn lex_le(a: Seq<char>, b: Seq<char>) -> bool
    decreases a.len(),
{
    if a.len() == 0 {
        true
    } else if b.len() == 0 {
        false
    } else if a.first() == b.first() {
        lex_le(a.drop_first(), b.drop_first())
    } else {
        a.first() < b.first()
    }
}

/// Any two sequences compare one way or the other.
pub proof fn lemma_lex_total(a: Seq<char>, b: Seq<char>)
    ensures
        lex_le(a, b) || lex_le(b, a),
    decreases a.len(),
{
    if a.len() == 0 || b.len() == 0 {
    } else if a.first() == b.first() {
        lemma_lex_total(a.drop_first(), b.drop_first());
    }
}

/// The order is transitive.
pub proof fn lemma_lex_trans(a: Seq<char>, b: Seq<char>, c: Seq<char>)
    requires
        lex_le(a, b),
        lex_le(b, c),
    ensures
        lex_le(a, c),
    decreases a.len(),
{
    if a.len() == 0 {
    } else if b.len() == 0 {
    } else if c.len() == 0 {
    } else {
        if a.first() == b.first() && b.first() == c.first() {
            lemma_lex_trans(a.drop_first(), b.drop_first(), c.drop_first());
        }
    }
}

proof fn lemma_lex_skip(a: Seq<char>, b: Seq<char>, i: int)
    requires
        0 <= i <= a.len(),
        i <= b.len(),
        forall|k: int| 0 <= k < i ==> a[k] == b[k],
    ensures
        lex_le(a, b) == lex_le(a.skip(i), b.skip(i)),
    decreases i,
{
    if i > 0 {
        assert(a.len() > 0 && b.len() > 0);
        assert(a.first() == b.first());
        assert(forall|k: int|
            0 <= k < i - 1 ==> a.drop_first()[k] == a[k + 1] && b.drop_first()[k] == b[k + 1]);
        lemma_lex_skip(a.drop_first(), b.drop_first(), i - 1);
        assert(a.drop_first().skip(i - 1) =~= a.skip(i));
        assert(b.drop_first().skip(i - 1) =~= b.skip(i));
    } else {
        assert(a.skip(0) =~= a);
        assert(b.skip(0) =~= b);
    }
}

/// Lexicographic comparison of two strings.
pub fn str_lex_le(a: &str, b: &str) -> (r: bool)
    ensures
        r == lex_le(a@, b@),
{
    let n = a.unicode_len();
    let m = b.unicode_len();
    let mut i: usize = 0;
    while i < n && i < m
        invariant
            i <= n,
            i <= m,
            n == a@.len(),
            m == b@.len(),
            forall|k: int| 0 <= k < i ==> a@[k] == b@[k],
        decreases n - i,
    {
        let ca = a.get_char(i);
        let cb = b.get_char(i);
        if ca != cb {
            proof {
                lemma_lex_skip(a@, b@, i as int);
                assert(a@.skip(i as int).first() == a@[i as int]);
                assert(b@.skip(i as int).first() == b@[i as int]);
            }
            return ca < cb;
        }
        i += 1;
    }
    proof {
        lemma_lex_skip(a@, b@, i as int);
        if i == n {
            assert(a@.skip(i as int).len() == 0);
        } else {
            assert(b@.skip(i as int).len() == 0);
            assert(a@.skip(i as int).len() > 0);
        }
    }
    n <= m
}

/// `seg` stands as a whole sep-delimited segment of `s` at position `i`.
pub open spec fn is_segment_at(s: Seq<char>, sep: char, seg: Seq<char>, i: int) -> bool {
    &&& matches_at(s, seg, i)
    &&& (i == 0 || s[i - 1] == sep)
    &&& (i + seg.len() == s.len() || s[i + seg.len()] == sep)
}

/// Splitting `s` at `sep` yields `seg` as one of the segments.
pub open spec fn has_segment(s: Seq<char>, sep: char, seg: Seq<char>) -> bool {
    &&& forall|k: int| 0 <= k < seg.len() ==> seg[k] != sep
    &&& exists|i: int| is_segment_at(s, sep, seg, i)
}

/// Whether `seg` is one of the sep-delimited segments of `s`, as when a
/// search-path variable is tested for a directory before prepending it.
pub fn str_has_segment(s: &str, sep: char, seg: &str) -> (b: bool)
    requires
        seg@.len() >= 1,
    ensures
        b == has_segment(s@, sep, seg@),
{
    let m = seg.unicode_len();
    let mut k: usize = 0;
    while k < m
        invariant
            k <= m,
            m == seg@.len(),
            forall|j: int| 0 <= j < k ==> seg@[j] != sep,
        decreases m - k,
    {
        if seg.get_char(k) == sep {
            return false;
        }
        k += 1;
    }
    let n = s.unicode_len();
    if m > n {
        return false;
    }
    let end = n - m;
    let mut i: usize = 0;
    while i <= end
        invariant
            i <= end + 1,
            n == s@.len(),
            m == seg@.len(),
            1 <= m <= n,
            end == n - m,
            forall|j: int| 0 <= j < m ==> seg@[j] != sep,
            forall|j: int| 0 <= j < i ==> !is_segment_at(s@, sep, seg@, j),
        decreases end + 1 - i,
    {
        let left_ok = i == 0 || s.get_char(i - 1) == sep;
        let right_ok = i + m == n || s.get_char(i + m) == sep;
        if left_ok && right_ok && check_match_at(s, seg, i) {
            assert(is_segment_at(s@, sep, seg@, i as int));
            return true;
        }
        i += 1;
    }
    false
}

/// The lines joined with `sep` between each neighbouring pair.
pub open spec fn join_with(lines: Seq<Seq<char>>, sep: Seq<char>) -> Seq<char>
    decreases lines.len(),
{
    if lines.len() == 0 {
        Seq::empty()
    } else if lines.len() == 1 {
        lines[0]
    } else {
        lines[0] + sep + join_with(lines.drop_first(), sep)
    }
}

proof fn lemma_join_push(lines: Seq<Seq<char>>, sep: Seq<char>, x: Seq<char>)
    ensures
        lines.len() == 0 ==> join_with(lines.push(x), sep) == x,
        lines.len() > 0 ==> join_with(lines.push(x), sep) == join_with(lines, sep) + sep + x,
    decreases lines.len(),
{
    let p = lines.push(x);
    if lines.len() == 0 {
        assert(p.len() == 1);
        assert(p[0] == x);
    } else if lines.len() == 1 {
        assert(p.len() == 2);
        assert(p[0] == lines[0]);
        assert(p.drop_first() =~= seq![x]);
        assert(join_with(p.drop_first(), sep) == x);
    } else {
        lemma_join_push(lines.drop_first(), sep, x);
        assert(p.drop_first() =~= lines.drop_first().push(x));
        assert(join_with(lines.drop_first().push(x), sep) == join_with(lines.drop_first(), sep)
            + sep + x);
        assert(join_with(p, sep) == p[0] + sep + join_with(p.drop_first(), sep));
        assert(p[0] == lines[0]);
        assert(lines[0] + sep + (join_with(lines.drop_first(), sep) + sep + x) =~= (lines[0] + sep
            + join_with(lines.drop_first(), sep)) + sep + x);
    }
}

/// Join the lines with `sep`, as when a captured transcript or an error
/// buffer is turned into one message.
pub fn join_lines(lines: &Vec<String>, sep: &str) -> (r: String)
    ensures
        r@ == join_with(lines.deep_view(), sep@),
{
    let ghost all = lines.deep_view();
    let mut r = String::new();
    let mut i: usize = 0;
    while i < lines.len()
        invariant
            i <= lines.len(),
            all == lines.deep_view(),
            all.len() == lines.len(),
            r@ == join_with(all.take(i as int), sep@),
            forall|k: int| 0 <= k < all.len() ==> all[k] == lines@[k]@,
        decreases lines.len() - i,
    {
        if i > 0 {
            r.append(sep);
        }
        r.append(lines[i].as_str());
        proof {
            lemma_join_push(all.take(i as int), sep@, all[i as int]);
            assert(all.take(i + 1) =~= all.take(i as int).push(all[i as int]));
        }
        i += 1;
    }
    proof {
        assert(all.take(lines.len() as int) =~= all);
    }
    r
}

} // verus!
