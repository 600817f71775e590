//! Text primitives on which the emitters are built.
//!
//! Everything here works on whole characters; the view of a string is its
//! sequence of characters.

use vstd::prelude::*;
use vstd::string::*;

verus! {

/// The lowercase form of a text, as `str::to_lowercase` computes it.
pub uninterp spec fn lowercase_text(s: Seq<char>) -> Seq<char>;

/// The uppercase form of a text, as `str::to_uppercase` computes it.
pub uninterp spec fn uppercase_text(s: Seq<char>) -> Seq<char>;

/// Appends one character to the end of `s`.
///
/// Trusted: `String::push` adds exactly the given character after the
/// existing contents.
#[verifier::external_body]
pub(crate) fn push_char(s: &mut String, c: char)
    ensures
        final(s)@ == old(s)@.push(c),
{
    s.push(c)
}

/// Trusted: names the result of `str::to_lowercase`, which depends on the
/// text alone.
#[verifier::external_body]
pub(crate) fn to_lowercase(s: &str) -> (r: String)
    ensures
        r@ == lowercase_text(s@),
{
    s.to_lowercase()
}

/// Trusted: names the result of `str::to_uppercase`, which depends on the
/// text alone.
#[verifier::external_body]
pub(crate) fn to_uppercase(s: &str) -> (r: String)
    ensures
        r@ == uppercase_text(s@),
{
    s.to_uppercase()
}

/// Whether a character is an ASCII character.
pub open spec fn is_ascii_char(c: char) -> bool {
    c <= '\u{7f}'
}

/// ASCII lowercase: `A`..`Z` map to `a`..`z`, every other character to itself.
pub open spec fn ascii_lower(c: char) -> char {
    if 'A' <= c && c <= 'Z' {
        ((c as u8) + 32) as char
    } else {
        c
    }
}

/// The ASCII lowercase of one character.
pub fn to_ascii_lower(c: char) -> (r: char)
    ensures
        r == ascii_lower(c),
{
    if 'A' <= c && c <= 'Z' {
        ((c as u8) + 32) as char
    } else {
        c
    }
}

/// The lowercase of one character. An ASCII letter has its ASCII lowercase
/// and any other ASCII character is itself. Beyond ASCII it is the first
/// character of the lowercase form of the text that holds the character
/// alone, or the character itself where that form is empty.
pub open spec fn lower_char(c: char) -> char {
    if is_ascii_char(c) {
        ascii_lower(c)
    } else {
        let lowered = lowercase_text(seq![c]);
        if lowered.len() > 0 {
            lowered[0]
        } else {
            c
        }
    }
}

/// The uppercase of one character. An ASCII letter has its ASCII uppercase
/// and any other ASCII character is itself. Beyond ASCII it is the first
/// character of the uppercase form of the text that holds the character
/// alone, or the character itself where that form is empty.
pub open spec fn upper_char(c: char) -> char {
    if is_ascii_char(c) {
        ascii_upper(c)
    } else {
        let raised = uppercase_text(seq![c]);
        if raised.len() > 0 {
            raised[0]
        } else {
            c
        }
    }
}

/// The text that holds `c` alone.
fn single(c: char) -> (r: String)
    ensures
        r@ == seq![c],
{
    let mut s = String::new();
    push_char(&mut s, c);
    assert(s@ =~= seq![c]);
    s
}

/// The lowercase of one character.
pub fn lower(c: char) -> (r: char)
    ensures
        r == lower_char(c),
{
    if c <= '\u{7f}' {
        to_ascii_lower(c)
    } else {
        let lowered = chars_of(to_lowercase(single(c).as_str()).as_str());
        if lowered.len() > 0 {
            lowered[0]
        } else {
            c
        }
    }
}

/// The uppercase of one character.
pub fn upper(c: char) -> (r: char)
    ensures
        r == upper_char(c),
{
    if c <= '\u{7f}' {
        to_ascii_upper(c)
    } else {
        let raised = chars_of(to_uppercase(single(c).as_str()).as_str());
        if raised.len() > 0 {
            raised[0]
        } else {
            c
        }
    }
}

/// Each character of an ASCII text in ASCII lowercase.
pub open spec fn ascii_lowered(s: Seq<char>) -> Seq<char> {
    Seq::new(s.len(), |i: int| ascii_lower(s[i]))
}

/// Each character of an ASCII text in ASCII uppercase.
pub open spec fn ascii_raised(s: Seq<char>) -> Seq<char> {
    Seq::new(s.len(), |i: int| ascii_upper(s[i]))
}

/// Whether every character of a text is an ASCII character.
pub open spec fn is_ascii_text(s: Seq<char>) -> bool {
    forall|i: int| 0 <= i < s.len() ==> is_ascii_char(#[trigger] s[i])
}

/// The lowercase form of a text. An ASCII text has each letter in ASCII
/// lowercase; any other text has the form that `str::to_lowercase` gives it.
pub open spec fn lowered_text(s: Seq<char>) -> Seq<char> {
    if is_ascii_text(s) {
        ascii_lowered(s)
    } else {
        lowercase_text(s)
    }
}

/// The uppercase form of a text. An ASCII text has each letter in ASCII
/// uppercase; any other text has the form that `str::to_uppercase` gives it.
pub open spec fn raised_text(s: Seq<char>) -> Seq<char> {
    if is_ascii_text(s) {
        ascii_raised(s)
    } else {
        uppercase_text(s)
    }
}

/// Whether every character of `chars` is an ASCII character.
fn all_ascii(chars: &Vec<char>) -> (r: bool)
    ensures
        r == is_ascii_text(chars@),
{
    let mut i: usize = 0;
    while i < chars.len()
        invariant
            i <= chars.len(),
            forall|j: int| 0 <= j < i ==> is_ascii_char(#[trigger] chars@[j]),
        decreases chars.len() - i,
    {
        if chars[i] > '\u{7f}' {
            return false;
        }
        i += 1;
    }
    true
}

/// The lowercase form of a text.
pub fn lowercase(s: &str) -> (r: String)
    ensures
        r@ == lowered_text(s@),
{
    let chars = chars_of(s);
    if all_ascii(&chars) {
        let mut out = String::new();
        let mut i: usize = 0;
        while i < chars.len()
            invariant
                i <= chars.len(),
                out@ == ascii_lowered(chars@.take(i as int)),
            decreases chars.len() - i,
        {
            push_char(&mut out, to_ascii_lower(chars[i]));
            assert(ascii_lowered(chars@.take(i + 1)) =~= ascii_lowered(chars@.take(i as int)).push(
                ascii_lower(chars@[i as int]),
            ));
            i += 1;
        }
        assert(chars@.take(chars.len() as int) =~= chars@);
        out
    } else {
        to_lowercase(s)
    }
}

/// The uppercase form of a text.
pub fn uppercase(s: &str) -> (r: String)
    ensures
        r@ == raised_text(s@),
{
    let chars = chars_of(s);
    if all_ascii(&chars) {
        let mut out = String::new();
        let mut i: usize = 0;
        while i < chars.len()
            invariant
                i <= chars.len(),
                out@ == ascii_raised(chars@.take(i as int)),
            decreases chars.len() - i,
        {
            push_char(&mut out, to_ascii_upper(chars[i]));
            assert(ascii_raised(chars@.take(i + 1)) =~= ascii_raised(chars@.take(i as int)).push(
                ascii_upper(chars@[i as int]),
            ));
            i += 1;
        }
        assert(chars@.take(chars.len() as int) =~= chars@);
        out
    } else {
        to_uppercase(s)
    }
}

/// ASCII uppercase: `a`..`z` map to `A`..`Z`, every other character to itself.
pub open spec fn ascii_upper(c: char) -> char {
    if 'a' <= c && c <= 'z' {
        ((c as u8) - 32) as char
    } else {
        c
    }
}

/// The ASCII uppercase of one character.
pub fn to_ascii_upper(c: char) -> (r: char)
    ensures
        r == ascii_upper(c),
{
    if 'a' <= c && c <= 'z' {
        ((c as u8) - 32) as char
    } else {
        c
    }
}

/// The characters of a string, in order.
pub fn chars_of(s: &str) -> (r: Vec<char>)
    ensures
        r@ == s@,
{
    let mut out: Vec<char> = Vec::new();
    for c in it: s.chars()
        invariant
            it.seq() == s@,
            out@ == s@.take(it.index()),
    {
        out.push(c);
        assert(s@.take(it.index() + 1) =~= s@.take(it.index()).push(c));
    }
    assert(s@.take(s@.len() as int) =~= s@);
    out
}

/// The string made of `chars[from..to]`.
pub fn text_of(chars: &Vec<char>, from: usize, to: usize) -> (r: String)
    requires
        from <= to <= chars.len(),
    ensures
        r@ == chars@.subrange(from as int, to as int),
{
    let mut out = String::new();
    let mut i: usize = from;
    while i < to
        invariant
            from <= i <= to <= chars.len(),
            out@ == chars@.subrange(from as int, i as int),
        decreases to - i,
    {
        push_char(&mut out, chars[i]);
        assert(chars@.subrange(from as int, i + 1) =~= chars@.subrange(from as int, i as int).push(
            chars@[i as int],
        ));
        i += 1;
    }
    out
}

/// Whether two strings hold the same characters.
pub fn same_text(a: &str, b: &str) -> (r: bool)
    ensures
        r == (a@ == b@),
{
    let x = a.to_owned();
    let y = b.to_owned();
    x == y
}

/// Whether `s` ends with `suffix`.
pub fn has_suffix(s: &str, suffix: &str) -> (r: bool)
    ensures
        r == suffix@.is_suffix_of(s@),
{
    let a = chars_of(s);
    let b = chars_of(suffix);
    if b.len() > a.len() {
        return false;
    }
    let start: usize = a.len() - b.len();
    let tail = text_of(&a, start, a.len());
    let r = same_text(tail.as_str(), suffix);
    proof {
        assert(s@.skip(s@.len() - suffix@.len()) =~= s@.subrange(start as int, s@.len() as int));
    }
    r
}

/// The decimal digits of `n`, most significant first.
pub open spec fn decimal_text(n: nat) -> Seq<char>
    decreases n,
{
    if n < 10 {
        seq![digit_char(n)]
    } else {
        decimal_text(n / 10).push(digit_char(n % 10))
    }
}

/// The character of one decimal digit.
pub open spec fn digit_char(d: nat) -> char
    recommends
        d < 10,
{
    ((48 + d) as u8) as char
}

/// Writes `n` in decimal.
pub fn decimal(n: usize) -> (r: String)
    ensures
        r@ == decimal_text(n as nat),
    decreases n,
{
    if n < 10 {
        let mut out = String::new();
        push_char(&mut out, ((48 + n) as u8) as char);
        out
    } else {
        let mut out = decimal(n / 10);
        push_char(&mut out, ((48 + n % 10) as u8) as char);
        out
    }
}

/// The texts of `parts`, each followed by nothing, with `sep` between
/// neighbours.
pub open spec fn joined(parts: Seq<Seq<char>>, sep: Seq<char>) -> Seq<char>
    decreases parts.len(),
{
    if parts.len() == 0 {
        Seq::empty()
    } else if parts.len() == 1 {
        parts[0]
    } else {
        joined(parts.drop_last(), sep) + sep + parts.last()
    }
}

/// The views of a list of strings.
pub open spec fn texts(v: Seq<String>) -> Seq<Seq<char>> {
    Seq::new(v.len(), |i: int| v[i]@)
}

/// Joins `parts` with `sep` between neighbours.
pub fn join(parts: &Vec<String>, sep: &str) -> (r: String)
    ensures
        r@ == joined(texts(parts@), sep@),
{
    let mut out = String::new();
    let mut i: usize = 0;
    while i < parts.len()
        invariant
            i <= parts.len(),
            out@ == joined(texts(parts@).take(i as int), sep@),
        decreases parts.len() - i,
    {
        if i > 0 {
            out.append(sep);
        }
        out.append(parts[i].as_str());
        proof {
            let t = texts(parts@);
            assert(t.take(i + 1).drop_last() =~= t.take(i as int));
            assert(t.take(i + 1).last() == parts@[i as int]@);
            if i == 0 {
                assert(out@ =~= parts@[0]@);
            }
        }
        i += 1;
    }
    assert(texts(parts@).take(parts.len() as int) =~= texts(parts@));
    out
}

/// The position of the first line feed in `s`; the length of `s` where it
/// holds none.
pub open spec fn first_newline(s: Seq<char>) -> int
    decreases s.len(),
{
    if s.len() == 0 {
        0
    } else if s[0] == '\n' {
        0
    } else {
        1 + first_newline(s.drop_first())
    }
}

/// A line without the carriage return that ends it, where one does.
pub open spec fn without_cr(line: Seq<char>) -> Seq<char> {
    if line.len() > 0 && line.last() == '\r' {
        line.drop_last()
    } else {
        line
    }
}

/// The lines of a text. A line ends with a line feed, or with a carriage
/// return and a line feed; neither belongs to the line. The last line needs
/// no ending, and an ending at the end of the text starts no further line.
pub open spec fn lines_of(s: Seq<char>) -> Seq<Seq<char>>
    decreases s.len(),
{
    if s.len() == 0 {
        Seq::empty()
    } else {
        let n = first_newline(s);
        if n < 0 || n >= s.len() {
            seq![s]
        } else {
            seq![without_cr(s.take(n))] + lines_of(s.skip(n + 1))
        }
    }
}

/// The first line feed of a text is where a line feed stands with none
/// before it.
pub proof fn lemma_first_newline(s: Seq<char>, n: int)
    requires
        0 <= n <= s.len(),
        forall|j: int| 0 <= j < n ==> s[j] != '\n',
        n < s.len() ==> s[n] == '\n',
    ensures
        first_newline(s) == n,
    decreases n,
{
    if n > 0 {
        let rest = s.drop_first();
        assert forall|j: int| 0 <= j < n - 1 implies rest[j] != '\n' by {
            assert(rest[j] == s[j + 1]);
        }
        lemma_first_newline(rest, n - 1);
    }
}

/// Splits a text into its lines.
pub fn split_lines(s: &str) -> (r: Vec<String>)
    ensures
        texts(r@) == lines_of(s@),
{
    let chars = chars_of(s);
    let mut out: Vec<String> = Vec::new();
    let mut start: usize = 0;
    let mut i: usize = 0;
    assert(s@.skip(0) =~= s@);
    while i < chars.len()
        invariant
            start <= i <= chars.len(),
            chars@ == s@,
            lines_of(s@) == texts(out@) + lines_of(s@.skip(start as int)),
            forall|j: int| start <= j < i ==> s@[j] != '\n',
        decreases chars.len() - i,
    {
        if chars[i] == '\n' {
            let end: usize = if i > start && chars[i - 1] == '\r' {
                i - 1
            } else {
                i
            };
            let line = text_of(&chars, start, end);
            proof {
                let rest = s@.skip(start as int);
                lemma_first_newline(rest, i - start);
                assert(rest.take(i - start) =~= s@.subrange(start as int, i as int));
                assert(line@ =~= without_cr(rest.take(i - start)));
                assert(rest.skip(i - start + 1) =~= s@.skip(i + 1));
                assert(texts(out@.push(line)) =~= texts(out@).push(line@));
                assert(texts(out@) + (seq![line@] + lines_of(s@.skip(i + 1))) =~= texts(out@).push(
                    line@,
                ) + lines_of(s@.skip(i + 1)));
            }
            out.push(line);
            start = i + 1;
        }
        i += 1;
    }
    if start < chars.len() {
        let line = text_of(&chars, start, chars.len());
        proof {
            let rest = s@.skip(start as int);
            lemma_first_newline(rest, rest.len() as int);
            assert(line@ =~= rest);
            assert(texts(out@.push(line)) =~= texts(out@).push(line@));
            assert(texts(out@) + seq![rest] =~= texts(out@).push(rest));
        }
        out.push(line);
    } else {
        proof {
            assert(s@.skip(start as int).len() == 0);
            assert(texts(out@) + Seq::<Seq<char>>::empty() =~= texts(out@));
        }
    }
    out
}

/// The lines of a comment: each of `lines` behind ` * `, one below the
/// other.
pub open spec fn comment_text(lines: Seq<Seq<char>>) -> Seq<char> {
    joined(starred(lines), "\n"@)
}

/// Each of `lines` behind ` * `.
pub open spec fn starred(lines: Seq<Seq<char>>) -> Seq<Seq<char>> {
    Seq::new(lines.len(), |i: int| " * "@ + lines[i])
}

/// Writes `lines` as the lines of a comment.
pub fn comment(lines: &Vec<String>) -> (r: String)
    ensures
        r@ == comment_text(texts(lines@)),
{
    let mut marked: Vec<String> = Vec::new();
    let mut i: usize = 0;
    while i < lines.len()
        invariant
            i <= lines.len(),
            marked.len() == i,
            forall|j: int| 0 <= j < i ==> (#[trigger] marked@[j])@ == " * "@ + lines@[j]@,
        decreases lines.len() - i,
    {
        let mut line = String::from_str(" * ");
        line.append(lines[i].as_str());
        marked.push(line);
        i += 1;
    }
    assert(texts(marked@) =~= starred(texts(lines@)));
    join(&marked, "\n")
}

/// Whether a character is white space: one of the characters with the
/// Unicode property White_Space.
pub open spec fn is_white_space(c: char) -> bool {
    ('\u{9}' <= c && c <= '\u{d}') || c == ' ' || c == '\u{85}' || c == '\u{a0}' || c
        == '\u{1680}' || ('\u{2000}' <= c && c <= '\u{200a}') || c == '\u{2028}' || c
        == '\u{2029}' || c == '\u{202f}' || c == '\u{205f}' || c == '\u{3000}'
}

/// Whether a character is white space.
pub fn white_space(c: char) -> (r: bool)
    ensures
        r == is_white_space(c),
{
    ('\u{9}' <= c && c <= '\u{d}') || c == ' ' || c == '\u{85}' || c == '\u{a0}' || c
        == '\u{1680}' || ('\u{2000}' <= c && c <= '\u{200a}') || c == '\u{2028}' || c
        == '\u{2029}' || c == '\u{202f}' || c == '\u{205f}' || c == '\u{3000}'
}

/// A text without the white space at its head.
pub open spec fn trimmed_start(s: Seq<char>) -> Seq<char>
    decreases s.len(),
{
    if s.len() > 0 && is_white_space(s[0]) {
        trimmed_start(s.drop_first())
    } else {
        s
    }
}

/// A text without the white space at its end.
pub open spec fn trimmed_end(s: Seq<char>) -> Seq<char>
    decreases s.len(),
{
    if s.len() > 0 && is_white_space(s.last()) {
        trimmed_end(s.drop_last())
    } else {
        s
    }
}

/// A text without the white space at its head and at its end.
pub open spec fn trimmed_text(s: Seq<char>) -> Seq<char> {
    trimmed_end(trimmed_start(s))
}

/// Takes the white space off the head and the end of a text.
pub fn trim(s: &str) -> (r: String)
    ensures
        r@ == trimmed_text(s@),
{
    let chars = chars_of(s);
    let mut start: usize = 0;
    assert(s@.skip(0) =~= s@);
    while start < chars.len() && white_space(chars[start])
        invariant
            start <= chars.len(),
            chars@ == s@,
            trimmed_start(s@) == trimmed_start(s@.skip(start as int)),
        decreases chars.len() - start,
    {
        assert(s@.skip(start as int).drop_first() =~= s@.skip(start + 1));
        start += 1;
    }
    assert(trimmed_start(s@) == s@.skip(start as int));
    let mut end: usize = chars.len();
    assert(s@.skip(start as int) =~= s@.subrange(start as int, end as int));
    while end > start && white_space(chars[end - 1])
        invariant
            start <= end <= chars.len(),
            chars@ == s@,
            trimmed_text(s@) == trimmed_end(s@.subrange(start as int, end as int)),
        decreases end - start,
    {
        assert(s@.subrange(start as int, end as int).drop_last() =~= s@.subrange(
            start as int,
            end - 1,
        ));
        end -= 1;
    }
    text_of(&chars, start, end)
}

} // verus!
