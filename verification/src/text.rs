//! Text helpers over the character view of strings.
use vstd::prelude::*;
use vstd::std_specs::iter::IteratorSpec;
use vstd::string::*;

verus! {

/// `String::push` appends one character at the end of the string.
pub assume_specification[ String::push ](s: &mut String, c: char)
    ensures
        final(s)@ == old(s)@.push(c),
;

/// The character views of a sequence of strings.
pub open spec fn texts(v: Seq<String>) -> Seq<Seq<char>> {
    v.map_values(|s: String| s@)
}

/// The character of one decimal digit.
pub open spec fn digit(d: nat) -> char {
    ('0' as nat + d) as char
}

/// The decimal numeral of a natural number, without leading zeros.
pub open spec fn decimal(n: nat) -> Seq<char>
    decreases n,
{
    if n < 10 {
        seq![digit(n)]
    } else {
        decimal(n / 10).push(digit(n % 10))
    }
}

/// The decimal numeral of an integer, with a leading minus sign when negative.
pub open spec fn signed_decimal(i: int) -> Seq<char> {
    if i < 0 {
        seq!['-'] + decimal((-i) as nat)
    } else {
        decimal(i as nat)
    }
}

/// Appends the decimal numeral of `n`.
pub fn push_decimal(out: &mut String, n: u64)
    ensures
        final(out)@ == old(out)@ + decimal(n as nat),
    decreases n,
{
    if n >= 10 {
        push_decimal(out, n / 10);
    }
    let d: u8 = (n % 10) as u8;
    let c: char = (48u8 + d) as char;
    out.push(c);
}

/// Appends the decimal numeral of `i`.
pub fn push_signed(out: &mut String, i: i64)
    ensures
        final(out)@ == old(out)@ + signed_decimal(i as int),
{
    if i < 0 {
        out.push('-');
        let m: u64 = if i == i64::MIN {
            9223372036854775808u64
        } else {
            (-i) as u64
        };
        push_decimal(out, m);
    } else {
        push_decimal(out, i as u64);
    }
}

/// The characters of a string.
pub fn chars_of(s: &str) -> (chars: Vec<char>)
    ensures
        chars@ == s@,
{
    let mut chars: Vec<char> = Vec::new();
    for c in it: s.chars()
        invariant
            it.seq() == s@,
            chars@ == s@.take(it.index()),
    {
        chars.push(c);
    }
    chars
}

/// The string made of `chars[from..to]`.
pub fn string_of(chars: &Vec<char>, from: usize, to: usize) -> (s: String)
    requires
        from <= to <= chars.len(),
    ensures
        s@ == chars@.subrange(from as int, to as int),
{
    let mut s: String = String::new();
    let mut i: usize = from;
    while i < to
        invariant
            from <= i <= to <= chars.len(),
            s@ == chars@.subrange(from as int, i as int),
        decreases to - i,
    {
        s.push(chars[i]);
        i = i + 1;
    }
    s
}

/// The position of the first `c` in `s`, or the length of `s` where there is none.
pub open spec fn find(s: Seq<char>, c: char) -> nat
    decreases s.len(),
{
    if s.len() == 0 || s[0] == c {
        0
    } else {
        1 + find(s.drop_first(), c)
    }
}

/// `find` is the only position with these two properties.
pub proof fn lemma_find(s: Seq<char>, c: char, i: int)
    requires
        0 <= i <= s.len(),
        forall|j: int| 0 <= j < i ==> s[j] != c,
        i < s.len() ==> s[i] == c,
    ensures
        find(s, c) == i,
    decreases s.len(),
{
    if i > 0 {
        assert(s[0] != c);
        assert forall|j: int| 0 <= j < i - 1 implies s.drop_first()[j] != c by {
            assert(s[j + 1] != c);
        }
        lemma_find(s.drop_first(), c, i - 1);
    }
}

/// `find` stays within the text, and finds the first occurrence.
pub proof fn lemma_find_bound(s: Seq<char>, c: char)
    ensures
        find(s, c) <= s.len(),
        find(s, c) < s.len() ==> s[find(s, c) as int] == c,
        forall|j: int| 0 <= j < find(s, c) ==> s[j] != c,
    decreases s.len(),
{
    if s.len() > 0 && s[0] != c {
        lemma_find_bound(s.drop_first(), c);
        assert forall|j: int| 0 <= j < find(s, c) implies s[j] != c by {
            if j > 0 {
                assert(s.drop_first()[j - 1] != c);
            }
        }
    }
}

/// The first position at or after `from` that holds `c`, or the length of `chars`.
pub fn find_from(chars: &Vec<char>, c: char, from: usize) -> (i: usize)
    requires
        from <= chars.len(),
    ensures
        from <= i <= chars.len(),
        i < chars.len() ==> chars[i as int] == c,
        forall|j: int| from <= j < i ==> chars[j] != c,
        i - from == find(chars@.skip(from as int), c),
{
    let mut i: usize = from;
    while i < chars.len() && chars[i] != c
        invariant
            from <= i <= chars.len(),
            forall|j: int| from <= j < i ==> chars[j] != c,
        decreases chars.len() - i,
    {
        i = i + 1;
    }
    proof {
        let t = chars@.skip(from as int);
        assert forall|j: int| 0 <= j < i - from implies t[j] != c by {
            assert(chars[from + j] != c);
        }
        lemma_find(t, c, i - from);
    }
    i
}

/// A line without the carriage return that precedes its line feed.
pub open spec fn strip_cr(line: Seq<char>) -> Seq<char> {
    if line.len() > 0 && line.last() == '\r' {
        line.drop_last()
    } else {
        line
    }
}

/// The lines of a text: each ends in a line feed, before which one carriage
/// return is dropped; the last line may lack its line feed.
pub open spec fn spec_lines(s: Seq<char>) -> Seq<Seq<char>>
    decreases s.len(),
{
    let i = find(s, '\n') as int;
    if s.len() == 0 {
        seq![]
    } else if i < s.len() {
        seq![strip_cr(s.take(i))] + spec_lines(s.skip(i + 1))
    } else {
        seq![s]
    }
}

/// The lines of a text.
pub fn lines(s: &str) -> (out: Vec<String>)
    ensures
        texts(out@) == spec_lines(s@),
{
    let chars: Vec<char> = chars_of(s);
    let mut out: Vec<String> = Vec::new();
    let mut p: usize = 0;
    proof {
        assert(s@.skip(0) == s@);
        assert(texts(out@) + spec_lines(s@.skip(0)) == spec_lines(s@));
    }
    while p < chars.len()
        invariant
            chars@ == s@,
            p <= chars.len(),
            texts(out@) + spec_lines(s@.skip(p as int)) == spec_lines(s@),
        decreases chars.len() - p,
    {
        let i: usize = find_from(&chars, '\n', p);
        let ghost rest = s@.skip(p as int);
        let ghost before = texts(out@);
        if i < chars.len() {
            let end: usize = if i > p && chars[i - 1] == '\r' {
                i - 1
            } else {
                i
            };
            let line: String = string_of(&chars, p, end);
            proof {
                assert(rest.take(i - p) == s@.subrange(p as int, i as int));
                assert(line@ == strip_cr(rest.take(i - p)));
                assert(rest.skip(i - p + 1) == s@.skip(i + 1));
                assert(texts(out@.push(line)) == before.push(line@));
                assert(before + (seq![line@] + spec_lines(s@.skip(i + 1))) == before.push(line@)
                    + spec_lines(s@.skip(i + 1)));
            }
            out.push(line);
            p = i + 1;
        } else {
            let line: String = string_of(&chars, p, i);
            proof {
                assert(line@ == rest);
                assert(texts(out@.push(line)) == before.push(line@));
                assert(before + seq![line@] == before.push(line@));
                assert(s@.skip(i as int).len() == 0);
                assert(before.push(line@) + spec_lines(s@.skip(i as int)) == before.push(line@));
            }
            out.push(line);
            p = i;
        }
    }
    proof {
        assert(s@.skip(p as int).len() == 0);
        assert(texts(out@) + spec_lines(s@.skip(p as int)) == texts(out@));
    }
    out
}

/// The pieces of `s` between the occurrences of `c`; always at least one.
pub open spec fn spec_split(s: Seq<char>, c: char) -> Seq<Seq<char>>
    decreases s.len(),
{
    let i = find(s, c) as int;
    if i < s.len() {
        seq![s.take(i)] + spec_split(s.skip(i + 1), c)
    } else {
        seq![s]
    }
}

/// The pieces of a text between the occurrences of `c`.
pub fn split(s: &str, c: char) -> (out: Vec<String>)
    ensures
        texts(out@) == spec_split(s@, c),
        out.len() >= 1,
{
    let chars: Vec<char> = chars_of(s);
    let mut out: Vec<String> = Vec::new();
    let mut p: usize = 0;
    proof {
        assert(s@.skip(0) == s@);
        assert(texts(out@) + spec_split(s@.skip(0), c) == spec_split(s@, c));
    }
    let mut i: usize = find_from(&chars, c, p);
    while i < chars.len()
        invariant
            chars@ == s@,
            p <= i <= chars.len(),
            i - p == find(s@.skip(p as int), c),
            texts(out@) + spec_split(s@.skip(p as int), c) == spec_split(s@, c),
        decreases chars.len() - p,
    {
        let ghost rest = s@.skip(p as int);
        let ghost before = texts(out@);
        let piece: String = string_of(&chars, p, i);
        proof {
            assert(rest.take(i - p) == piece@);
            assert(rest.skip(i - p + 1) == s@.skip(i + 1));
            assert(texts(out@.push(piece)) == before.push(piece@));
            assert(before + (seq![piece@] + spec_split(s@.skip(i + 1), c)) == before.push(piece@)
                + spec_split(s@.skip(i + 1), c));
        }
        out.push(piece);
        p = i + 1;
        i = find_from(&chars, c, p);
    }
    let ghost before = texts(out@);
    let piece: String = string_of(&chars, p, i);
    proof {
        assert(piece@ == s@.skip(p as int));
        assert(texts(out@.push(piece)) == before.push(piece@));
        assert(before + seq![piece@] == before.push(piece@));
    }
    out.push(piece);
    out
}

/// Characters with the Unicode `White_Space` property.
pub open spec fn spec_is_whitespace(c: char) -> bool {
    let u = c as u32;
    ||| 0x09 <= u <= 0x0d
    ||| u == 0x20
    ||| u == 0x85
    ||| u == 0xa0
    ||| u == 0x1680
    ||| 0x2000 <= u <= 0x200a
    ||| u == 0x2028
    ||| u == 0x2029
    ||| u == 0x202f
    ||| u == 0x205f
    ||| u == 0x3000
}

/// Whether a character has the Unicode `White_Space` property.
pub fn is_whitespace(c: char) -> (b: bool)
    ensures
        b == spec_is_whitespace(c),
{
    let u: u32 = c as u32;
    (u >= 0x09 && u <= 0x0d) || u == 0x20 || u == 0x85 || u == 0xa0 || u == 0x1680 || (u >= 0x2000
        && u <= 0x200a) || u == 0x2028 || u == 0x2029 || u == 0x202f || u == 0x205f || u == 0x3000
}

/// The text without leading white space.
pub open spec fn spec_trim_start(s: Seq<char>) -> Seq<char>
    decreases s.len(),
{
    if s.len() > 0 && spec_is_whitespace(s[0]) {
        spec_trim_start(s.drop_first())
    } else {
        s
    }
}

/// The text without trailing white space.
pub open spec fn spec_trim_end(s: Seq<char>) -> Seq<char>
    decreases s.len(),
{
    if s.len() > 0 && spec_is_whitespace(s.last()) {
        spec_trim_end(s.drop_last())
    } else {
        s
    }
}

/// The text without white space at either end.
pub open spec fn spec_trim(s: Seq<char>) -> Seq<char> {
    spec_trim_end(spec_trim_start(s))
}

/// The text without white space at either end.
pub fn trim(s: &str) -> (out: String)
    ensures
        out@ == spec_trim(s@),
{
    let chars: Vec<char> = chars_of(s);
    let mut from: usize = 0;
    proof {
        assert(s@.skip(0) == s@);
    }
    while from < chars.len() && is_whitespace(chars[from])
        invariant
            chars@ == s@,
            from <= chars.len(),
            spec_trim_start(s@.skip(from as int)) == spec_trim_start(s@),
        decreases chars.len() - from,
    {
        proof {
            assert(s@.skip(from as int).drop_first() == s@.skip(from + 1));
        }
        from = from + 1;
    }
    let ghost mid = s@.skip(from as int);
    let mut to: usize = chars.len();
    proof {
        assert(s@.subrange(from as int, to as int) == mid);
    }
    while to > from && is_whitespace(chars[to - 1])
        invariant
            chars@ == s@,
            from <= to <= chars.len(),
            spec_trim_end(s@.subrange(from as int, to as int)) == spec_trim_end(mid),
        decreases to - from,
    {
        proof {
            assert(s@.subrange(from as int, to as int).drop_last() == s@.subrange(
                from as int,
                to - 1,
            ));
        }
        to = to - 1;
    }
    string_of(&chars, from, to)
}

/// The length of the first run of characters that are not white space.
pub open spec fn word_len(s: Seq<char>) -> nat
    decreases s.len(),
{
    if s.len() == 0 || spec_is_whitespace(s[0]) {
        0
    } else {
        1 + word_len(s.drop_first())
    }
}

proof fn lemma_word_len(s: Seq<char>, i: int)
    requires
        0 <= i <= s.len(),
        forall|j: int| 0 <= j < i ==> !spec_is_whitespace(#[trigger] s[j]),
        i < s.len() ==> spec_is_whitespace(s[i]),
    ensures
        word_len(s) == i,
    decreases s.len(),
{
    if i > 0 {
        assert(!spec_is_whitespace(s[0]));
        assert forall|j: int| 0 <= j < i - 1 implies !spec_is_whitespace(
            #[trigger] s.drop_first()[j],
        ) by {
            assert(!spec_is_whitespace(s[j + 1]));
        }
        lemma_word_len(s.drop_first(), i - 1);
    }
}

proof fn lemma_trim_start_len(s: Seq<char>)
    ensures
        spec_trim_start(s).len() <= s.len(),
    decreases s.len(),
{
    if s.len() > 0 && spec_is_whitespace(s[0]) {
        lemma_trim_start_len(s.drop_first());
    }
}

proof fn lemma_word_len_bound(s: Seq<char>)
    ensures
        word_len(s) <= s.len(),
    decreases s.len(),
{
    if s.len() > 0 && !spec_is_whitespace(s[0]) {
        lemma_word_len_bound(s.drop_first());
    }
}

proof fn lemma_trim_start_word(s: Seq<char>)
    ensures
        spec_trim_start(s).len() > 0 ==> word_len(spec_trim_start(s)) > 0,
    decreases s.len(),
{
    if s.len() > 0 && spec_is_whitespace(s[0]) {
        lemma_trim_start_word(s.drop_first());
    }
}

/// The words of a text: its maximal runs of characters that are not white space.
pub open spec fn spec_words(s: Seq<char>) -> Seq<Seq<char>>
    decreases s.len(),
    via spec_words_decreases
{
    let t = spec_trim_start(s);
    let n = word_len(t) as int;
    if t.len() == 0 {
        seq![]
    } else {
        seq![t.take(n)] + spec_words(t.skip(n))
    }
}

#[via_fn]
proof fn spec_words_decreases(s: Seq<char>) {
    lemma_trim_start_len(s);
    lemma_trim_start_word(s);
    lemma_word_len_bound(spec_trim_start(s));
}

/// The words of a text.
pub fn split_whitespace(s: &str) -> (out: Vec<String>)
    ensures
        texts(out@) == spec_words(s@),
{
    let chars: Vec<char> = chars_of(s);
    let mut out: Vec<String> = Vec::new();
    let mut p: usize = 0;
    proof {
        assert(s@.skip(0) == s@);
        assert(texts(out@) + spec_words(s@.skip(0)) == spec_words(s@));
    }
    while p < chars.len()
        invariant
            chars@ == s@,
            p <= chars.len(),
            texts(out@) + spec_words(s@.skip(p as int)) == spec_words(s@),
        decreases chars.len() - p,
    {
        let ghost rest = s@.skip(p as int);
        let mut from: usize = p;
        while from < chars.len() && is_whitespace(chars[from])
            invariant
                chars@ == s@,
                p <= from <= chars.len(),
                spec_trim_start(s@.skip(from as int)) == spec_trim_start(rest),
            decreases chars.len() - from,
        {
            proof {
                assert(s@.skip(from as int).drop_first() == s@.skip(from + 1));
            }
            from = from + 1;
        }
        let ghost t = s@.skip(from as int);
        assert(spec_trim_start(rest) == t);
        let mut to: usize = from;
        while to < chars.len() && !is_whitespace(chars[to])
            invariant
                chars@ == s@,
                from <= to <= chars.len(),
                forall|j: int| from <= j < to ==> !spec_is_whitespace(#[trigger] chars[j]),
            decreases chars.len() - to,
        {
            to = to + 1;
        }
        proof {
            assert forall|j: int| 0 <= j < to - from implies !spec_is_whitespace(
                #[trigger] t[j],
            ) by {
                assert(!spec_is_whitespace(chars[from + j]));
            }
            lemma_word_len(t, to - from);
        }
        let ghost before = texts(out@);
        if from < chars.len() {
            let word: String = string_of(&chars, from, to);
            proof {
                assert(t.take(to - from) == word@);
                assert(t.skip(to - from) == s@.skip(to as int));
                assert(texts(out@.push(word)) == before.push(word@));
                assert(before + (seq![word@] + spec_words(s@.skip(to as int))) == before.push(word@)
                    + spec_words(s@.skip(to as int)));
                lemma_trim_start_word(rest);
            }
            out.push(word);
        } else {
            proof {
                assert(t.len() == 0);
                assert(spec_words(rest) == Seq::<Seq<char>>::empty());
                assert(s@.skip(to as int) == t);
                assert(spec_words(t) == Seq::<Seq<char>>::empty());
            }
        }
        p = to;
    }
    proof {
        assert(s@.skip(p as int).len() == 0);
        assert(texts(out@) + spec_words(s@.skip(p as int)) == texts(out@));
    }
    out
}

/// Whether `pat` occurs in `s`.
pub open spec fn spec_contains(s: Seq<char>, pat: Seq<char>) -> bool {
    exists|i: int|
        0 <= i <= s.len() - pat.len() && #[trigger] s.subrange(i, i + pat.len()) == pat
}

/// Whether `pat` stands in `chars` at position `at`.
pub fn matches_at(chars: &Vec<char>, at: usize, pat: &Vec<char>) -> (b: bool)
    ensures
        b == (at + pat.len() <= chars.len() && chars@.subrange(at as int, at + pat.len()) == pat@),
{
    if at > chars.len() || pat.len() > chars.len() - at {
        return false;
    }
    let mut j: usize = 0;
    while j < pat.len()
        invariant
            at + pat.len() <= chars.len(),
            j <= pat.len(),
            forall|k: int| 0 <= k < j ==> chars[at + k] == pat[k],
        decreases pat.len() - j,
    {
        if chars[at + j] != pat[j] {
            assert(chars@.subrange(at as int, at + pat.len())[j as int] != pat@[j as int]);
            return false;
        }
        j = j + 1;
    }
    assert(chars@.subrange(at as int, at + pat.len()) == pat@);
    true
}

/// Whether `pat` occurs in `s`.
pub fn contains(s: &str, pat: &str) -> (b: bool)
    ensures
        b == spec_contains(s@, pat@),
{
    let chars: Vec<char> = chars_of(s);
    let needle: Vec<char> = chars_of(pat);
    let mut i: usize = 0;
    while i <= chars.len() && needle.len() <= chars.len() - i
        invariant
            chars@ == s@,
            needle@ == pat@,
            i <= chars.len() + 1,
            forall|k: int|
                0 <= k < i && k <= s@.len() - pat@.len() ==> #[trigger] s@.subrange(
                    k,
                    k + pat@.len(),
                ) != pat@,
        decreases chars.len() + 1 - i,
    {
        if matches_at(&chars, i, &needle) {
            assert(s@.subrange(i as int, i + pat@.len()) == pat@);
            return true;
        }
        if i == chars.len() {
            return false;
        }
        i = i + 1;
    }
    false
}

/// Whether `s` begins with `pat`.
pub fn starts_with(s: &str, pat: &str) -> (b: bool)
    ensures
        b == pat@.is_prefix_of(s@),
{
    let chars: Vec<char> = chars_of(s);
    let head: Vec<char> = chars_of(pat);
    proof {
        if head.len() <= chars.len() {
            assert(s@.subrange(0, pat@.len() as int) == s@.take(pat@.len() as int));
        }
    }
    matches_at(&chars, 0, &head)
}

/// Whether `s` ends with `pat`.
pub fn ends_with(s: &str, pat: &str) -> (b: bool)
    ensures
        b == pat@.is_suffix_of(s@),
{
    let chars: Vec<char> = chars_of(s);
    let tail: Vec<char> = chars_of(pat);
    if tail.len() > chars.len() {
        return false;
    }
    matches_at(&chars, chars.len() - tail.len(), &tail)
}

/// The text with each `c` replaced by `with`.
pub open spec fn spec_replace(s: Seq<char>, c: char, with: Seq<char>) -> Seq<char>
    decreases s.len(),
{
    if s.len() == 0 {
        seq![]
    } else {
        spec_replace(s.drop_last(), c, with) + (if s.last() == c {
            with
        } else {
            seq![s.last()]
        })
    }
}

/// The text with each `c` replaced by `with`.
pub fn replace(s: &str, c: char, with: &str) -> (out: String)
    ensures
        out@ == spec_replace(s@, c, with@),
{
    let chars: Vec<char> = chars_of(s);
    let mut out: String = String::new();
    let mut i: usize = 0;
    while i < chars.len()
        invariant
            chars@ == s@,
            i <= chars.len(),
            out@ == spec_replace(s@.take(i as int), c, with@),
        decreases chars.len() - i,
    {
        proof {
            assert(s@.take(i + 1).drop_last() == s@.take(i as int));
        }
        if chars[i] == c {
            out.append(with);
        } else {
            out.push(chars[i]);
        }
        i = i + 1;
    }
    assert(s@.take(i as int) == s@);
    out
}

/// Whether two texts are the same.
pub fn same(a: &str, b: &str) -> (r: bool)
    ensures
        r == (a@ == b@),
{
    let x: Vec<char> = chars_of(a);
    let y: Vec<char> = chars_of(b);
    if x.len() != y.len() {
        return false;
    }
    assert(y@.subrange(0, x@.len() as int) == y@);
    matches_at(&y, 0, &x)
}

} // verus!
