//! Texts: numerals, lines, words and pieces.
use crate::text::{
    contains, decimal, digit, ends_with, find, lemma_find, lemma_find_bound, lines, push_decimal,
    push_signed, replace, same, signed_decimal, spec_is_whitespace, spec_lines, spec_split,
    spec_trim, spec_trim_end, spec_trim_start, spec_words, split, split_whitespace, starts_with,
    texts, trim,
};
use vstd::prelude::*;
use vstd::string::*;

verus! {

/// The number that a row of digits stands for.
pub open spec fn number_of(s: Seq<char>) -> int
    decreases s.len(),
{
    if s.len() == 0 {
        0
    } else {
        10 * number_of(s.drop_last()) + (s.last() as int - '0' as int)
    }
}

/// A row of digits without leading zeros.
pub open spec fn is_numeral(s: Seq<char>) -> bool {
    &&& s.len() > 0
    &&& forall|i: int| 0 <= i < s.len() ==> '0' <= #[trigger] s[i] <= '9'
    &&& s.len() > 1 ==> s[0] != '0'
}

proof fn lemma_decimal(n: nat)
    ensures
        is_numeral(decimal(n)),
        number_of(decimal(n)) == n,
        n > 0 ==> decimal(n)[0] != '0',
    decreases n,
{
    reveal_with_fuel(number_of, 2);
    if n < 10 {
        assert(decimal(n) =~= seq![digit(n)]);
        assert(decimal(n).drop_last() =~= Seq::<char>::empty());
    } else {
        lemma_decimal(n / 10);
        let s = decimal(n);
        assert(s.drop_last() =~= decimal(n / 10));
        assert(s.last() == digit(n % 10));
        assert forall|i: int| 0 <= i < s.len() implies '0' <= #[trigger] s[i] <= '9' by {
            if i < s.len() - 1 {
                assert(s[i] == decimal(n / 10)[i]);
            }
        }
        assert(s[0] == decimal(n / 10)[0]);
    }
}

/// What is appended for a number is its numeral: digits that stand for the number, without
/// leading zeros.
pub proof fn law_numerals_stand_for_their_numbers(out: &mut String, n: u64) -> (numeral: Seq<char>)
    requires
        call_ensures(push_decimal, (out, n), ()),
    ensures
        final(out)@ == old(out)@ + numeral,
        is_numeral(numeral),
        number_of(numeral) == n,
        numeral == decimal(n as nat),
{
    lemma_decimal(n as nat);
    decimal(n as nat)
}

/// So it is for a number below zero, after a minus sign.
pub proof fn law_signed_numerals(out: &mut String, n: i64) -> (numeral: Seq<char>)
    requires
        call_ensures(push_signed, (out, n), ()),
    ensures
        is_numeral(numeral),
        n >= 0 ==> final(out)@ == old(out)@ + numeral && number_of(numeral) == n,
        n < 0 ==> final(out)@ == old(out)@ + seq!['-'] + numeral && number_of(numeral) == -n,
        signed_decimal(n as int) == (if n < 0 {
            seq!['-'] + numeral
        } else {
            numeral
        }),
{
    if n < 0 {
        lemma_decimal((-n) as nat);
        assert(final(out)@ =~= old(out)@ + seq!['-'] + decimal((-n) as nat));
        decimal((-n) as nat)
    } else {
        lemma_decimal(n as nat);
        decimal(n as nat)
    }
}

/// Pieces with a separator between two of them.
pub open spec fn joined(pieces: Seq<Seq<char>>, c: char) -> Seq<char>
    decreases pieces.len(),
{
    if pieces.len() == 0 {
        seq![]
    } else if pieces.len() == 1 {
        pieces[0]
    } else {
        pieces[0] + seq![c] + joined(pieces.drop_first(), c)
    }
}

proof fn lemma_split(s: Seq<char>, c: char)
    ensures
        spec_split(s, c).len() > 0,
        joined(spec_split(s, c), c) == s,
        forall|i: int, j: int|
            0 <= i < spec_split(s, c).len() && 0 <= j < spec_split(s, c)[i].len() ==> (
            #[trigger] spec_split(s, c)[i][j]) != c,
    decreases s.len(),
{
    lemma_find_bound(s, c);
    let i = find(s, c) as int;
    let p = spec_split(s, c);
    if i < s.len() {
        let rest = spec_split(s.skip(i + 1), c);
        lemma_split(s.skip(i + 1), c);
        assert(p.drop_first() =~= rest);
        assert(p[0] == s.take(i));
        assert(s =~= s.take(i) + seq![c] + s.skip(i + 1));
        assert forall|k: int, j: int| 0 <= k < p.len() && 0 <= j < p[k].len() implies (
        #[trigger] p[k][j]) != c by {
            if k > 0 {
                assert(p[k] == rest[k - 1]);
                assert(rest[k - 1][j] != c);
            }
        }
    } else {
        assert(p =~= seq![s]);
    }
}

/// The pieces of a text hold no separator, and with one between two of them they make up
/// the text.
pub proof fn law_pieces_make_up_the_text(s: &str, c: char, out: Vec<String>)
    requires
        call_ensures(split, (s, c), out),
    ensures
        out@.len() > 0,
        joined(texts(out@), c) == s@,
        forall|i: int| 0 <= i < out@.len() ==> !(#[trigger] out@[i])@.contains(c),
{
    lemma_split(s@, c);
    assert(texts(out@).len() == out@.len());
    assert forall|i: int| 0 <= i < out@.len() implies !(#[trigger] out@[i])@.contains(c) by {
        assert(texts(out@)[i] == out@[i]@);
        if out@[i]@.contains(c) {
            let j = out@[i]@.index_of(c);
            assert(spec_split(s@, c)[i][j] == c);
        }
    }
}

proof fn lemma_trim(s: Seq<char>) -> (cut: (int, int))
    ensures
        ({
            let (i, j) = cut;
            &&& 0 <= i <= j <= s.len()
            &&& spec_trim(s) == s.subrange(i, j)
            &&& forall|k: int| 0 <= k < i ==> spec_is_whitespace(#[trigger] s[k])
            &&& forall|k: int| j <= k < s.len() ==> spec_is_whitespace(#[trigger] s[k])
            &&& i < j ==> !spec_is_whitespace(s[i]) && !spec_is_whitespace(s[j - 1])
        }),
{
    let i = lemma_trim_start(s);
    let t = s.skip(i);
    let n = lemma_trim_end(t);
    assert(spec_trim(s) == t.take(n));
    assert(t.take(n) =~= s.subrange(i, i + n));
    if n == 0 {
        assert forall|k: int| i <= k < s.len() implies spec_is_whitespace(#[trigger] s[k]) by {
            assert(s[k] == t[k - i]);
        }
    }
    assert forall|k: int| i + n <= k < s.len() implies spec_is_whitespace(#[trigger] s[k]) by {
        assert(s[k] == t[k - i]);
    }
    if n > 0 {
        assert(t.len() > 0);
        assert(s[i] == t[0]);
        assert(s[i + n - 1] == t[n - 1]);
    }
    (i, i + n)
}

proof fn lemma_trim_start(s: Seq<char>) -> (i: int)
    ensures
        0 <= i <= s.len(),
        spec_trim_start(s) == s.skip(i),
        forall|k: int| 0 <= k < i ==> spec_is_whitespace(#[trigger] s[k]),
        i < s.len() ==> !spec_is_whitespace(s[i]),
    decreases s.len(),
{
    if s.len() > 0 && spec_is_whitespace(s[0]) {
        let i = lemma_trim_start(s.drop_first());
        assert(s.drop_first().skip(i) =~= s.skip(i + 1));
        assert forall|k: int| 0 <= k < i + 1 implies spec_is_whitespace(#[trigger] s[k]) by {
            if k > 0 {
                assert(s.drop_first()[k - 1] == s[k]);
            }
        }
        i + 1
    } else {
        assert(s.skip(0) =~= s);
        0
    }
}

proof fn lemma_trim_end(s: Seq<char>) -> (n: int)
    ensures
        0 <= n <= s.len(),
        spec_trim_end(s) == s.take(n),
        forall|k: int| n <= k < s.len() ==> spec_is_whitespace(#[trigger] s[k]),
        n > 0 ==> !spec_is_whitespace(s[n - 1]),
    decreases s.len(),
{
    if s.len() > 0 && spec_is_whitespace(s.last()) {
        let n = lemma_trim_end(s.drop_last());
        assert(s.drop_last().take(n) =~= s.take(n));
        assert forall|k: int| n <= k < s.len() implies spec_is_whitespace(#[trigger] s[k]) by {
            if k < s.len() - 1 {
                assert(s.drop_last()[k] == s[k]);
            }
        }
        if n > 0 {
            assert(s.drop_last()[n - 1] == s[n - 1]);
        }
        n
    } else {
        assert(s.take(s.len() as int) =~= s);
        s.len() as int
    }
}

/// A trimmed text is the text without white space at its ends, and with all that stands
/// between. Spaces, tabs and line ends are white space; letters and digits are not.
pub proof fn law_trimming_takes_white_space_off(s: &str, out: String) -> (cut: (int, int))
    requires
        call_ensures(trim, (s,), out),
    ensures
        ({
            let (i, j) = cut;
            &&& 0 <= i <= j <= s@.len()
            &&& out@ == s@.subrange(i, j)
            &&& forall|k: int| 0 <= k < i ==> spec_is_whitespace(#[trigger] s@[k])
            &&& forall|k: int| j <= k < s@.len() ==> spec_is_whitespace(#[trigger] s@[k])
            &&& i < j ==> !spec_is_whitespace(s@[i]) && !spec_is_whitespace(s@[j - 1])
        }),
        spec_is_whitespace(' ') && spec_is_whitespace('\t') && spec_is_whitespace('\r')
            && spec_is_whitespace('\n'),
        forall|c: char|
            'a' <= c <= 'z' || 'A' <= c <= 'Z' || '0' <= c <= '9' || c == '-' || c == '/' || c
                == '=' || c == ':' ==> !#[trigger] spec_is_whitespace(c),
{
    lemma_trim(s@)
}

/// Three words with white space between them, and with none in them, are read as those
/// three words.
pub proof fn law_words_are_told_apart(
    s: &str,
    a: Seq<char>,
    b: Seq<char>,
    c: Seq<char>,
    out: Vec<String>,
)
    requires
        call_ensures(split_whitespace, (s,), out),
        s@ == a + seq![' '] + b + seq![' '] + c,
        is_word(a),
        is_word(b),
        is_word(c),
    ensures
        out@.len() == 3,
        out@[0]@ == a,
        out@[1]@ == b,
        out@[2]@ == c,
{
    lemma_three_words(a, b, c);
    assert(texts(out@).len() == out@.len());
    assert(texts(out@)[0] == out@[0]@);
    assert(texts(out@)[1] == out@[1]@);
    assert(texts(out@)[2] == out@[2]@);
}

/// A text with something in it and no white space.
pub open spec fn is_word(s: Seq<char>) -> bool {
    s.len() > 0 && forall|i: int| 0 <= i < s.len() ==> !spec_is_whitespace(#[trigger] s[i])
}

proof fn lemma_word_first(w: Seq<char>, rest: Seq<char>)
    requires
        is_word(w),
        rest.len() > 0 ==> spec_is_whitespace(rest[0]),
    ensures
        spec_words(w + rest) == seq![w] + spec_words(rest),
{
    let s = w + rest;
    assert(s[0] == w[0]);
    assert(spec_trim_start(s) == s);
    lemma_word_len(s, w.len() as int);
    assert(s.take(w.len() as int) =~= w);
    assert(s.skip(w.len() as int) =~= rest);
}

proof fn lemma_word_len(s: Seq<char>, i: int)
    requires
        0 <= i <= s.len(),
        forall|j: int| 0 <= j < i ==> !spec_is_whitespace(#[trigger] s[j]),
        i < s.len() ==> spec_is_whitespace(s[i]),
    ensures
        crate::text::word_len(s) == i,
    decreases s.len(),
{
    if i > 0 {
        assert(!spec_is_whitespace(s[0]));
        assert forall|j: int| 0 <= j < i - 1 implies !spec_is_whitespace(
            #[trigger] s.drop_first()[j],
        ) by {
            assert(!spec_is_whitespace(s[j + 1]));
        }
        lemma_word_len(s.drop_first(), i - 1);
    }
}

proof fn lemma_space_skipped(rest: Seq<char>)
    ensures
        spec_words(seq![' '] + rest) == spec_words(rest),
{
    let s = seq![' '] + rest;
    assert(s.drop_first() =~= rest);
    assert(spec_trim_start(s) == spec_trim_start(rest));
    assert(spec_words(s) == spec_words(rest));
}

pub proof fn lemma_three_words(a: Seq<char>, b: Seq<char>, c: Seq<char>)
    requires
        is_word(a),
        is_word(b),
        is_word(c),
    ensures
        spec_words(a + seq![' '] + b + seq![' '] + c) == seq![a, b, c],
{
    let none = Seq::<char>::empty();
    assert(c + none =~= c);
    lemma_word_first(c, none);
    assert(spec_words(none) =~= Seq::<Seq<char>>::empty());
    assert(spec_words(c) =~= seq![c]);
    lemma_space_skipped(c);
    lemma_word_first(b, seq![' '] + c);
    let rest = b + (seq![' '] + c);
    lemma_space_skipped(rest);
    lemma_word_first(a, seq![' '] + rest);
    assert(a + seq![' '] + b + seq![' '] + c =~= a + (seq![' '] + rest));
    assert(spec_words(rest) =~= seq![b, c]);
    assert(seq![a] + seq![b, c] =~= seq![a, b, c]);
}

/// A line that ends in a line feed, with or without a carriage return before it, is read
/// as what stands before them; what follows is read on its own.
pub proof fn law_lines_are_told_apart(
    s: &str,
    line: Seq<char>,
    cr: bool,
    rest: &str,
    out: Vec<String>,
    others: Vec<String>,
)
    requires
        call_ensures(lines, (s,), out),
        call_ensures(lines, (rest,), others),
        s@ == line + (if cr {
            seq!['\r', '\n']
        } else {
            seq!['\n']
        }) + rest@,
        !line.contains('\n'),
        line.len() > 0 ==> line.last() != '\r',
    ensures
        out@.len() == others@.len() + 1,
        out@[0]@ == line,
        forall|i: int| 0 <= i < others@.len() ==> (#[trigger] others@[i])@ == out@[i + 1]@,
{
    lemma_first_line(line, cr, rest@);
    let a = texts(out@);
    let b = texts(others@);
    assert(a.len() == out@.len() && b.len() == others@.len());
    assert(a[0] == out@[0]@);
    assert forall|i: int| 0 <= i < others@.len() implies (#[trigger] others@[i])@
        == out@[i + 1]@ by {
        assert(b[i] == others@[i]@);
        assert(a[i + 1] == out@[i + 1]@);
    }
}

pub proof fn lemma_first_line(line: Seq<char>, cr: bool, rest: Seq<char>)
    requires
        !line.contains('\n'),
        line.len() > 0 ==> line.last() != '\r',
    ensures
        spec_lines(line + (if cr {
            seq!['\r', '\n']
        } else {
            seq!['\n']
        }) + rest) == seq![line] + spec_lines(rest),
{
    let end = if cr {
        seq!['\r', '\n']
    } else {
        seq!['\n']
    };
    let s = line + end + rest;
    let n: int = if cr {
        line.len() as int + 1
    } else {
        line.len() as int
    };
    assert forall|j: int| 0 <= j < n implies s[j] != '\n' by {
        if j < line.len() {
            assert(s[j] == line[j]);
            assert(line.contains(line[j]));
        }
    }
    assert(s[n] == '\n');
    lemma_find(s, '\n', n);
    let head = s.take(n);
    if cr {
        assert(head.last() == '\r');
        assert(head.drop_last() =~= line);
    } else {
        assert(head =~= line);
    }
    assert(s.skip(n + 1) =~= rest);
}

/// A text holds another one exactly where that one stands somewhere in it, begins with it
/// where it stands at the front, ends with it where it stands at the end, and is the same
/// where they do not differ.
pub proof fn law_texts_are_compared(
    s: &str,
    part: &str,
    held: bool,
    begun: bool,
    ended: bool,
    equal: bool,
)
    requires
        call_ensures(contains, (s, part), held),
        call_ensures(starts_with, (s, part), begun),
        call_ensures(ends_with, (s, part), ended),
        call_ensures(same, (s, part), equal),
    ensures
        held <==> exists|a: Seq<char>, b: Seq<char>| s@ == #[trigger] (a + part@ + b),
        begun <==> exists|b: Seq<char>| s@ == #[trigger] (part@ + b),
        ended <==> exists|a: Seq<char>| s@ == #[trigger] (a + part@),
        equal <==> s@ == part@,
{
    let n = part@.len() as int;
    if held {
        let i = choose|i: int|
            0 <= i <= s@.len() - part@.len() && #[trigger] s@.subrange(i, i + part@.len()) == part@;
        assert(s@ =~= s@.take(i) + part@ + s@.skip(i + n));
    }
    assert forall|a: Seq<char>, b: Seq<char>| s@ == #[trigger] (a + part@ + b) implies held by {
        let at = a.len() as int;
        assert(s@.subrange(at, at + part@.len()) =~= part@);
    }
    if begun {
        assert(s@ =~= part@ + s@.skip(n));
    }
    assert forall|b: Seq<char>| s@ == #[trigger] (part@ + b) implies begun by {
        assert(s@.subrange(0, n) =~= part@);
    }
    if ended {
        assert(s@ =~= s@.take(s@.len() - n) + part@);
    }
    assert forall|a: Seq<char>| s@ == #[trigger] (a + part@) implies ended by {
        assert(s@.subrange(s@.len() - n, s@.len() as int) =~= part@);
    }
}

/// Replacing keeps every other character as it is and where it stands, and puts the new
/// text in place of each that is replaced.
pub proof fn law_replacing_is_piecewise(
    s: &str,
    rest: &str,
    c: char,
    with: &str,
    whole: String,
    part: String,
)
    requires
        s@.len() > 0,
        rest@ == s@.drop_last(),
        call_ensures(replace, (s, c, with), whole),
        call_ensures(replace, (rest, c, with), part),
    ensures
        s@.last() == c ==> whole@ == part@ + with@,
        s@.last() != c ==> whole@ == part@.push(s@.last()),
{
    if s@.last() != c {
        assert(whole@ =~= part@.push(s@.last()));
    }
}

/// A text without a line feed is one line, and an empty text is none.
pub proof fn law_last_line_needs_no_end(s: &str, out: Vec<String>)
    requires
        call_ensures(lines, (s,), out),
        !s@.contains('\n'),
    ensures
        s@.len() > 0 ==> out@.len() == 1 && out@[0]@ == s@,
        s@.len() == 0 ==> out@.len() == 0,
{
    assert forall|j: int| 0 <= j < s@.len() implies s@[j] != '\n' by {
        assert(s@.contains(s@[j]));
    }
    lemma_find(s@, '\n', s@.len() as int);
    let t = texts(out@);
    assert(t.len() == out@.len());
    if s@.len() > 0 {
        assert(t =~= seq![s@]);
        assert(t[0] == out@[0]@);
    }
}

} // verus!
