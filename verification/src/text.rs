//! Character-level helpers shared by the pages: turning a `&str` into its
//! characters, Unicode whitespace, word counting and decimal rendering.

use vstd::prelude::*;
use vstd::string::StringExecFns;

verus! {

/// The characters of `s`, in order.
pub fn chars_of(s: &str) -> (out: Vec<char>)
    ensures
        out@ == s@,
{
    let mut out: Vec<char> = Vec::new();
    for c in it: s.chars()
        invariant
            out@ == it.seq().take(it.index() as int),
            it.seq() == s@,
    {
        out.push(c);
    }
    out
}

} // verus!

verus! {

/// Unicode `White_Space` property (the characters for which
/// `char::is_whitespace` is true).
pub open spec fn is_white_space(c: char) -> bool {
    let u = c as u32;
    ||| 0x09 <= u <= 0x0D
    ||| u == 0x20
    ||| u == 0x85
    ||| u == 0xA0
    ||| u == 0x1680
    ||| 0x2000 <= u <= 0x200A
    ||| u == 0x2028
    ||| u == 0x2029
    ||| u == 0x202F
    ||| u == 0x205F
    ||| u == 0x3000
}

/// Whether `c` is Unicode whitespace.
pub fn is_white_space_char(c: char) -> (b: bool)
    ensures
        b == is_white_space(c),
{
    let u = c as u32;
    (0x09 <= u && u <= 0x0D) || u == 0x20 || u == 0x85 || u == 0xA0 || u == 0x1680 || (0x2000
        <= u && u <= 0x200A) || u == 0x2028 || u == 0x2029 || u == 0x202F || u == 0x205F || u
        == 0x3000
}

/// Whether a word starts at position `i` of `s`: `s[i]` is not whitespace
/// and it is the first character or follows whitespace.
pub open spec fn starts_word(s: Seq<char>, i: int) -> bool {
    &&& 0 <= i < s.len()
    &&& !is_white_space(s[i])
    &&& (i == 0 || is_white_space(s[i - 1]))
}

/// Number of maximal runs of non-whitespace characters in `s` (what
/// `split_whitespace().count()` returns).
pub open spec fn word_count(s: Seq<char>) -> nat
    decreases s.len(),
{
    if s.len() == 0 {
        0
    } else {
        word_count(s.drop_last()) + if starts_word(s, s.len() - 1) {
            1nat
        } else {
            0nat
        }
    }
}

/// Counts the whitespace-separated words of `s`.
pub fn count_words(s: &str) -> (n: usize)
    ensures
        n == word_count(s@),
        s@.len() == 1 && !is_white_space(s@[0]) ==> n == 1,
{
    let cs = chars_of(s);
    let mut n: usize = 0;
    let mut prev_ws = true;
    let mut i: usize = 0;
    while i < cs.len()
        invariant
            cs@ == s@,
            i <= cs.len(),
            n <= i,
            n == word_count(cs@.take(i as int)),
            prev_ws == (i == 0 || is_white_space(cs@[i - 1])),
        decreases cs.len() - i,
    {
        let ws = is_white_space_char(cs[i]);
        assert(cs@.take(i + 1).drop_last() =~= cs@.take(i as int));
        if !ws && prev_ws {
            n = n + 1;
        }
        prev_ws = ws;
        i = i + 1;
    }
    assert(cs@.take(i as int) =~= cs@);
    proof {
        if s@.len() == 1 && !is_white_space(s@[0]) {
            law_word_count_steps(Seq::<char>::empty(), s@[0]);
            assert(Seq::<char>::empty().push(s@[0]) =~= s@);
        }
    }
    n
}

/// How the word count grows character by character: an empty text has no
/// words; appending a non-whitespace character after whitespace (or at the
/// start) begins one more word, whatever that character is; appending
/// whitespace, or a character that continues a word, adds none.
pub proof fn law_word_count_steps(s: Seq<char>, c: char)
    ensures
        word_count(Seq::<char>::empty()) == 0,
        !is_white_space(c) && (s.len() == 0 || is_white_space(s.last())) ==> word_count(s.push(c))
            == word_count(s) + 1,
        is_white_space(c) ==> word_count(s.push(c)) == word_count(s),
        s.len() > 0 && !is_white_space(s.last()) ==> word_count(s.push(c)) == word_count(s),
{
    assert(s.push(c).drop_last() =~= s);
    if s.len() > 0 {
        assert(s.push(c)[s.len() - 1] == s.last());
    }
}

/// A single character that is not whitespace is one word; a single
/// whitespace character is none.
pub proof fn law_word_count_single(c: char)
    ensures
        !is_white_space(c) ==> word_count(seq![c]) == 1,
        is_white_space(c) ==> word_count(seq![c]) == 0,
{
    law_word_count_steps(Seq::<char>::empty(), c);
    assert(Seq::<char>::empty().push(c) =~= seq![c]);
}

/// A word count never exceeds the number of characters.
pub proof fn lemma_word_count_bound(s: Seq<char>)
    ensures
        word_count(s) <= s.len(),
    decreases s.len(),
{
    if s.len() > 0 {
        lemma_word_count_bound(s.drop_last());
    }
}

/// Joining two texts with a whitespace character between them adds their
/// word counts.
pub proof fn lemma_word_count_join(a: Seq<char>, sep: char, b: Seq<char>)
    requires
        is_white_space(sep),
    ensures
        word_count(a + seq![sep] + b) == word_count(a) + word_count(b),
    decreases b.len(),
{
    let ab = a + seq![sep] + b;
    if b.len() == 0 {
        assert(ab =~= a.push(sep));
        assert(ab.drop_last() =~= a);
    } else {
        lemma_word_count_join(a, sep, b.drop_last());
        assert(ab.drop_last() =~= a + seq![sep] + b.drop_last());
        let k = ab.len() - 1;
        assert(ab[k] == b[b.len() - 1]);
        if b.len() == 1 {
            assert(ab[k - 1] == sep);
        } else {
            assert(ab[k - 1] == b[b.len() - 2]);
        }
    }
}

/// A text made only of whitespace has no words.
pub proof fn lemma_word_count_blank(s: Seq<char>)
    requires
        forall|i: int| 0 <= i < s.len() ==> is_white_space(#[trigger] s[i]),
    ensures
        word_count(s) == 0,
    decreases s.len(),
{
    if s.len() > 0 {
        lemma_word_count_blank(s.drop_last());
    }
}

/// The decimal digit for `d < 10`.
pub open spec fn digit_char(d: nat) -> char {
    if d == 0 { '0' }
    else if d == 1 { '1' }
    else if d == 2 { '2' }
    else if d == 3 { '3' }
    else if d == 4 { '4' }
    else if d == 5 { '5' }
    else if d == 6 { '6' }
    else if d == 7 { '7' }
    else if d == 8 { '8' }
    else { '9' }
}

/// Decimal rendering of `n`, most significant digit first, no leading zeros.
pub open spec fn decimal(n: nat) -> Seq<char>
    decreases n,
{
    if n < 10 {
        seq![digit_char(n)]
    } else {
        decimal(n / 10).push(digit_char(n % 10))
    }
}

/// The value of a decimal digit character (`'0'..='9'`).
pub open spec fn digit_value(c: char) -> nat {
    ((c as u32) - ('0' as u32)) as nat
}

/// The number that a string of decimal digits denotes.
pub open spec fn decimal_value(s: Seq<char>) -> nat
    decreases s.len(),
{
    if s.len() == 0 {
        0
    } else {
        decimal_value(s.drop_last()) * 10 + digit_value(s.last())
    }
}

proof fn lemma_digit_value_of_digit_char(d: nat)
    requires
        d < 10,
    ensures
        digit_value(digit_char(d)) == d,
        digit_char(d) != '0' <==> d != 0,
{
    assert(('0' as u32) == 48);
}

/// Reading back the decimal rendering of `n` gives `n`; it is never empty
/// and starts with a non-zero digit unless `n` is zero.
pub proof fn lemma_decimal_round_trip(n: nat)
    ensures
        decimal_value(decimal(n)) == n,
        decimal(n).len() >= 1,
        n > 0 ==> decimal(n)[0] != '0',
    decreases n,
{
    lemma_digit_value_of_digit_char(n % 10);
    if n < 10 {
        assert(n % 10 == n);
        assert(decimal(n).drop_last() =~= Seq::<char>::empty());
        assert(decimal(n).last() == digit_char(n));
        assert(decimal_value(Seq::<char>::empty()) == 0);
    } else {
        lemma_digit_value_of_digit_char(n % 10);
        lemma_decimal_round_trip(n / 10);
        assert(decimal(n).drop_last() =~= decimal(n / 10));
        assert(decimal(n)[0] == decimal(n / 10)[0]);
        assert(decimal(n).last() == digit_char(n % 10));
        assert((n / 10) * 10 + n % 10 == n);
    }
}

fn digit_str(d: usize) -> (s: &'static str)
    requires
        d < 10,
    ensures
        s@ == seq![digit_char(d as nat)],
{
    proof {
        reveal_strlit("0");
        reveal_strlit("1");
        reveal_strlit("2");
        reveal_strlit("3");
        reveal_strlit("4");
        reveal_strlit("5");
        reveal_strlit("6");
        reveal_strlit("7");
        reveal_strlit("8");
        reveal_strlit("9");
    }
    if d == 0 { "0" }
    else if d == 1 { "1" }
    else if d == 2 { "2" }
    else if d == 3 { "3" }
    else if d == 4 { "4" }
    else if d == 5 { "5" }
    else if d == 6 { "6" }
    else if d == 7 { "7" }
    else if d == 8 { "8" }
    else { "9" }
}

/// Appends the decimal rendering of `n` to `out`.
pub fn push_decimal(out: &mut String, n: usize)
    ensures
        final(out)@ == old(out)@ + decimal(n as nat),
    decreases n,
{
    if n >= 10 {
        push_decimal(out, n / 10);
    }
    out.append(digit_str(n % 10));
}

} // verus!

verus! {

/// Whether `a` and `b` hold the same characters.
pub fn str_eq(a: &str, b: &str) -> (same: bool)
    ensures
        same == (a@ == b@),
{
    let x = chars_of(a);
    let y = chars_of(b);
    if x.len() != y.len() {
        return false;
    }
    let mut i: usize = 0;
    while i < x.len()
        invariant
            x@ == a@,
            y@ == b@,
            x.len() == y.len(),
            i <= x.len(),
            forall|k: int| 0 <= k < i ==> x@[k] == y@[k],
        decreases x.len() - i,
    {
        if x[i] != y[i] {
            return false;
        }
        i = i + 1;
    }
    assert(x@ =~= y@);
    true
}

} // verus!
