//! Character-level text handling: whitespace, lines, trimming, words and
//! path basenames, over the characters of a string.

use vstd::prelude::*;

verus! {

/// Unicode `White_Space`, the property `char::is_whitespace` tests.
pub open spec fn is_white_space(c: char) -> bool {
    let n = c as u32;
    ||| 0x9 <= n <= 0xd
    ||| n == 0x20
    ||| n == 0x85
    ||| n == 0xa0
    ||| n == 0x1680
    ||| 0x2000 <= n <= 0x200a
    ||| n == 0x2028
    ||| n == 0x2029
    ||| n == 0x202f
    ||| n == 0x205f
    ||| n == 0x3000
}

/// The pieces of `s` between newline characters, in order; a string with `k`
/// newlines has `k + 1` pieces, the last one empty when `s` ends in a newline.
pub open spec fn lines(s: Seq<char>) -> Seq<Seq<char>>
    decreases s.len(),
{
    if s.len() == 0 {
        seq![Seq::<char>::empty()]
    } else {
        let prev = lines(s.drop_last());
        if s.last() == '\n' {
            prev.push(Seq::<char>::empty())
        } else {
            prev.update(prev.len() - 1, prev.last().push(s.last()))
        }
    }
}

/// `s` without its leading white space.
pub open spec fn trim_start(s: Seq<char>) -> Seq<char>
    decreases s.len(),
{
    if s.len() > 0 && is_white_space(s[0]) {
        trim_start(s.drop_first())
    } else {
        s
    }
}

/// `s` without its trailing white space.
pub open spec fn trim_end(s: Seq<char>) -> Seq<char>
    decreases s.len(),
{
    if s.len() > 0 && is_white_space(s.last()) {
        trim_end(s.drop_last())
    } else {
        s
    }
}

/// `s` without leading and trailing white space.
pub open spec fn trim(s: Seq<char>) -> Seq<char> {
    trim_end(trim_start(s))
}

/// The maximal runs of non-white-space characters of `s`, in order.
pub open spec fn words(s: Seq<char>) -> Seq<Seq<char>>
    decreases s.len(),
{
    if s.len() == 0 {
        Seq::empty()
    } else {
        let prev = words(s.drop_last());
        let c = s.last();
        if is_white_space(c) {
            prev
        } else if s.len() >= 2 && !is_white_space(s[s.len() - 2]) {
            prev.update(prev.len() - 1, prev.last().push(c))
        } else {
            prev.push(seq![c])
        }
    }
}

/// The part of `s` after its last `/`, or all of `s` when it has none.
pub open spec fn basename(s: Seq<char>) -> Seq<char>
    decreases s.len(),
{
    if s.len() == 0 {
        s
    } else if s.last() == '/' {
        Seq::empty()
    } else {
        basename(s.drop_last()).push(s.last())
    }
}

/// `s` begins with `prefix`.
pub open spec fn has_prefix(s: Seq<char>, prefix: Seq<char>) -> bool {
    prefix.len() <= s.len() && s.take(prefix.len() as int) == prefix
}

/// The characters of `cs` in the half-open range `r`.
pub open spec fn span(cs: Seq<char>, r: (usize, usize)) -> Seq<char> {
    cs.subrange(r.0 as int, r.1 as int)
}

/// The characters of `cs` in each of the ranges `rs`.
pub open spec fn spans(cs: Seq<char>, rs: Seq<(usize, usize)>) -> Seq<Seq<char>> {
    rs.map_values(|r: (usize, usize)| span(cs, r))
}

pub(crate) proof fn lemma_lines_nonempty(s: Seq<char>)
    ensures
        lines(s).len() >= 1,
    decreases s.len(),
{
    if s.len() > 0 {
        lemma_lines_nonempty(s.drop_last());
    }
}

/// A trimmed string that is not empty starts with a character that is not
/// white space, and so has at least one word.
pub(crate) proof fn lemma_trimmed_has_word(s: Seq<char>)
    requires
        trim(s).len() > 0,
    ensures
        !is_white_space(trim(s)[0]),
        words(trim(s)).len() > 0,
{
    lemma_trim_start_first(s);
    lemma_trim_end_prefix(trim_start(s));
    lemma_words_nonempty(trim(s), 0);
}

/// Law: white space at the end of a line, such as the carriage return of a
/// CRLF line ending, never changes the line's trimmed form.
pub proof fn lemma_trim_ignores_trailing_white_space(s: Seq<char>, c: char)
    requires
        is_white_space(c),
    ensures
        trim(s.push(c)) == trim(s),
{
    lemma_trim_start_push(s, c);
    if trim_start(s).len() > 0 {
        assert(trim_start(s).push(c).drop_last() =~= trim_start(s));
    }
}

proof fn lemma_trim_start_push(s: Seq<char>, c: char)
    requires
        is_white_space(c),
    ensures
        trim_start(s.push(c)) == (if trim_start(s).len() == 0 {
            Seq::<char>::empty()
        } else {
            trim_start(s).push(c)
        }),
    decreases s.len(),
{
    assert(s.push(c)[0] == if s.len() == 0 { c } else { s[0] });
    if s.len() == 0 {
        assert(s.push(c).drop_first() =~= Seq::<char>::empty());
        assert(trim_start(Seq::<char>::empty()) == Seq::<char>::empty());
    } else if is_white_space(s[0]) {
        assert(s.push(c).drop_first() =~= s.drop_first().push(c));
        lemma_trim_start_push(s.drop_first(), c);
    }
}

proof fn lemma_trim_start_first(s: Seq<char>)
    ensures
        trim_start(s).len() > 0 ==> !is_white_space(trim_start(s)[0]),
    decreases s.len(),
{
    if s.len() > 0 && is_white_space(s[0]) {
        lemma_trim_start_first(s.drop_first());
    }
}

proof fn lemma_trim_end_prefix(s: Seq<char>)
    ensures
        trim_end(s).len() <= s.len(),
        forall|i: int| 0 <= i < trim_end(s).len() ==> trim_end(s)[i] == s[i],
    decreases s.len(),
{
    if s.len() > 0 && is_white_space(s.last()) {
        lemma_trim_end_prefix(s.drop_last());
        assert forall|i: int| 0 <= i < trim_end(s).len() implies trim_end(s)[i] == s[i] by {
            assert(s.drop_last()[i] == s[i]);
        }
    }
}

proof fn lemma_words_nonempty(s: Seq<char>, k: int)
    requires
        0 <= k < s.len(),
        !is_white_space(s[k]),
    ensures
        words(s).len() > 0,
    decreases s.len(),
{
    if is_white_space(s.last()) {
        assert(s.drop_last()[k] == s[k]);
        lemma_words_nonempty(s.drop_last(), k);
    } else if s.len() >= 2 && !is_white_space(s[s.len() - 2]) {
        assert(s.drop_last()[s.len() - 2] == s[s.len() - 2]);
        lemma_words_nonempty(s.drop_last(), s.len() - 2);
    }
}

/// Whether `c` is white space.
pub(crate) fn is_white_space_char(c: char) -> (b: bool)
    ensures
        b == is_white_space(c),
{
    let n = c as u32;
    (0x9 <= n && n <= 0xd) || n == 0x20 || n == 0x85 || n == 0xa0 || n == 0x1680 || (0x2000 <= n
        && n <= 0x200a) || n == 0x2028 || n == 0x2029 || n == 0x202f || n == 0x205f || n == 0x3000
}

/// The characters of `s`, in order.
pub(crate) fn chars_of(s: &str) -> (v: Vec<char>)
    ensures
        v@ == s@,
{
    broadcast use vstd::string::group_string_axioms;

    let mut v: Vec<char> = Vec::new();
    for c in it: s.chars()
        invariant
            it.seq() == s@,
            v@ == it.seq().take(it.index()),
    {
        v.push(c);
    }
    v
}

/// The range of `cs[a..b]` left once leading and trailing white space is
/// removed.
pub(crate) fn trim_range(cs: &Vec<char>, a: usize, b: usize) -> (r: (usize, usize))
    requires
        a <= b <= cs.len(),
    ensures
        a <= r.0 <= r.1 <= b,
        span(cs@, r) == trim(cs@.subrange(a as int, b as int)),
{
    let mut lo = a;
    while lo < b && is_white_space_char(cs[lo])
        invariant
            a <= lo <= b <= cs.len(),
            trim_start(cs@.subrange(a as int, b as int)) == trim_start(
                cs@.subrange(lo as int, b as int),
            ),
        decreases b - lo,
    {
        assert(cs@.subrange(lo as int, b as int).drop_first() =~= cs@.subrange(
            lo + 1,
            b as int,
        ));
        lo += 1;
    }
    let mut hi = b;
    while hi > lo && is_white_space_char(cs[hi - 1])
        invariant
            a <= lo <= hi <= b <= cs.len(),
            trim_start(cs@.subrange(a as int, b as int)) == cs@.subrange(lo as int, b as int),
            trim_end(cs@.subrange(lo as int, b as int)) == trim_end(
                cs@.subrange(lo as int, hi as int),
            ),
        decreases hi - lo,
    {
        assert(cs@.subrange(lo as int, hi as int).drop_last() =~= cs@.subrange(
            lo as int,
            hi - 1,
        ));
        hi -= 1;
    }
    (lo, hi)
}

/// The ranges of the words of `cs[a..b]`, in order.
pub(crate) fn word_ranges(cs: &Vec<char>, a: usize, b: usize) -> (rs: Vec<(usize, usize)>)
    requires
        a <= b <= cs.len(),
    ensures
        spans(cs@, rs@) == words(cs@.subrange(a as int, b as int)),
        forall|k: int| 0 <= k < rs.len() ==> a <= #[trigger] rs@[k].0 <= rs@[k].1 <= b,
{
    let mut rs: Vec<(usize, usize)> = Vec::new();
    let mut i = a;
    while i < b
        invariant
            a <= i <= b <= cs.len(),
            spans(cs@, rs@) == words(cs@.subrange(a as int, i as int)),
            forall|k: int| 0 <= k < rs.len() ==> a <= #[trigger] rs@[k].0 <= rs@[k].1 <= i,
            i > a && !is_white_space(cs@[i - 1]) ==> rs.len() > 0 && rs@.last().1 == i,
        decreases b - i,
    {
        let c = cs[i];
        let ghost s = cs@.subrange(a as int, i + 1);
        let ghost before = spans(cs@, rs@);
        assert(s.drop_last() =~= cs@.subrange(a as int, i as int));
        assert(s.last() == c);
        if is_white_space_char(c) {
        } else if i > a && !is_white_space_char(cs[i - 1]) {
            let last = rs.len() - 1;
            let start = rs[last].0;
            rs.set(last, (start, i + 1));
            assert(span(cs@, (start, (i + 1) as usize)) =~= span(cs@, (start, i)).push(c));
            assert(spans(cs@, rs@) =~= before.update(last as int, before.last().push(c)));
        } else {
            rs.push((i, i + 1));
            assert(span(cs@, (i, (i + 1) as usize)) =~= seq![c]);
            assert(spans(cs@, rs@) =~= before.push(seq![c]));
        }
        i += 1;
    }
    rs
}

/// Where the basename of `cs[a..b]` begins.
pub(crate) fn basename_start(cs: &Vec<char>, a: usize, b: usize) -> (k: usize)
    requires
        a <= b <= cs.len(),
    ensures
        a <= k <= b,
        cs@.subrange(k as int, b as int) == basename(cs@.subrange(a as int, b as int)),
{
    let mut k = b;
    while k > a && cs[k - 1] != '/'
        invariant
            a <= k <= b <= cs.len(),
            basename(cs@.subrange(a as int, b as int)) == basename(
                cs@.subrange(a as int, k as int),
            ) + cs@.subrange(k as int, b as int),
        decreases k - a,
    {
        let ghost c = cs@[k - 1];
        assert(cs@.subrange(a as int, k as int).drop_last() =~= cs@.subrange(a as int, k - 1));
        assert(basename(cs@.subrange(a as int, k - 1)).push(c) + cs@.subrange(k as int, b as int)
            =~= basename(cs@.subrange(a as int, k - 1)) + cs@.subrange(k - 1, b as int));
        k -= 1;
    }
    assert(basename(cs@.subrange(a as int, k as int)) =~= Seq::<char>::empty());
    assert(Seq::<char>::empty() + cs@.subrange(k as int, b as int) =~= cs@.subrange(
        k as int,
        b as int,
    ));
    k
}

/// Whether `cs[a..b]` reads exactly `lit`.
pub(crate) fn range_is(cs: &Vec<char>, a: usize, b: usize, lit: &str) -> (eq: bool)
    requires
        a <= b <= cs.len(),
    ensures
        eq == (cs@.subrange(a as int, b as int) == lit@),
{
    let n = lit.unicode_len();
    if b - a != n {
        return false;
    }
    let mut k: usize = 0;
    while k < n
        invariant
            a <= b <= cs.len(),
            b - a == n == lit@.len(),
            0 <= k <= n,
            forall|j: int| 0 <= j < k ==> cs@[a + j] == lit@[j],
        decreases n - k,
    {
        if cs[a + k] != lit.get_char(k) {
            assert(cs@.subrange(a as int, b as int)[k as int] != lit@[k as int]);
            return false;
        }
        k += 1;
    }
    assert(cs@.subrange(a as int, b as int) =~= lit@);
    true
}

/// Whether `cs[a..b]` begins with `lit`.
pub(crate) fn range_starts_with(cs: &Vec<char>, a: usize, b: usize, lit: &str) -> (r: bool)
    requires
        a <= b <= cs.len(),
    ensures
        r == has_prefix(cs@.subrange(a as int, b as int), lit@),
{
    let n = lit.unicode_len();
    if n > b - a {
        return false;
    }
    let eq = range_is(cs, a, a + n, lit);
    assert(cs@.subrange(a as int, b as int).take(n as int) =~= cs@.subrange(
        a as int,
        a + n,
    ));
    eq
}

/// The ASCII digit for `d`, which is below ten.
pub open spec fn digit_char(d: nat) -> char {
    (d + 48) as char
}

/// The decimal digits of `n`, most significant first, without leading zeros.
pub open spec fn decimal(n: nat) -> Seq<char>
    decreases n,
{
    if n < 10 {
        seq![digit_char(n)]
    } else {
        decimal(n / 10).push(digit_char(n % 10))
    }
}

/// Calls `String::push`, which appends `c` to the string.
#[verifier::external_body]
pub(crate) fn push_char(s: &mut String, c: char)
    ensures
        final(s)@ == old(s)@.push(c),
{
    s.push(c);
}

/// Calls `String::pop`, which removes and returns the last character, or
/// returns `None` and leaves the string alone when it is empty.
#[verifier::external_body]
pub(crate) fn pop_char(s: &mut String) -> (c: Option<char>)
    ensures
        old(s)@.len() > 0 ==> c == Some(old(s)@.last()) && final(s)@ == old(s)@.drop_last(),
        old(s)@.len() == 0 ==> c is None && final(s)@ == old(s)@,
{
    s.pop()
}

/// The decimal text of `n`.
pub(crate) fn decimal_text(n: u32) -> (s: String)
    ensures
        s@ == decimal(n as nat),
{
    let mut digits: Vec<char> = Vec::new();
    let mut rest = n;
    loop
        invariant_except_break
            decimal(n as nat) == decimal(rest as nat) + digits@.reverse(),
        ensures
            decimal(n as nat) == digits@.reverse(),
        decreases rest,
    {
        let d = (rest % 10) as u8;
        let c = (48u8 + d) as char;
        assert(c == digit_char((rest % 10) as nat));
        let ghost before = digits@;
        digits.push(c);
        assert(digits@.reverse() =~= seq![c] + before.reverse());
        if rest < 10 {
            assert(decimal(rest as nat) == seq![c]);
            assert(seq![c] + before.reverse() =~= digits@.reverse());
            break;
        }
        assert(decimal(rest as nat) == decimal((rest / 10) as nat).push(c));
        assert(decimal((rest / 10) as nat).push(c) + before.reverse() =~= decimal(
            (rest / 10) as nat,
        ) + digits@.reverse());
        rest = rest / 10;
    }
    let mut s = String::new();
    let mut k = digits.len();
    while k > 0
        invariant
            0 <= k <= digits.len(),
            s@ == digits@.reverse().take(digits.len() - k),
        decreases k,
    {
        k -= 1;
        push_char(&mut s, digits[k]);
        assert(digits@.reverse().take(digits.len() - k) =~= digits@.reverse().take(
            digits.len() - k - 1,
        ).push(digits@[k as int]));
    }
    assert(digits@.reverse().take(digits.len() as int) =~= digits@.reverse());
    s
}

} // verus!
