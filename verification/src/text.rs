//! Text helpers over sequences of characters.
//!
//! Every contract here speaks of a string by its view, a `Seq<char>`. The executable
//! functions work on `Vec<char>` and convert at their edges.

use vstd::prelude::*;

verus! {

/// Appends one character to a string.
///
/// Trusted: this is `String::push`, which the standard library documents as appending
/// the given character to the end of the string.
#[verifier::external_body]
pub(crate) fn push_char(s: &mut String, c: char)
    ensures
        final(s)@ == old(s)@.push(c),
{
    s.push(c)
}

/// The characters of a string, in order.
pub fn chars_of(s: &str) -> (v: Vec<char>)
    ensures
        v@ == s@,
{
    let mut v: Vec<char> = Vec::new();
    for c in it: s.chars()
        invariant
            it.seq() == s@,
            v@ == s@.subrange(0, it.index() as int),
    {
        v.push(c);
        assert(v@ =~= s@.subrange(0, it.index() + 1));
    }
    assert(v@ =~= s@);
    v
}

/// The string that holds the characters `v[from..to]`.
pub fn string_of(v: &Vec<char>, from: usize, to: usize) -> (s: String)
    requires
        from <= to <= v.len(),
    ensures
        s@ == v@.subrange(from as int, to as int),
{
    let mut s = String::new();
    let mut i: usize = from;
    while i < to
        invariant
            from <= i <= to <= v.len(),
            s@ == v@.subrange(from as int, i as int),
        decreases to - i,
    {
        push_char(&mut s, v[i]);
        i += 1;
        assert(s@ =~= v@.subrange(from as int, i as int));
    }
    s
}

/// Whether `c` has the Unicode property White_Space.
pub open spec fn is_whitespace(c: char) -> bool {
    ||| '\u{9}' <= c <= '\u{d}'
    ||| c == ' '
    ||| c == '\u{85}'
    ||| c == '\u{a0}'
    ||| c == '\u{1680}'
    ||| '\u{2000}' <= c <= '\u{200a}'
    ||| c == '\u{2028}'
    ||| c == '\u{2029}'
    ||| c == '\u{202f}'
    ||| c == '\u{205f}'
    ||| c == '\u{3000}'
}

/// Decides whether `c` is white space.
pub fn whitespace(c: char) -> (b: bool)
    ensures
        b == is_whitespace(c),
{
    ('\u{9}' <= c && c <= '\u{d}') || c == ' ' || c == '\u{85}' || c == '\u{a0}' || c
        == '\u{1680}' || ('\u{2000}' <= c && c <= '\u{200a}') || c == '\u{2028}' || c
        == '\u{2029}' || c == '\u{202f}' || c == '\u{205f}' || c == '\u{3000}'
}

/// Number of white-space characters at the start of `s`.
pub open spec fn leading_blank(s: Seq<char>) -> nat
    decreases s.len(),
{
    if s.len() > 0 && is_whitespace(s[0]) {
        1 + leading_blank(s.drop_first())
    } else {
        0
    }
}

/// Number of white-space characters at the end of `s`.
pub open spec fn trailing_blank(s: Seq<char>) -> nat
    decreases s.len(),
{
    if s.len() > 0 && is_whitespace(s.last()) {
        1 + trailing_blank(s.drop_last())
    } else {
        0
    }
}

/// `s` without its leading and trailing white space.
pub open spec fn trimmed(s: Seq<char>) -> Seq<char> {
    let a = leading_blank(s);
    if a == s.len() {
        Seq::<char>::empty()
    } else {
        s.subrange(a as int, s.len() - trailing_blank(s))
    }
}

/// `leading_blank(s)` is the first index that holds no white space.
pub proof fn lemma_leading_blank(s: Seq<char>, k: int)
    requires
        0 <= k <= s.len(),
        forall|i: int| 0 <= i < k ==> is_whitespace(#[trigger] s[i]),
        k < s.len() ==> !is_whitespace(s[k]),
    ensures
        leading_blank(s) == k,
    decreases k,
{
    if k > 0 {
        let t = s.drop_first();
        assert forall|i: int| 0 <= i < k - 1 implies is_whitespace(#[trigger] t[i]) by {
            assert(t[i] == s[i + 1]);
        }
        lemma_leading_blank(t, k - 1);
    }
}

/// `trailing_blank(s)` counts back to the last index that holds no white space.
pub proof fn lemma_trailing_blank(s: Seq<char>, k: int)
    requires
        0 <= k <= s.len(),
        forall|i: int| s.len() - k <= i < s.len() ==> is_whitespace(#[trigger] s[i]),
        k < s.len() ==> !is_whitespace(s[s.len() - k - 1]),
    ensures
        trailing_blank(s) == k,
    decreases k,
{
    if k > 0 {
        let t = s.drop_last();
        assert forall|i: int| t.len() - (k - 1) <= i < t.len() implies is_whitespace(
            #[trigger] t[i],
        ) by {
            assert(t[i] == s[i]);
        }
        lemma_trailing_blank(t, k - 1);
    }
}

/// The bounds of the trimmed part of `v[from..to]`: `v[a..b]` is that range without its
/// leading and trailing white space.
pub fn trim_bounds(v: &Vec<char>, from: usize, to: usize) -> (r: (usize, usize))
    requires
        from <= to <= v.len(),
    ensures
        from <= r.0 <= r.1 <= to,
        v@.subrange(r.0 as int, r.1 as int) == trimmed(v@.subrange(from as int, to as int)),
{
    let ghost s = v@.subrange(from as int, to as int);
    let mut a: usize = from;
    while a < to && whitespace(v[a])
        invariant
            from <= a <= to <= v.len(),
            s == v@.subrange(from as int, to as int),
            forall|i: int| 0 <= i < a - from ==> is_whitespace(#[trigger] s[i]),
        decreases to - a,
    {
        a += 1;
    }
    proof {
        lemma_leading_blank(s, a - from);
    }
    if a == to {
        assert(v@.subrange(a as int, a as int) =~= Seq::<char>::empty());
        return (a, a);
    }
    let mut b: usize = to;
    while b > a && whitespace(v[b - 1])
        invariant
            from <= a < b <= to <= v.len(),
            s == v@.subrange(from as int, to as int),
            !is_whitespace(s[a - from]),
            forall|i: int| b - from <= i < s.len() ==> is_whitespace(#[trigger] s[i]),
        decreases b,
    {
        b -= 1;
        assert(b > a) by {
            if b == a {
                assert(s[a - from] == v@[b as int]);
            }
        }
    }
    proof {
        lemma_trailing_blank(s, to - b);
        assert(v@.subrange(a as int, b as int) =~= s.subrange(a - from, s.len() - (to - b)));
    }
    (a, b)
}

/// The string without its leading and trailing white space.
pub fn trim(s: &str) -> (t: String)
    ensures
        t@ == trimmed(s@),
{
    let v = chars_of(s);
    let (a, b) = trim_bounds(&v, 0, v.len());
    assert(v@.subrange(0, v.len() as int) =~= v@);
    string_of(&v, a, b)
}

/// The character of the decimal digit `d`.
pub open spec fn digit_char(d: nat) -> char
    recommends
        d < 10,
{
    (48 + d) as u8 as char
}

/// `n` in decimal, without leading zeros.
pub open spec fn decimal(n: nat) -> Seq<char>
    decreases n,
{
    if n < 10 {
        seq![digit_char(n)]
    } else {
        decimal(n / 10).push(digit_char(n % 10))
    }
}

/// Appends `n` in decimal to `out`.
pub fn push_decimal(out: &mut String, n: u64)
    ensures
        final(out)@ == old(out)@ + decimal(n as nat),
    decreases n,
{
    if n >= 10 {
        push_decimal(out, n / 10);
    }
    let d: u8 = (n % 10) as u8;
    push_char(out, (48 + d) as char);
    assert(out@ =~= old(out)@ + decimal(n as nat));
}

/// `n` in decimal.
pub fn decimal_string(n: u64) -> (s: String)
    ensures
        s@ == decimal(n as nat),
{
    let mut s = String::new();
    push_decimal(&mut s, n);
    assert(s@ =~= decimal(n as nat));
    s
}

/// Whether `p` stands in `s` at index `i`.
pub open spec fn occurs_at(s: Seq<char>, p: Seq<char>, i: int) -> bool {
    0 <= i && i + p.len() <= s.len() && s.subrange(i, i + p.len()) == p
}

/// Whether `p` stands somewhere in `s`.
pub open spec fn contains_text(s: Seq<char>, p: Seq<char>) -> bool {
    exists|i: int| occurs_at(s, p, i)
}

/// Whether `s` begins with `p`.
pub open spec fn has_prefix(s: Seq<char>, p: Seq<char>) -> bool {
    occurs_at(s, p, 0)
}

/// Decides [`occurs_at`].
pub fn matches_at(s: &[char], p: &[char], i: usize) -> (b: bool)
    ensures
        b == occurs_at(s@, p@, i as int),
{
    if p.len() > s.len() || i > s.len() - p.len() {
        return false;
    }
    let mut k: usize = 0;
    while k < p.len()
        invariant
            k <= p.len(),
            i + p.len() <= s.len(),
            forall|j: int| 0 <= j < k ==> s@[i + j] == p@[j],
        decreases p.len() - k,
    {
        if s[i + k] != p[k] {
            assert(s@.subrange(i as int, i + p.len())[k as int] == s@[i + k]);
            return false;
        }
        k += 1;
    }
    assert(s@.subrange(i as int, i + p.len()) =~= p@);
    true
}

/// Decides [`has_prefix`].
pub fn starts_with(s: &[char], p: &[char]) -> (b: bool)
    ensures
        b == has_prefix(s@, p@),
{
    matches_at(s, p, 0)
}

/// Decides [`contains_text`].
pub fn contains(s: &[char], p: &[char]) -> (b: bool)
    ensures
        b == contains_text(s@, p@),
{
    if p.len() > s.len() {
        return false;
    }
    let last: usize = s.len() - p.len();
    let mut i: usize = 0;
    loop
        invariant
            last == s.len() - p.len(),
            i <= last,
            forall|j: int| 0 <= j < i ==> !occurs_at(s@, p@, j),
        decreases last - i,
    {
        if matches_at(s, p, i) {
            return true;
        }
        if i == last {
            return false;
        }
        i += 1;
    }
}

/// `s` with every occurrence of `from` replaced by `to`, found from left to right, an
/// occurrence starting only where the one before it has ended. An empty `from` occurs
/// nowhere.
pub open spec fn replaced(s: Seq<char>, from: Seq<char>, to: Seq<char>) -> Seq<char>
    decreases s.len(),
{
    if from.len() == 0 || s.len() < from.len() {
        s
    } else if occurs_at(s, from, 0) {
        to + replaced(s.subrange(from.len() as int, s.len() as int), from, to)
    } else {
        seq![s[0]] + replaced(s.drop_first(), from, to)
    }
}

/// Computes [`replaced`].
pub fn replace_all(s: &[char], from: &[char], to: &[char]) -> (r: Vec<char>)
    ensures
        r@ == replaced(s@, from@, to@),
{
    let mut r: Vec<char> = Vec::new();
    let mut i: usize = 0;
    if from.len() == 0 {
        while i < s.len()
            invariant
                i <= s.len(),
                r@ == s@.subrange(0, i as int),
            decreases s.len() - i,
        {
            r.push(s[i]);
            i += 1;
            assert(r@ =~= s@.subrange(0, i as int));
        }
        assert(s@.subrange(0, s.len() as int) =~= s@);
        return r;
    }
    assert(s@.subrange(0, s.len() as int) =~= s@);
    assert(r@ + replaced(s@, from@, to@) =~= replaced(s@, from@, to@));
    while i < s.len()
        invariant
            i <= s.len(),
            from.len() > 0,
            replaced(s@, from@, to@) == r@ + replaced(
                s@.subrange(i as int, s.len() as int),
                from@,
                to@,
            ),
        decreases s.len() - i,
    {
        let ghost rest = s@.subrange(i as int, s.len() as int);
        let ghost before = r@;
        if s.len() - i < from.len() {
            let mut k: usize = i;
            while k < s.len()
                invariant
                    i <= k <= s.len(),
                    r@ == before + s@.subrange(i as int, k as int),
                decreases s.len() - k,
            {
                r.push(s[k]);
                k += 1;
                assert(r@ =~= before + s@.subrange(i as int, k as int));
            }
            return r;
        }
        if matches_at(s, from, i) {
            proof {
                assert(rest.subrange(0, from.len() as int) =~= s@.subrange(
                    i as int,
                    i + from.len(),
                ));
                assert(rest.subrange(from.len() as int, rest.len() as int) =~= s@.subrange(
                    i + from.len(),
                    s.len() as int,
                ));
            }
            let mut k: usize = 0;
            while k < to.len()
                invariant
                    k <= to.len(),
                    r@ == before + to@.subrange(0, k as int),
                decreases to.len() - k,
            {
                r.push(to[k]);
                k += 1;
                assert(r@ =~= before + to@.subrange(0, k as int));
            }
            assert(to@.subrange(0, to.len() as int) =~= to@);
            i += from.len();
            assert(replaced(s@, from@, to@) =~= r@ + replaced(
                s@.subrange(i as int, s.len() as int),
                from@,
                to@,
            ));
        } else {
            proof {
                assert(rest.subrange(0, from.len() as int) =~= s@.subrange(
                    i as int,
                    i + from.len(),
                ));
                assert(rest.drop_first() =~= s@.subrange(i + 1, s.len() as int));
                assert(rest[0] == s@[i as int]);
            }
            r.push(s[i]);
            i += 1;
            assert(replaced(s@, from@, to@) =~= r@ + replaced(
                s@.subrange(i as int, s.len() as int),
                from@,
                to@,
            ));
        }
    }
    assert(s@.subrange(s.len() as int, s.len() as int) =~= Seq::<char>::empty());
    assert(replaced(Seq::<char>::empty(), from@, to@) =~= Seq::<char>::empty());
    r
}

/// The texts that a list of character vectors holds.
pub open spec fn rows(v: Seq<Vec<char>>) -> Seq<Seq<char>> {
    v.map_values(|row: Vec<char>| row@)
}

/// `line` without one carriage return at its end.
pub open spec fn without_cr(line: Seq<char>) -> Seq<char> {
    if line.len() > 0 && line.last() == '\r' {
        line.drop_last()
    } else {
        line
    }
}

/// The lines of `s` when `current` was read since the last line feed.
pub open spec fn lines_from(s: Seq<char>, current: Seq<char>) -> Seq<Seq<char>>
    decreases s.len(),
{
    if s.len() == 0 {
        if current.len() > 0 {
            seq![current]
        } else {
            Seq::<Seq<char>>::empty()
        }
    } else if s[0] == '\n' {
        seq![without_cr(current)] + lines_from(s.drop_first(), Seq::<char>::empty())
    } else {
        lines_from(s.drop_first(), current.push(s[0]))
    }
}

/// The lines of `s`. A line ends at a line feed, or at a carriage return followed by
/// one; neither belongs to the line. After the last line feed an empty rest is no
/// line.
pub open spec fn lines_of(s: Seq<char>) -> Seq<Seq<char>> {
    lines_from(s, Seq::<char>::empty())
}

/// Computes [`lines_of`].
pub fn lines(s: &[char]) -> (r: Vec<Vec<char>>)
    ensures
        rows(r@) == lines_of(s@),
{
    let mut r: Vec<Vec<char>> = Vec::new();
    let mut current: Vec<char> = Vec::new();
    let mut i: usize = 0;
    assert(s@.subrange(0, s.len() as int) =~= s@);
    assert(rows(r@) =~= Seq::<Seq<char>>::empty());
    while i < s.len()
        invariant
            i <= s.len(),
            lines_of(s@) == rows(r@) + lines_from(
                s@.subrange(i as int, s.len() as int),
                current@,
            ),
        decreases s.len() - i,
    {
        let ghost rest = s@.subrange(i as int, s.len() as int);
        let ghost done = rows(r@);
        let ghost read = current@;
        assert(rest.drop_first() =~= s@.subrange(i + 1, s.len() as int));
        assert(rest[0] == s@[i as int]);
        if s[i] == '\n' {
            let n: usize = current.len();
            if n > 0 && current[n - 1] == '\r' {
                current.pop();
            }
            assert(current@ =~= without_cr(read));
            r.push(current);
            assert(rows(r@) =~= done.push(without_cr(read)));
            current = Vec::new();
            assert(lines_of(s@) =~= rows(r@) + lines_from(
                s@.subrange(i + 1, s.len() as int),
                current@,
            ));
        } else {
            current.push(s[i]);
        }
        i += 1;
    }
    let ghost done = rows(r@);
    assert(s@.subrange(s.len() as int, s.len() as int) =~= Seq::<char>::empty());
    if current.len() > 0 {
        let ghost read = current@;
        r.push(current);
        assert(rows(r@) =~= done.push(read));
        assert(lines_of(s@) =~= rows(r@));
    } else {
        assert(lines_of(s@) =~= rows(r@));
    }
    r
}

/// The words of `s` when `current` was read since the last white space.
pub open spec fn words_from(s: Seq<char>, current: Seq<char>) -> Seq<Seq<char>>
    decreases s.len(),
{
    if s.len() == 0 {
        if current.len() > 0 {
            seq![current]
        } else {
            Seq::<Seq<char>>::empty()
        }
    } else if is_whitespace(s[0]) {
        if current.len() > 0 {
            seq![current] + words_from(s.drop_first(), Seq::<char>::empty())
        } else {
            words_from(s.drop_first(), Seq::<char>::empty())
        }
    } else {
        words_from(s.drop_first(), current.push(s[0]))
    }
}

/// The words of `s`: its longest runs of characters that are not white space.
pub open spec fn words_of(s: Seq<char>) -> Seq<Seq<char>> {
    words_from(s, Seq::<char>::empty())
}

/// Computes [`words_of`].
pub fn words(s: &[char]) -> (r: Vec<Vec<char>>)
    ensures
        rows(r@) == words_of(s@),
{
    let mut r: Vec<Vec<char>> = Vec::new();
    let mut current: Vec<char> = Vec::new();
    let mut i: usize = 0;
    assert(s@.subrange(0, s.len() as int) =~= s@);
    assert(rows(r@) =~= Seq::<Seq<char>>::empty());
    while i < s.len()
        invariant
            i <= s.len(),
            words_of(s@) == rows(r@) + words_from(
                s@.subrange(i as int, s.len() as int),
                current@,
            ),
        decreases s.len() - i,
    {
        let ghost rest = s@.subrange(i as int, s.len() as int);
        let ghost done = rows(r@);
        let ghost read = current@;
        assert(rest.drop_first() =~= s@.subrange(i + 1, s.len() as int));
        assert(rest[0] == s@[i as int]);
        if whitespace(s[i]) {
            if current.len() > 0 {
                r.push(current);
                assert(rows(r@) =~= done.push(read));
                current = Vec::new();
                assert(words_of(s@) =~= rows(r@) + words_from(
                    s@.subrange(i + 1, s.len() as int),
                    current@,
                ));
            } else {
                assert(current@ =~= Seq::<char>::empty());
            }
        } else {
            current.push(s[i]);
        }
        i += 1;
    }
    let ghost done = rows(r@);
    assert(s@.subrange(s.len() as int, s.len() as int) =~= Seq::<char>::empty());
    if current.len() > 0 {
        let ghost read = current@;
        r.push(current);
        assert(rows(r@) =~= done.push(read));
        assert(words_of(s@) =~= rows(r@));
    } else {
        assert(words_of(s@) =~= rows(r@));
    }
    r
}

/// The string that holds the characters of `s`.
pub fn text_of(s: &[char]) -> (t: String)
    ensures
        t@ == s@,
{
    let mut t = String::new();
    let mut i: usize = 0;
    while i < s.len()
        invariant
            i <= s.len(),
            t@ == s@.subrange(0, i as int),
        decreases s.len() - i,
    {
        push_char(&mut t, s[i]);
        i += 1;
        assert(t@ =~= s@.subrange(0, i as int));
    }
    assert(s@.subrange(0, s.len() as int) =~= s@);
    t
}

/// Whether two texts hold the same characters.
pub fn text_eq(a: &[char], b: &[char]) -> (same: bool)
    ensures
        same == (a@ == b@),
{
    if a.len() != b.len() {
        return false;
    }
    let same = matches_at(a, b, 0);
    assert(a@.subrange(0, a.len() as int) =~= a@);
    same
}

/// Whether two strings hold the same characters.
pub fn same_text(a: &str, b: &str) -> (same: bool)
    ensures
        same == (a@ == b@),
{
    let x = chars_of(a);
    let y = chars_of(b);
    text_eq(x.as_slice(), y.as_slice())
}

/// The lower-case form of a text, as the standard library computes it.
pub uninterp spec fn lowercase_of(s: Seq<char>) -> Seq<char>;

/// The lower-case form of `s`.
///
/// Trusted: this is `str::to_lowercase`. It maps each character by the Unicode
/// lower-case mapping, which depends on nothing but the text; the mapping itself is
/// not spelled out here.
#[verifier::external_body]
pub(crate) fn to_lowercase(s: &str) -> (lowered: String)
    ensures
        lowered@ == lowercase_of(s@),
{
    s.to_lowercase()
}

/// The texts of `parts` with `separator` between each two.
pub open spec fn join_with(parts: Seq<Seq<char>>, separator: Seq<char>) -> Seq<char>
    decreases parts.len(),
{
    if parts.len() == 0 {
        Seq::<char>::empty()
    } else if parts.len() == 1 {
        parts[0]
    } else {
        join_with(parts.drop_last(), separator) + separator + parts.last()
    }
}


/// Where `s` is not all white space, the first character after its leading white
/// space is none, and neither is the last before its trailing white space; the two
/// runs of white space do not meet.
pub proof fn lemma_blank_runs(s: Seq<char>)
    ensures
        leading_blank(s) <= s.len(),
        trailing_blank(s) <= s.len(),
        leading_blank(s) < s.len() ==> !is_whitespace(s[leading_blank(s) as int])
            && !is_whitespace(s[s.len() - trailing_blank(s) - 1])
            && leading_blank(s) + trailing_blank(s) < s.len(),
{
    lemma_leading_facts(s);
    lemma_trailing_facts(s);
    if leading_blank(s) < s.len() {
        lemma_trailing_stops(s, leading_blank(s) as int);
    }
}

/// The trailing white space of `s` ends after any character that is none.
pub proof fn lemma_trailing_stops(s: Seq<char>, i: int)
    requires
        0 <= i < s.len(),
        !is_whitespace(s[i]),
    ensures
        trailing_blank(s) < s.len() - i,
        !is_whitespace(s[s.len() - trailing_blank(s) - 1]),
    decreases s.len(),
{
    if is_whitespace(s.last()) {
        let t = s.drop_last();
        assert(t[i] == s[i]);
        lemma_trailing_stops(t, i);
        assert(t[t.len() - trailing_blank(t) - 1] == s[s.len() - trailing_blank(s) - 1]);
    }
}

/// The leading white space of `s` is white space, and what follows it is none.
pub proof fn lemma_leading_facts(s: Seq<char>)
    ensures
        leading_blank(s) <= s.len(),
        forall|j: int| 0 <= j < leading_blank(s) ==> is_whitespace(#[trigger] s[j]),
        leading_blank(s) < s.len() ==> !is_whitespace(s[leading_blank(s) as int]),
    decreases s.len(),
{
    if s.len() > 0 && is_whitespace(s[0]) {
        let t = s.drop_first();
        lemma_leading_facts(t);
        assert forall|j: int| 0 <= j < leading_blank(s) implies is_whitespace(#[trigger] s[j]) by {
            if j > 0 {
                assert(s[j] == t[j - 1]);
            }
        }
        if leading_blank(t) < t.len() {
            assert(t[leading_blank(t) as int] == s[leading_blank(s) as int]);
        }
    }
}

/// The trailing white space of `s` is white space, and what stands before it is none.
pub proof fn lemma_trailing_facts(s: Seq<char>)
    ensures
        trailing_blank(s) <= s.len(),
        forall|j: int| s.len() - trailing_blank(s) <= j < s.len() ==> is_whitespace(#[trigger] s[j]),
        trailing_blank(s) < s.len() ==> !is_whitespace(s[s.len() - trailing_blank(s) - 1]),
    decreases s.len(),
{
    if s.len() > 0 && is_whitespace(s.last()) {
        let t = s.drop_last();
        lemma_trailing_facts(t);
        assert forall|j: int| s.len() - trailing_blank(s) <= j < s.len() implies is_whitespace(
            #[trigger] s[j],
        ) by {
            if j < s.len() - 1 {
                assert(s[j] == t[j]);
            }
        }
        if trailing_blank(t) < t.len() {
            assert(t[t.len() - trailing_blank(t) - 1] == s[s.len() - trailing_blank(s) - 1]);
        }
    }
}

/// A trimmed text neither begins nor ends with white space.
pub proof fn lemma_trimmed_ends(s: Seq<char>)
    ensures
        trimmed(s).len() > 0 ==> !is_whitespace(trimmed(s).first()) && !is_whitespace(
            trimmed(s).last(),
        ),
        trimmed(s).len() <= s.len(),
{
    lemma_blank_runs(s);
}

/// A text that neither begins nor ends with white space is its own trimmed form, also
/// with white space put after it.
pub proof fn lemma_trim_of_clean(y: Seq<char>, c: char)
    requires
        y.len() > 0,
        !is_whitespace(y.first()),
        !is_whitespace(y.last()),
        is_whitespace(c),
    ensures
        trimmed(y) == y,
        trimmed(y.push(c)) == y,
{
    lemma_leading_blank(y, 0);
    lemma_trailing_blank(y, 0);
    assert(y.subrange(0, y.len() as int) =~= y);
    let z = y.push(c);
    lemma_leading_blank(z, 0);
    lemma_trailing_blank(z, 1);
    assert(z.subrange(0, z.len() - 1) =~= y);
}

} // verus!
