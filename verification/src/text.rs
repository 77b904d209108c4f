//! Character-level text operations used by the log dispatcher and the
//! configuration planners, each stated over `Seq<char>`.
use vstd::prelude::*;
use vstd::string::*;

verus! {

/// Unicode `White_Space` property, the set that `char::is_whitespace` tests.
pub open spec fn is_white_space(c: char) -> bool {
    ||| c == '\t'
    ||| c == '\n'
    ||| c == '\u{0B}'
    ||| c == '\u{0C}'
    ||| c == '\r'
    ||| c == ' '
    ||| c == '\u{85}'
    ||| c == '\u{A0}'
    ||| c == '\u{1680}'
    ||| ('\u{2000}' <= c && c <= '\u{200A}')
    ||| c == '\u{2028}'
    ||| c == '\u{2029}'
    ||| c == '\u{202F}'
    ||| c == '\u{205F}'
    ||| c == '\u{3000}'
}

/// `s` without its leading white space.
pub open spec fn trim_start(s: Seq<char>) -> Seq<char>
    decreases s.len(),
{
    if s.len() > 0 && is_white_space(s[0]) {
        trim_start(s.drop_first())
    } else {
        s
    }
}

/// `s` without its trailing white space.
pub open spec fn trim_end(s: Seq<char>) -> Seq<char>
    decreases s.len(),
{
    if s.len() > 0 && is_white_space(s.last()) {
        trim_end(s.drop_last())
    } else {
        s
    }
}

/// `s` without leading and trailing white space (what `str::trim` gives).
pub open spec fn trim(s: Seq<char>) -> Seq<char> {
    trim_end(trim_start(s))
}

/// `s` without its leading occurrences of `c`.
pub open spec fn trim_start_char(s: Seq<char>, c: char) -> Seq<char>
    decreases s.len(),
{
    if s.len() > 0 && s[0] == c {
        trim_start_char(s.drop_first(), c)
    } else {
        s
    }
}

/// `s` without its trailing occurrences of `c`.
pub open spec fn trim_end_char(s: Seq<char>, c: char) -> Seq<char>
    decreases s.len(),
{
    if s.len() > 0 && s.last() == c {
        trim_end_char(s.drop_last(), c)
    } else {
        s
    }
}

/// `s` without leading and trailing occurrences of `c` (what `str::trim_matches(c)` gives).
pub open spec fn trim_char(s: Seq<char>, c: char) -> Seq<char> {
    trim_end_char(trim_start_char(s, c), c)
}

/// `p` is a prefix of `s`.
pub open spec fn is_prefix(p: Seq<char>, s: Seq<char>) -> bool {
    p.len() <= s.len() && s.subrange(0, p.len() as int) == p
}

/// `needle` occurs in `s` at position `i`.
pub open spec fn occurs_at(s: Seq<char>, needle: Seq<char>, i: int) -> bool {
    0 <= i && i + needle.len() <= s.len() && s.subrange(i, i + needle.len()) == needle
}

/// `needle` occurs somewhere in `s` (the empty needle occurs in every string).
pub open spec fn contains_seq(s: Seq<char>, needle: Seq<char>) -> bool {
    exists|i: int| #[trigger] occurs_at(s, needle, i)
}

/// Index of the last `c` in `s`, or -1 where there is none.
pub open spec fn last_index_of(s: Seq<char>, c: char) -> int
    decreases s.len(),
{
    if s.len() == 0 {
        -1
    } else if s.last() == c {
        s.len() - 1
    } else {
        last_index_of(s.drop_last(), c)
    }
}

/// The pieces of `s` between the occurrences of `sep` (what `str::split(sep)` yields).
pub open spec fn split_on(s: Seq<char>, sep: char) -> Seq<Seq<char>>
    decreases s.len(),
{
    if s.len() == 0 {
        seq![Seq::<char>::empty()]
    } else {
        let init = split_on(s.drop_last(), sep);
        if s.last() == sep {
            init.push(Seq::<char>::empty())
        } else {
            init.update(init.len() - 1, init.last().push(s.last()))
        }
    }
}

/// ASCII upper-casing of one character (what `char::to_ascii_uppercase` gives).
pub open spec fn ascii_upper(c: char) -> char {
    if 'a' <= c && c <= 'z' {
        ((c as u32) - 32) as char
    } else {
        c
    }
}

/// ASCII upper-casing of a string (what `str::to_ascii_uppercase` gives).
pub open spec fn ascii_upper_seq(s: Seq<char>) -> Seq<char> {
    s.map_values(|c: char| ascii_upper(c))
}

/// `s` with every `from` replaced by `to` (what `str::replace(from, to)` gives for one character each).
pub open spec fn replace_char(s: Seq<char>, from: char, to: char) -> Seq<char> {
    s.map_values(|c: char| if c == from { to } else { c })
}

/// The pieces joined with `sep` between consecutive pieces (what `[String]::join(sep)` gives).
pub open spec fn join(parts: Seq<Seq<char>>, sep: Seq<char>) -> Seq<char>
    decreases parts.len(),
{
    if parts.len() == 0 {
        Seq::<char>::empty()
    } else if parts.len() == 1 {
        parts[0]
    } else {
        join(parts.drop_last(), sep) + sep + parts.last()
    }
}

/// The character views of a sequence of strings.
pub open spec fn string_views(v: Seq<String>) -> Seq<Seq<char>> {
    Seq::new(v.len(), |i: int| v[i]@)
}

/// Decimal digits of a natural number.
pub open spec fn decimal_digits(n: nat) -> Seq<char>
    decreases n,
{
    if n < 10 {
        seq![(('0' as u32) + n) as char]
    } else {
        decimal_digits(n / 10).push((('0' as u32) + (n % 10)) as char)
    }
}

/// Decimal text of an integer, with a leading `-` where it is negative
/// (what `Display` gives for the primitive integer types).
pub open spec fn decimal_text(n: int) -> Seq<char> {
    if n < 0 {
        seq!['-'] + decimal_digits((-n) as nat)
    } else {
        decimal_digits(n as nat)
    }
}

/// Tests the Unicode `White_Space` property, as `char::is_whitespace` does.
pub fn is_whitespace(c: char) -> (r: bool)
    ensures
        r == is_white_space(c),
{
    c == '\t' || c == '\n' || c == '\u{0B}' || c == '\u{0C}' || c == '\r' || c == ' ' || c
        == '\u{85}' || c == '\u{A0}' || c == '\u{1680}' || ('\u{2000}' <= c && c <= '\u{200A}')
        || c == '\u{2028}' || c == '\u{2029}' || c == '\u{202F}' || c == '\u{205F}' || c
        == '\u{3000}'
}

/// The characters of `s`, one by one.
pub fn chars_of(s: &str) -> (r: Vec<char>)
    ensures
        r@ == s@,
{
    let mut out: Vec<char> = Vec::new();
    for c in it: s.chars()
        invariant
            out@ == it.seq().take(it.index() as int),
    {
        out.push(c);
    }
    out
}

/// Appends one character to `s` through `String::push`. Claims that the
/// string afterwards is the old one with `c` at its end.
#[verifier::external_body]
pub(crate) fn push_char(s: &mut String, c: char)
    ensures
        final(s)@ == old(s)@.push(c),
{
    s.push(c);
}

/// The character of the decimal digit `d`.
pub fn digit_char(d: u32) -> (r: char)
    requires
        d < 10,
    ensures
        r == (('0' as u32) + d) as char,
{
    match d {
        0 => '0',
        1 => '1',
        2 => '2',
        3 => '3',
        4 => '4',
        5 => '5',
        6 => '6',
        7 => '7',
        8 => '8',
        _ => '9',
    }
}

/// Appends every character of `chars` to `s`, in order.
fn push_chars(s: &mut String, chars: &Vec<char>)
    ensures
        final(s)@ == old(s)@ + chars@,
{
    let mut i: usize = 0;
    while i < chars.len()
        invariant
            i <= chars@.len(),
            s@ == old(s)@ + chars@.take(i as int),
        decreases chars@.len() - i,
    {
        push_char(s, chars[i]);
        assert(chars@.take(i as int + 1) =~= chars@.take(i as int).push(chars@[i as int]));
        i = i + 1;
    }
    assert(chars@.take(chars@.len() as int) =~= chars@);
}

/// The decimal digits of `n`.
fn decimal_digit_chars(n: u128) -> (r: Vec<char>)
    ensures
        r@ == decimal_digits(n as nat),
{
    let mut m: u128 = n;
    let mut tail: Vec<char> = Vec::new();
    while m >= 10
        invariant
            decimal_digits(n as nat) == decimal_digits(m as nat) + tail@,
        decreases m,
    {
        let d = digit_char((m % 10) as u32);
        let ghost old_tail = tail@;
        tail.insert(0, d);
        assert(tail@ =~= seq![d] + old_tail);
        assert(decimal_digits(m as nat) == decimal_digits((m / 10) as nat).push(d));
        assert(decimal_digits((m / 10) as nat).push(d) + old_tail =~= decimal_digits((m / 10) as nat) + (seq![d]
            + old_tail));
        m = m / 10;
    }
    let mut out: Vec<char> = Vec::new();
    out.push(digit_char(m as u32));
    assert(out@ =~= decimal_digits(m as nat));
    let ghost head = out@;
    let mut i: usize = 0;
    while i < tail.len()
        invariant
            i <= tail@.len(),
            out@ == head + tail@.take(i as int),
        decreases tail@.len() - i,
    {
        out.push(tail[i]);
        assert(tail@.take(i as int + 1) =~= tail@.take(i as int).push(tail@[i as int]));
        i = i + 1;
    }
    assert(tail@.take(tail@.len() as int) =~= tail@);
    out
}

/// Decimal text of `n`: the digits, with a leading `-` for a negative `n`,
/// as `ToString` writes an `i128`.
pub(crate) fn decimal_string(n: i128) -> (r: String)
    ensures
        r@ == decimal_text(n as int),
{
    let mut out = string_of("");
    proof {
        reveal_strlit("");
    }
    let magnitude: u128 = if n < 0 {
        push_char(&mut out, '-');
        ((-(n + 1)) as u128) + 1
    } else {
        n as u128
    };
    let digits = decimal_digit_chars(magnitude);
    push_chars(&mut out, &digits);
    assert(out@ =~= decimal_text(n as int));
    out
}

/// A new `String` holding `s`.
pub fn string_of(s: &str) -> (r: String)
    ensures
        r@ == s@,
{
    s.to_owned()
}

proof fn lemma_subrange_drop_first(s: Seq<char>, lo: int, hi: int)
    requires
        0 <= lo < hi <= s.len(),
    ensures
        s.subrange(lo, hi).drop_first() == s.subrange(lo + 1, hi),
        s.subrange(lo, hi)[0] == s[lo],
{
    assert(s.subrange(lo, hi).drop_first() =~= s.subrange(lo + 1, hi));
}

proof fn lemma_subrange_drop_last(s: Seq<char>, lo: int, hi: int)
    requires
        0 <= lo < hi <= s.len(),
    ensures
        s.subrange(lo, hi).drop_last() == s.subrange(lo, hi - 1),
        s.subrange(lo, hi).last() == s[hi - 1],
{
    assert(s.subrange(lo, hi).drop_last() =~= s.subrange(lo, hi - 1));
}

/// The bounds of `trim(chars[lo..hi])` inside `chars`.
pub fn trim_range(chars: &Vec<char>, lo: usize, hi: usize) -> (r: (usize, usize))
    requires
        lo <= hi <= chars@.len(),
    ensures
        lo <= r.0 <= r.1 <= hi,
        chars@.subrange(r.0 as int, r.1 as int) == trim(chars@.subrange(lo as int, hi as int)),
{
    let ghost s = chars@;
    let mut a = lo;
    while a < hi && is_whitespace(chars[a])
        invariant
            lo <= a <= hi <= s.len(),
            s == chars@,
            trim_start(s.subrange(lo as int, hi as int)) == trim_start(
                s.subrange(a as int, hi as int),
            ),
        decreases hi - a,
    {
        proof {
            lemma_subrange_drop_first(s, a as int, hi as int);
        }
        a = a + 1;
    }
    proof {
        if a < hi {
            lemma_subrange_drop_first(s, a as int, hi as int);
        }
    }
    let mut b = hi;
    while b > a && is_whitespace(chars[b - 1])
        invariant
            lo <= a <= b <= hi <= s.len(),
            s == chars@,
            trim_end(s.subrange(a as int, hi as int)) == trim_end(s.subrange(a as int, b as int)),
        decreases b - a,
    {
        proof {
            lemma_subrange_drop_last(s, a as int, b as int);
        }
        b = b - 1;
    }
    proof {
        if b > a {
            lemma_subrange_drop_last(s, a as int, b as int);
        }
    }
    (a, b)
}

/// The bounds of `trim_char(chars[lo..hi], c)` inside `chars`.
pub fn trim_char_range(chars: &Vec<char>, lo: usize, hi: usize, c: char) -> (r: (usize, usize))
    requires
        lo <= hi <= chars@.len(),
    ensures
        lo <= r.0 <= r.1 <= hi,
        chars@.subrange(r.0 as int, r.1 as int) == trim_char(
            chars@.subrange(lo as int, hi as int),
            c,
        ),
{
    let ghost s = chars@;
    let mut a = lo;
    while a < hi && chars[a] == c
        invariant
            lo <= a <= hi <= s.len(),
            s == chars@,
            trim_start_char(s.subrange(lo as int, hi as int), c) == trim_start_char(
                s.subrange(a as int, hi as int),
                c,
            ),
        decreases hi - a,
    {
        proof {
            lemma_subrange_drop_first(s, a as int, hi as int);
        }
        a = a + 1;
    }
    proof {
        if a < hi {
            lemma_subrange_drop_first(s, a as int, hi as int);
        }
    }
    let mut b = hi;
    while b > a && chars[b - 1] == c
        invariant
            lo <= a <= b <= hi <= s.len(),
            s == chars@,
            trim_end_char(s.subrange(a as int, hi as int), c) == trim_end_char(
                s.subrange(a as int, b as int),
                c,
            ),
        decreases b - a,
    {
        proof {
            lemma_subrange_drop_last(s, a as int, b as int);
        }
        b = b - 1;
    }
    proof {
        if b > a {
            lemma_subrange_drop_last(s, a as int, b as int);
        }
    }
    (a, b)
}

/// `s` with leading and trailing white space removed, as `str::trim` gives it.
pub fn trim_str(s: &str) -> (r: &str)
    ensures
        r@ == trim(s@),
{
    let chars = chars_of(s);
    let (a, b) = trim_range(&chars, 0, chars.len());
    assert(chars@.subrange(0, chars@.len() as int) =~= s@);
    s.substring_char(a, b)
}

/// Whether `chars[lo..hi]` starts with `p`.
pub fn range_starts_with(chars: &Vec<char>, lo: usize, hi: usize, p: &Vec<char>) -> (r: bool)
    requires
        lo <= hi <= chars@.len(),
    ensures
        r == is_prefix(p@, chars@.subrange(lo as int, hi as int)),
{
    let ghost s = chars@.subrange(lo as int, hi as int);
    if p.len() > hi - lo {
        return false;
    }
    let mut i: usize = 0;
    while i < p.len()
        invariant
            lo <= hi <= chars@.len(),
            p@.len() <= hi - lo,
            i <= p@.len(),
            s == chars@.subrange(lo as int, hi as int),
            forall|j: int| 0 <= j < i ==> chars@[lo + j] == p@[j],
        decreases p@.len() - i,
    {
        if chars[lo + i] != p[i] {
            assert(s.subrange(0, p@.len() as int)[i as int] != p@[i as int]);
            return false;
        }
        i = i + 1;
    }
    assert(s.subrange(0, p@.len() as int) =~= p@);
    true
}

/// Whether `s` starts with `p`, as `str::starts_with` answers it.
pub fn starts_with(s: &str, p: &str) -> (r: bool)
    ensures
        r == is_prefix(p@, s@),
{
    let cs = chars_of(s);
    let ps = chars_of(p);
    assert(cs@.subrange(0, cs@.len() as int) =~= s@);
    range_starts_with(&cs, 0, cs.len(), &ps)
}

/// Whether `a` and `b` hold the same characters.
pub fn str_eq(a: &str, b: &str) -> (r: bool)
    ensures
        r == (a@ == b@),
{
    let ca = chars_of(a);
    let cb = chars_of(b);
    if ca.len() != cb.len() {
        return false;
    }
    let mut i: usize = 0;
    while i < ca.len()
        invariant
            ca@ == a@,
            cb@ == b@,
            ca@.len() == cb@.len(),
            i <= ca@.len(),
            forall|j: int| 0 <= j < i ==> ca@[j] == cb@[j],
        decreases ca@.len() - i,
    {
        if ca[i] != cb[i] {
            return false;
        }
        i = i + 1;
    }
    assert(ca@ =~= cb@);
    true
}

/// Whether the character `c` occurs in `s`.
pub fn contains_char(s: &str, c: char) -> (r: bool)
    ensures
        r == s@.contains(c),
{
    let cs = chars_of(s);
    let mut i: usize = 0;
    while i < cs.len()
        invariant
            cs@ == s@,
            i <= cs@.len(),
            forall|j: int| 0 <= j < i ==> cs@[j] != c,
        decreases cs@.len() - i,
    {
        if cs[i] == c {
            assert(s@[i as int] == c);
            return true;
        }
        i = i + 1;
    }
    false
}

/// Whether `needle` occurs in `s`, as `str::contains` answers it.
pub fn contains(s: &str, needle: &str) -> (r: bool)
    ensures
        r == contains_seq(s@, needle@),
{
    let cs = chars_of(s);
    let ns = chars_of(needle);
    let n = cs.len();
    let m = ns.len();
    if m > n {
        assert forall|i: int| !(#[trigger] occurs_at(s@, needle@, i)) by {}
        return false;
    }
    if m == 0 {
        assert(s@.subrange(0, 0) =~= needle@);
        assert(occurs_at(s@, needle@, 0));
        return true;
    }
    let mut i: usize = 0;
    while m <= n - i
        invariant
            cs@ == s@,
            ns@ == needle@,
            n == cs@.len(),
            m == ns@.len(),
            0 < m <= n,
            i <= n,
            forall|j: int| 0 <= j < i ==> !(#[trigger] occurs_at(s@, needle@, j)),
        decreases n - i,
    {
        if range_starts_with(&cs, i, n, &ns) {
            assert(cs@.subrange(i as int, n as int).subrange(0, m as int) =~= cs@.subrange(
                i as int,
                i + m,
            ));
            assert(occurs_at(s@, needle@, i as int));
            return true;
        }
        assert(cs@.subrange(i as int, n as int).subrange(0, m as int) =~= cs@.subrange(
            i as int,
            i + m,
        ));
        i = i + 1;
    }
    assert forall|j: int| !(#[trigger] occurs_at(s@, needle@, j)) by {
        if 0 <= j < i {
        }
    }
    false
}

/// Index of the last `c` in `chars`, or `None` where there is none.
pub fn last_index_of_char(chars: &Vec<char>, c: char) -> (r: Option<usize>)
    ensures
        r matches Some(i) ==> i == last_index_of(chars@, c) && i < chars@.len(),
        r is None ==> last_index_of(chars@, c) == -1,
        last_index_of(chars@, c) < chars@.len(),
        -1 <= last_index_of(chars@, c),
{
    let ghost s = chars@;
    let mut k = chars.len();
    assert(s.subrange(0, k as int) =~= s);
    while k > 0
        invariant
            k <= s.len(),
            s == chars@,
            last_index_of(s, c) == last_index_of(s.subrange(0, k as int), c),
            forall|j: int| k <= j < s.len() ==> s[j] != c,
        decreases k,
    {
        if chars[k - 1] == c {
            proof {
                lemma_last_index_bounds(s.subrange(0, k as int), c);
            }
            assert(s.subrange(0, k as int).last() == c);
            return Some(k - 1);
        }
        assert(s.subrange(0, k as int).drop_last() =~= s.subrange(0, k - 1));
        k = k - 1;
    }
    assert(s.subrange(0, 0) =~= Seq::<char>::empty());
    proof {
        lemma_last_index_bounds(s, c);
    }
    None
}

/// `last_index_of` lies in `-1..s.len()`, and where it is not -1 it points at `c`.
pub proof fn lemma_last_index_bounds(s: Seq<char>, c: char)
    ensures
        -1 <= last_index_of(s, c) < s.len(),
        last_index_of(s, c) >= 0 ==> s[last_index_of(s, c)] == c,
        forall|j: int| last_index_of(s, c) < j < s.len() ==> s[j] != c,
    decreases s.len(),
{
    if s.len() > 0 && s.last() != c {
        lemma_last_index_bounds(s.drop_last(), c);
        assert forall|j: int| last_index_of(s, c) < j < s.len() implies s[j] != c by {
            if j < s.len() - 1 {
                assert(s.drop_last()[j] == s[j]);
            }
        }
    }
}

/// ASCII upper-casing of one character, as `char::to_ascii_uppercase` does.
pub fn to_ascii_upper_char(c: char) -> (r: char)
    ensures
        r == ascii_upper(c),
{
    if 'a' <= c && c <= 'z' {
        ((c as u8) - 32) as char
    } else {
        c
    }
}

/// ASCII upper-casing of a string, as `str::to_ascii_uppercase` does.
pub fn to_ascii_uppercase(s: &str) -> (r: String)
    ensures
        r@ == ascii_upper_seq(s@),
{
    let cs = chars_of(s);
    let mut out = String::new();
    let mut i: usize = 0;
    while i < cs.len()
        invariant
            cs@ == s@,
            i <= cs@.len(),
            out@ == ascii_upper_seq(s@.subrange(0, i as int)),
        decreases cs@.len() - i,
    {
        push_char(&mut out, to_ascii_upper_char(cs[i]));
        i = i + 1;
        assert(out@ =~= ascii_upper_seq(s@.subrange(0, i as int)));
    }
    assert(s@.subrange(0, cs@.len() as int) =~= s@);
    out
}

/// `s` with every `from` replaced by `to`, as `str::replace` does for one character each.
pub fn replace_char_str(s: &str, from: char, to: char) -> (r: String)
    ensures
        r@ == replace_char(s@, from, to),
{
    let cs = chars_of(s);
    let mut out = String::new();
    let mut i: usize = 0;
    while i < cs.len()
        invariant
            cs@ == s@,
            i <= cs@.len(),
            out@ == replace_char(s@.subrange(0, i as int), from, to),
        decreases cs@.len() - i,
    {
        let c = cs[i];
        if c == from {
            push_char(&mut out, to);
        } else {
            push_char(&mut out, c);
        }
        i = i + 1;
        assert(out@ =~= replace_char(s@.subrange(0, i as int), from, to));
    }
    assert(s@.subrange(0, cs@.len() as int) =~= s@);
    out
}

/// The strings of `parts` joined with `sep`, as `[String]::join` does.
pub fn join_strings(parts: &Vec<String>, sep: &str) -> (r: String)
    ensures
        r@ == join(string_views(parts@), sep@),
{
    let mut out = String::new();
    let mut i: usize = 0;
    while i < parts.len()
        invariant
            i <= parts@.len(),
            out@ == join(string_views(parts@.subrange(0, i as int)), sep@),
        decreases parts@.len() - i,
    {
        let ghost before = string_views(parts@.subrange(0, i as int));
        if i > 0 {
            out.append(sep);
        }
        out.append(parts[i].as_str());
        i = i + 1;
        proof {
            let now = string_views(parts@.subrange(0, i as int));
            assert(now.drop_last() =~= before);
            assert(now.last() == parts@[i - 1]@);
            if i == 1 {
                assert(now.len() == 1);
            }
        }
    }
    assert(parts@.subrange(0, parts@.len() as int) =~= parts@);
    out
}

} // verus!
