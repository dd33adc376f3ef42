//! Character-level text helpers: whitespace, decimal numbers, tokens and
//! substring search, stated over `Seq<char>`.

use vstd::prelude::*;

verus! {

/// `char::is_whitespace`: the characters with the Unicode `White_Space` property.
pub open spec fn is_white_space(c: char) -> bool {
    let v = c as u32;
    ||| 0x9 <= v <= 0xd
    ||| v == 0x20
    ||| v == 0x85
    ||| v == 0xa0
    ||| v == 0x1680
    ||| 0x2000 <= v <= 0x200a
    ||| v == 0x2028
    ||| v == 0x2029
    ||| v == 0x202f
    ||| v == 0x205f
    ||| v == 0x3000
}

/// Whether `c` is one of the ASCII digits `0` to `9`.
pub open spec fn is_digit(c: char) -> bool {
    48 <= (c as u32) <= 57
}

/// Value of an ASCII digit.
pub open spec fn digit_value(c: char) -> nat {
    ((c as u32) - 48) as nat
}

/// The ASCII digit for a value below ten.
pub open spec fn digit_char(d: nat) -> char {
    if d == 0 {
        '0'
    } else if d == 1 {
        '1'
    } else if d == 2 {
        '2'
    } else if d == 3 {
        '3'
    } else if d == 4 {
        '4'
    } else if d == 5 {
        '5'
    } else if d == 6 {
        '6'
    } else if d == 7 {
        '7'
    } else if d == 8 {
        '8'
    } else {
        '9'
    }
}

/// Whether every character of `s` is an ASCII digit.
pub open spec fn all_digits(s: Seq<char>) -> bool {
    forall|i: int| 0 <= i < s.len() ==> #[trigger] is_digit(s[i])
}

/// The number that a string of ASCII digits denotes in base ten.
pub open spec fn digits_value(s: Seq<char>) -> nat
    decreases s.len(),
{
    if s.len() == 0 {
        0
    } else {
        digits_value(s.drop_last()) * 10 + digit_value(s.last())
    }
}

/// The shortest base-ten text of `n` (what `Display` prints for an integer).
pub open spec fn decimal(n: nat) -> Seq<char>
    decreases n,
{
    if n < 10 {
        seq![digit_char(n)]
    } else {
        decimal(n / 10).push(digit_char(n % 10))
    }
}

/// What `from_str` of an unsigned integer type whose largest value is `max`
/// gives for `s`: an optional `+`, then one or more ASCII digits whose value
/// does not exceed `max`.
pub open spec fn parse_unsigned(s: Seq<char>, max: nat) -> Option<nat> {
    let d = if s.len() > 0 && s[0] == '+' {
        s.drop_first()
    } else {
        s
    };
    if d.len() > 0 && all_digits(d) && digits_value(d) <= max {
        Some(digits_value(d))
    } else {
        None
    }
}

/// `s` holds `p` at position `i`.
pub open spec fn occurs_at(s: Seq<char>, p: Seq<char>, i: int) -> bool {
    0 <= i && i + p.len() <= s.len() && s.subrange(i, i + p.len()) == p
}

/// `str::contains` with a string pattern.
pub open spec fn contains_text(s: Seq<char>, p: Seq<char>) -> bool {
    exists|i: int| occurs_at(s, p, i)
}

/// The maximal run of non-whitespace characters at the start of `s`.
pub open spec fn leading_run(s: Seq<char>) -> Seq<char>
    decreases s.len(),
{
    if s.len() == 0 || is_white_space(s[0]) {
        Seq::empty()
    } else {
        seq![s[0]] + leading_run(s.drop_first())
    }
}

/// The first item of `str::split_whitespace`.
pub open spec fn first_token(s: Seq<char>) -> Option<Seq<char>>
    decreases s.len(),
{
    if s.len() == 0 {
        None
    } else if is_white_space(s[0]) {
        first_token(s.drop_first())
    } else {
        Some(leading_run(s))
    }
}

/// Whether `c` is whitespace, as `char::is_whitespace` decides.
pub fn is_whitespace_char(c: char) -> (b: bool)
    ensures
        b == is_white_space(c),
{
    let v = c as u32;
    (0x9 <= v && v <= 0xd) || v == 0x20 || v == 0x85 || v == 0xa0 || v == 0x1680 || (0x2000 <= v
        && v <= 0x200a) || v == 0x2028 || v == 0x2029 || v == 0x202f || v == 0x205f || v == 0x3000
}

/// The characters of `s`, in order.
pub fn chars_of(s: &str) -> (v: Vec<char>)
    ensures
        v@ == s@,
{
    let mut v: Vec<char> = Vec::new();
    for c in it: s.chars()
        invariant
            v@ == it.seq().take(it.index() as int),
            it.seq() == s@,
    {
        v.push(c);
    }
    v
}

/// The ASCII digit for a value below ten.
pub fn digit_to_char(d: u64) -> (c: char)
    requires
        d < 10,
    ensures
        c == digit_char(d as nat),
{
    if d == 0 {
        '0'
    } else if d == 1 {
        '1'
    } else if d == 2 {
        '2'
    } else if d == 3 {
        '3'
    } else if d == 4 {
        '4'
    } else if d == 5 {
        '5'
    } else if d == 6 {
        '6'
    } else if d == 7 {
        '7'
    } else if d == 8 {
        '8'
    } else {
        '9'
    }
}

/// Append the base-ten text of `n` to `out`.
pub fn push_decimal(n: u64, out: &mut Vec<char>)
    ensures
        final(out)@ == old(out)@ + decimal(n as nat),
    decreases n,
{
    if n >= 10 {
        push_decimal(n / 10, out);
    }
    let c = digit_to_char(n % 10);
    out.push(c);
    proof {
        if n >= 10 {
            assert(decimal(n as nat) == decimal((n / 10) as nat).push(digit_char((n % 10) as nat)));
        }
    }
}

/// `FromIterator<&char>` for `String`, through `Iterator::collect`.
/// Trusted: the string holds exactly the characters of `v`, in order.
#[verifier::external_body]
pub(crate) fn string_from_chars(v: &[char]) -> (s: String)
    ensures
        s@ == v@,
{
    v.iter().collect()
}

/// The base-ten text of `n`, as `n.to_string()` writes it.
pub fn u64_to_string(n: u64) -> (s: String)
    ensures
        s@ == decimal(n as nat),
{
    let mut v: Vec<char> = Vec::new();
    push_decimal(n, &mut v);
    assert(v@ =~= decimal(n as nat));
    string_from_chars(v.as_slice())
}

/// `digit_char` writes an ASCII digit of the given value.
pub proof fn lemma_digit_char(d: nat)
    requires
        d < 10,
    ensures
        is_digit(digit_char(d)),
        digit_value(digit_char(d)) == d,
        digit_char(d) != '+',
{
}

/// Each digit written by `decimal` is an ASCII digit, and the digits denote `n`.
pub proof fn lemma_decimal_digits(n: nat)
    ensures
        decimal(n).len() > 0,
        all_digits(decimal(n)),
        digits_value(decimal(n)) == n,
        decimal(n)[0] != '+',
    decreases n,
{
    if n < 10 {
        lemma_digit_char(n);
        assert(decimal(n) == seq![digit_char(n)]);
        assert(decimal(n).drop_last() =~= Seq::<char>::empty());
        assert(decimal(n).last() == digit_char(n));
        assert(digits_value(decimal(n)) == digits_value(Seq::<char>::empty()) * 10 + digit_value(
            digit_char(n),
        ));
    } else {
        lemma_digit_char(n % 10);
        lemma_decimal_digits(n / 10);
        let d = decimal(n / 10);
        assert(decimal(n) == d.push(digit_char(n % 10)));
        assert(decimal(n).drop_last() =~= d);
        assert forall|i: int| 0 <= i < decimal(n).len() implies #[trigger] is_digit(decimal(n)[i]) by {
            if i < d.len() {
                assert(decimal(n)[i] == d[i]);
            }
        }
        assert(decimal(n)[0] == d[0]);
        assert(decimal(n).last() == digit_char(n % 10));
        assert(digits_value(decimal(n)) == digits_value(d) * 10 + digit_value(digit_char(n % 10)));
        assert((n / 10) * 10 + n % 10 == n);
    }
}

/// Reading back the text that `decimal` writes gives the number again.
pub proof fn lemma_parse_decimal(n: nat, max: nat)
    requires
        n <= max,
    ensures
        parse_unsigned(decimal(n), max) == Some(n),
{
    lemma_decimal_digits(n);
}

/// The value of a run of digits grows as the run grows.
pub proof fn lemma_digits_value_prefix(s: Seq<char>, i: int, j: int)
    requires
        0 <= i <= j <= s.len(),
    ensures
        digits_value(s.take(i)) <= digits_value(s.take(j)),
    decreases j - i,
{
    if i < j {
        lemma_digits_value_prefix(s, i, j - 1);
        assert(s.take(j).drop_last() =~= s.take(j - 1));
    }
}

/// `from_str` of an unsigned integer type whose largest value is `max`,
/// applied to the characters `s[lo..hi]`.
pub fn parse_unsigned_range(s: &Vec<char>, lo: usize, hi: usize, max: u64) -> (res: Option<u64>)
    requires
        lo <= hi <= s@.len(),
    ensures
        match res {
            Some(v) => parse_unsigned(s@.subrange(lo as int, hi as int), max as nat) == Some(
                v as nat,
            ),
            None => parse_unsigned(s@.subrange(lo as int, hi as int), max as nat) is None,
        },
{
    let ghost t = s@.subrange(lo as int, hi as int);
    let mut start = lo;
    if lo < hi && s[lo] == '+' {
        start = lo + 1;
    }
    let ghost d = s@.subrange(start as int, hi as int);
    assert(d == (if t.len() > 0 && t[0] == '+' { t.drop_first() } else { t }));
    if start == hi {
        return None;
    }
    let mut acc: u64 = 0;
    let mut i = start;
    while i < hi
        invariant
            lo <= start <= i <= hi <= s@.len(),
            d == s@.subrange(start as int, hi as int),
            t == s@.subrange(lo as int, hi as int),
            d == (if t.len() > 0 && t[0] == '+' { t.drop_first() } else { t }),
            d.len() > 0,
            all_digits(d.take(i - start)),
            acc as nat == digits_value(d.take(i - start)),
            acc <= max,
        decreases hi - i,
    {
        let c = s[i];
        let v = c as u32;
        if v < 48 || v > 57 {
            assert(!is_digit(d[i - start]));
            return None;
        }
        let dv = (v - 48) as u64;
        assert(d.take(i - start + 1).drop_last() =~= d.take(i - start));
        assert(d.take(i - start + 1).last() == c);
        if dv > max || acc > (max - dv) / 10 {
            assert(acc * 10 + dv > max) by (nonlinear_arith)
                requires
                    dv > max || acc > (max - dv) / 10,
                    dv <= max ==> (max - dv) / 10 * 10 <= max - dv,
            ;
            proof {
                lemma_digits_value_prefix(d, i - start + 1, d.len() as int);
                assert(d.take(d.len() as int) =~= d);
            }
            return None;
        }
        assert(acc * 10 + dv <= max) by (nonlinear_arith)
            requires
                acc <= (max - dv) / 10,
                dv <= max,
        ;
        acc = acc * 10 + dv;
        i = i + 1;
        assert forall|k: int| 0 <= k < d.take(i - start).len() implies #[trigger] is_digit(
            d.take(i - start)[k],
        ) by {
            if k < i - 1 - start {
                assert(d.take(i - start)[k] == d.take(i - 1 - start)[k]);
            }
        }
    }
    assert(d.take(i - start) =~= d);
    Some(acc)
}

/// Whether the characters `s[lo..hi]` contain `p`, as `str::contains` decides.
pub fn contains_range(s: &Vec<char>, lo: usize, hi: usize, p: &Vec<char>) -> (b: bool)
    requires
        lo <= hi <= s@.len(),
    ensures
        b == contains_text(s@.subrange(lo as int, hi as int), p@),
{
    let ghost t = s@.subrange(lo as int, hi as int);
    let m = p.len();
    if m > hi - lo {
        assert forall|k: int| !occurs_at(t, p@, k) by {}
        return false;
    }
    let mut i = lo;
    while i <= hi - m
        invariant
            lo <= i <= hi,
            m <= hi - lo,
            m == p@.len(),
            hi <= s@.len(),
            t == s@.subrange(lo as int, hi as int),
            forall|k: int| 0 <= k < i - lo ==> !occurs_at(t, p@, k),
        decreases hi - i,
    {
        let mut j: usize = 0;
        while j < m && s[i + j] == p[j]
            invariant
                j <= m,
                m == p@.len(),
                i + m <= hi <= s@.len(),
                forall|q: int| 0 <= q < j ==> s@[i + q] == p@[q],
            decreases m - j,
        {
            j = j + 1;
        }
        if j == m {
            assert(t.subrange(i - lo, i - lo + m) =~= p@);
            assert(occurs_at(t, p@, i - lo));
            return true;
        }
        assert(!occurs_at(t, p@, i - lo)) by {
            if occurs_at(t, p@, i - lo) {
                assert(t.subrange(i - lo, i - lo + m)[j as int] == p@[j as int]);
            }
        }
        i = i + 1;
    }
    assert forall|k: int| !occurs_at(t, p@, k) by {
        if 0 <= k && k < i - lo {
        }
    }
    false
}

/// Bounds of the first whitespace-separated token of `s[lo..hi]`.
pub fn first_token_range(s: &Vec<char>, lo: usize, hi: usize) -> (r: Option<(usize, usize)>)
    requires
        lo <= hi <= s@.len(),
    ensures
        match r {
            Some((a, b)) => lo <= a <= b <= hi && first_token(s@.subrange(lo as int, hi as int))
                == Some(s@.subrange(a as int, b as int)),
            None => first_token(s@.subrange(lo as int, hi as int)) is None,
        },
{
    let mut i = lo;
    while i < hi && is_whitespace_char(s[i])
        invariant
            lo <= i <= hi <= s@.len(),
            first_token(s@.subrange(lo as int, hi as int)) == first_token(
                s@.subrange(i as int, hi as int),
            ),
        decreases hi - i,
    {
        assert(s@.subrange(i as int, hi as int).drop_first() =~= s@.subrange(
            i + 1,
            hi as int,
        ));
        i = i + 1;
    }
    if i == hi {
        return None;
    }
    let mut j = i;
    while j < hi && !is_whitespace_char(s[j])
        invariant
            lo <= i <= j <= hi <= s@.len(),
            leading_run(s@.subrange(i as int, hi as int)) == s@.subrange(i as int, j as int)
                + leading_run(s@.subrange(j as int, hi as int)),
        decreases hi - j,
    {
        assert(s@.subrange(j as int, hi as int).drop_first() =~= s@.subrange(
            j + 1,
            hi as int,
        ));
        assert(s@.subrange(i as int, j + 1) =~= s@.subrange(i as int, j as int) + seq![s@[j as int]]);
        j = j + 1;
    }
    assert(leading_run(s@.subrange(j as int, hi as int)) =~= Seq::<char>::empty());
    assert(s@.subrange(i as int, j as int) + Seq::<char>::empty() =~= s@.subrange(
        i as int,
        j as int,
    ));
    Some((i, j))
}

/// The items of `items` with `sep` between each two of them (`[String]::join`).
pub open spec fn join(items: Seq<Seq<char>>, sep: Seq<char>) -> Seq<char>
    decreases items.len(),
{
    if items.len() == 0 {
        Seq::empty()
    } else if items.len() == 1 {
        items[0]
    } else {
        join(items.drop_last(), sep) + sep + items.last()
    }
}

/// The strings of `items` joined by `sep`.
pub fn join_strings(items: &Vec<String>, sep: &str) -> (s: String)
    ensures
        s@ == join(items.deep_view(), sep@),
{
    let ghost all = items.deep_view();
    let mut s = String::new();
    let mut i: usize = 0;
    while i < items.len()
        invariant
            i <= items@.len(),
            all == items.deep_view(),
            all.len() == items@.len(),
            s@ == join(all.take(i as int), sep@),
        decreases items@.len() - i,
    {
        assert(all.take(i + 1).drop_last() =~= all.take(i as int));
        assert(all.take(i + 1).last() == items@[i as int]@);
        if i == 0 {
            s = s.concat(items[i].as_str());
            assert(all.take(1) =~= seq![items@[0]@]);
            assert(s@ =~= join(all.take(1), sep@));
        } else {
            s = s.concat(sep);
            s = s.concat(items[i].as_str());
        }
        i = i + 1;
    }
    assert(all.take(i as int) =~= all);
    s
}

/// A `String` holding the characters `s[lo..hi]`.
pub fn string_from_range(s: &Vec<char>, lo: usize, hi: usize) -> (r: String)
    requires
        lo <= hi <= s@.len(),
    ensures
        r@ == s@.subrange(lo as int, hi as int),
{
    let part = vstd::slice::slice_subrange(s.as_slice(), lo, hi);
    string_from_chars(part)
}

/// `str::trim_start_matches` with a string pattern: `p` removed from the
/// start of `s` for as long as `s` starts with it.
pub open spec fn trim_start_all(s: Seq<char>, p: Seq<char>) -> Seq<char>
    decreases s.len(),
{
    if p.len() > 0 && p.len() <= s.len() && s.take(p.len() as int) == p {
        trim_start_all(s.skip(p.len() as int), p)
    } else {
        s
    }
}

/// `str::trim_end_matches` with a string pattern: `p` removed from the end
/// of `s` for as long as `s` ends with it.
pub open spec fn trim_end_all(s: Seq<char>, p: Seq<char>) -> Seq<char>
    decreases s.len(),
{
    if p.len() > 0 && p.len() <= s.len() && s.skip(s.len() - p.len()) == p {
        trim_end_all(s.take(s.len() - p.len()), p)
    } else {
        s
    }
}

/// Whether `s[i..i + p.len()]` is `p`.
fn matches_at(s: &Vec<char>, i: usize, p: &Vec<char>) -> (b: bool)
    requires
        i + p@.len() <= s@.len(),
    ensures
        b == (s@.subrange(i as int, i + p@.len()) == p@),
{
    let m = p.len();
    let mut j: usize = 0;
    while j < m
        invariant
            j <= m == p@.len(),
            i + m <= s.len(),
            forall|q: int| 0 <= q < j ==> s@[i + q] == p@[q],
        decreases m - j,
    {
        if s[i + j] != p[j] {
            assert(s@.subrange(i as int, i + m)[j as int] != p@[j as int]);
            return false;
        }
        j = j + 1;
    }
    assert(s@.subrange(i as int, i + m) =~= p@);
    true
}

/// The start of `trim_start_all(s[lo..hi], p)` within `s`.
pub fn trim_start_range(s: &Vec<char>, lo: usize, hi: usize, p: &Vec<char>) -> (r: usize)
    requires
        lo <= hi <= s@.len(),
    ensures
        lo <= r <= hi,
        trim_start_all(s@.subrange(lo as int, hi as int), p@) == s@.subrange(r as int, hi as int),
{
    let m = p.len();
    let mut i = lo;
    while m > 0 && m <= hi - i && matches_at(s, i, p)
        invariant
            lo <= i <= hi <= s@.len(),
            m == p@.len(),
            trim_start_all(s@.subrange(lo as int, hi as int), p@) == trim_start_all(
                s@.subrange(i as int, hi as int),
                p@,
            ),
        decreases hi - i,
    {
        assert(s@.subrange(i as int, hi as int).take(m as int) =~= s@.subrange(i as int, i + m));
        assert(s@.subrange(i as int, hi as int).skip(m as int) =~= s@.subrange(i + m, hi as int));
        i = i + m;
    }
    assert(m > 0 && m <= hi - i ==> s@.subrange(i as int, hi as int).take(m as int)
        =~= s@.subrange(i as int, i + m));
    i
}

/// The end of `trim_end_all(s[lo..hi], p)` within `s`.
pub fn trim_end_range(s: &Vec<char>, lo: usize, hi: usize, p: &Vec<char>) -> (r: usize)
    requires
        lo <= hi <= s@.len(),
    ensures
        lo <= r <= hi,
        trim_end_all(s@.subrange(lo as int, hi as int), p@) == s@.subrange(lo as int, r as int),
{
    let m = p.len();
    let mut j = hi;
    while m > 0 && m <= j - lo && matches_at(s, j - m, p)
        invariant
            lo <= j <= hi <= s@.len(),
            m == p@.len(),
            trim_end_all(s@.subrange(lo as int, hi as int), p@) == trim_end_all(
                s@.subrange(lo as int, j as int),
                p@,
            ),
        decreases j - lo,
    {
        assert(s@.subrange(lo as int, j as int).skip(j - lo - m) =~= s@.subrange(j - m, j as int));
        assert(s@.subrange(lo as int, j as int).take(j - lo - m) =~= s@.subrange(
            lo as int,
            j - m,
        ));
        j = j - m;
    }
    assert(m > 0 && m <= j - lo ==> s@.subrange(lo as int, j as int).skip(j - lo - m)
        =~= s@.subrange(j - m, j as int));
    j
}

/// `str::contains` with a string pattern.
pub fn str_contains(s: &str, p: &str) -> (b: bool)
    ensures
        b == contains_text(s@, p@),
{
    let cs = chars_of(s);
    let cp = chars_of(p);
    assert(cs@.subrange(0, cs@.len() as int) =~= cs@);
    contains_range(&cs, 0, cs.len(), &cp)
}

/// `s` without the whitespace at its start (`str::trim_start`).
pub open spec fn skip_white(s: Seq<char>) -> Seq<char>
    decreases s.len(),
{
    if s.len() > 0 && is_white_space(s[0]) {
        skip_white(s.drop_first())
    } else {
        s
    }
}

/// `s` without the run of non-whitespace characters at its start.
pub open spec fn skip_word(s: Seq<char>) -> Seq<char>
    decreases s.len(),
{
    if s.len() > 0 && !is_white_space(s[0]) {
        skip_word(s.drop_first())
    } else {
        s
    }
}

/// `s` without the whitespace at its end (`str::trim_end`).
pub open spec fn trim_white_end(s: Seq<char>) -> Seq<char>
    decreases s.len(),
{
    if s.len() > 0 && is_white_space(s.last()) {
        trim_white_end(s.drop_last())
    } else {
        s
    }
}

/// `s` after its first `n` whitespace-separated columns: each column is
/// the whitespace before it and the word that follows.
pub open spec fn after_columns(s: Seq<char>, n: nat) -> Seq<char>
    decreases n,
{
    if n == 0 {
        s
    } else {
        after_columns(skip_word(skip_white(s)), (n - 1) as nat)
    }
}

/// The start of `skip_white(s[lo..hi])` within `s`.
pub fn skip_white_range(s: &Vec<char>, lo: usize, hi: usize) -> (r: usize)
    requires
        lo <= hi <= s@.len(),
    ensures
        lo <= r <= hi,
        skip_white(s@.subrange(lo as int, hi as int)) == s@.subrange(r as int, hi as int),
{
    let mut i = lo;
    while i < hi && is_whitespace_char(s[i])
        invariant
            lo <= i <= hi <= s@.len(),
            skip_white(s@.subrange(lo as int, hi as int)) == skip_white(
                s@.subrange(i as int, hi as int),
            ),
        decreases hi - i,
    {
        assert(s@.subrange(i as int, hi as int).drop_first() =~= s@.subrange(i + 1, hi as int));
        i = i + 1;
    }
    i
}

/// The start of `skip_word(s[lo..hi])` within `s`.
pub fn skip_word_range(s: &Vec<char>, lo: usize, hi: usize) -> (r: usize)
    requires
        lo <= hi <= s@.len(),
    ensures
        lo <= r <= hi,
        skip_word(s@.subrange(lo as int, hi as int)) == s@.subrange(r as int, hi as int),
{
    let mut i = lo;
    while i < hi && !is_whitespace_char(s[i])
        invariant
            lo <= i <= hi <= s@.len(),
            skip_word(s@.subrange(lo as int, hi as int)) == skip_word(
                s@.subrange(i as int, hi as int),
            ),
        decreases hi - i,
    {
        assert(s@.subrange(i as int, hi as int).drop_first() =~= s@.subrange(i + 1, hi as int));
        i = i + 1;
    }
    i
}

/// The end of `trim_white_end(s[lo..hi])` within `s`.
pub fn trim_white_end_range(s: &Vec<char>, lo: usize, hi: usize) -> (r: usize)
    requires
        lo <= hi <= s@.len(),
    ensures
        lo <= r <= hi,
        trim_white_end(s@.subrange(lo as int, hi as int)) == s@.subrange(lo as int, r as int),
{
    let mut j = hi;
    while j > lo && is_whitespace_char(s[j - 1])
        invariant
            lo <= j <= hi <= s@.len(),
            trim_white_end(s@.subrange(lo as int, hi as int)) == trim_white_end(
                s@.subrange(lo as int, j as int),
            ),
        decreases j - lo,
    {
        assert(s@.subrange(lo as int, j as int).drop_last() =~= s@.subrange(lo as int, j - 1));
        j = j - 1;
    }
    j
}

} // verus!
