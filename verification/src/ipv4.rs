//! Checking the DNS server addresses that a user types in.

use vstd::prelude::*;

use crate::text::{
    all_digits, chars_of, digits_value, decimal, is_digit, lemma_decimal_digits, lemma_parse_decimal, parse_unsigned,
    parse_unsigned_range,
};

verus! {

/// `str::split` with a `char` separator: the pieces of `s` between the
/// occurrences of `sep`, empty pieces included.
pub open spec fn split_on(s: Seq<char>, sep: char) -> Seq<Seq<char>>
    decreases s.len(),
{
    if s.len() == 0 {
        seq![Seq::empty()]
    } else {
        let init = split_on(s.drop_last(), sep);
        if s.last() == sep {
            init.push(Seq::empty())
        } else {
            init.update(init.len() - 1, init.last().push(s.last()))
        }
    }
}

/// A dotted-quad IPv4 address: exactly four pieces between dots, each of
/// which `u8::from_str` accepts.
pub open spec fn is_ipv4_text(s: Seq<char>) -> bool {
    let parts = split_on(s, '.');
    parts.len() == 4 && forall|i: int| 0 <= i < 4 ==> (#[trigger] parse_unsigned(parts[i], 255))
        is Some
}

/// `split_on` never gives an empty list.
pub proof fn lemma_split_on_nonempty(s: Seq<char>, sep: char)
    ensures
        split_on(s, sep).len() >= 1,
    decreases s.len(),
{
    if s.len() > 0 {
        lemma_split_on_nonempty(s.drop_last(), sep);
    }
}

/// Whether `ip` is a dotted-quad IPv4 address.
pub fn is_valid_ip(ip: &str) -> (b: bool)
    ensures
        b == is_ipv4_text(ip@),
{
    let s = chars_of(ip);
    let n = s.len();
    let mut seg: usize = 0;
    let mut count: usize = 0;
    let mut ok = true;
    let ghost mut done: Seq<Seq<char>> = Seq::empty();
    let mut i: usize = 0;
    assert(s@.take(0) =~= Seq::<char>::empty());
    assert(split_on(Seq::<char>::empty(), '.') =~= done.push(s@.subrange(0, 0)));
    while i < n
        invariant
            seg <= i <= n == s@.len(),
            done.len() == count,
            count <= i,
            split_on(s@.take(i as int), '.') == done.push(s@.subrange(seg as int, i as int)),
            ok == (forall|k: int| 0 <= k < done.len() ==> (#[trigger] parse_unsigned(done[k], 255))
                is Some),
        decreases n - i,
    {
        assert(s@.take(i + 1).drop_last() =~= s@.take(i as int));
        assert(s@.take(i + 1).last() == s@[i as int]);
        if s[i] == '.' {
            assert(split_on(s@.take(i + 1), '.') == split_on(s@.take(i as int), '.').push(
                Seq::<char>::empty(),
            ));
            let piece = parse_unsigned_range(&s, seg, i, 255);
            let ghost old_done = done;
            proof {
                done = done.push(s@.subrange(seg as int, i as int));
            }
            if piece.is_none() {
                ok = false;
            }
            assert(ok == (forall|k: int| 0 <= k < done.len() ==> (#[trigger] parse_unsigned(
                done[k],
                255,
            )) is Some)) by {
                if ok {
                    assert forall|k: int| 0 <= k < done.len() implies (#[trigger] parse_unsigned(
                        done[k],
                        255,
                    )) is Some by {
                        if k < old_done.len() {
                            assert(done[k] == old_done[k]);
                        }
                    }
                } else {
                    if piece.is_none() {
                        assert(done[done.len() - 1] == s@.subrange(seg as int, i as int));
                    } else {
                        let k = choose|k: int|
                            0 <= k < old_done.len() && !((#[trigger] parse_unsigned(
                                old_done[k],
                                255,
                            )) is Some);
                        assert(done[k] == old_done[k]);
                    }
                }
            }
            count = count + 1;
            i = i + 1;
            seg = i;
            assert(s@.subrange(seg as int, i as int) =~= Seq::<char>::empty());
        } else {
            assert(s@.subrange(seg as int, i + 1) =~= s@.subrange(seg as int, i as int).push(
                s@[i as int],
            ));
            i = i + 1;
            assert(split_on(s@.take(i as int), '.') =~= done.push(s@.subrange(seg as int, i as int)));
        }
    }
    assert(s@.take(n as int) =~= s@);
    let last = parse_unsigned_range(&s, seg, n, 255);
    let ghost parts = done.push(s@.subrange(seg as int, n as int));
    assert(parts == split_on(ip@, '.'));
    let result = ok && count == 3 && last.is_some();
    assert(result == is_ipv4_text(ip@)) by {
        if result {
            assert forall|k: int| 0 <= k < 4 implies (#[trigger] parse_unsigned(parts[k], 255)) is Some by {
                if k < 3 {
                    assert(parts[k] == done[k]);
                }
            }
        } else if parts.len() == 4 {
            if !ok {
                let k = choose|k: int|
                    0 <= k < done.len() && !((#[trigger] parse_unsigned(done[k], 255)) is Some);
                assert(parts[k] == done[k]);
            } else {
                assert(parts[3] == s@.subrange(seg as int, n as int));
            }
        }
    }
    result
}

/// What the address fields accept: nothing yet, or a dotted-quad address.
pub fn is_acceptable_ip_input(ip: &str) -> (b: bool)
    ensures
        b == (ip@.len() == 0 || is_ipv4_text(ip@)),
{
    ip.is_empty() || is_valid_ip(ip)
}

/// A piece without the separator splits into itself.
pub proof fn lemma_split_on_single(s: Seq<char>, sep: char)
    requires
        forall|i: int| 0 <= i < s.len() ==> s[i] != sep,
    ensures
        split_on(s, sep) == seq![s],
    decreases s.len(),
{
    if s.len() > 0 {
        lemma_split_on_single(s.drop_last(), sep);
        assert(s.drop_last().push(s.last()) =~= s);
        assert(s.last() != sep);
        assert(seq![s.drop_last()].update(0, s.drop_last().push(s.last())) =~= seq![s]);
    } else {
        assert(s =~= Seq::<char>::empty());
    }
}

/// Splitting `a`, a separator, then `b` gives the pieces of `a` followed by
/// the pieces of `b`.
pub proof fn lemma_split_on_join(a: Seq<char>, b: Seq<char>, sep: char)
    ensures
        split_on(a + seq![sep] + b, sep) == split_on(a, sep) + split_on(b, sep),
    decreases b.len(),
{
    let s = a + seq![sep] + b;
    if b.len() == 0 {
        assert(s.drop_last() =~= a);
        assert(split_on(a, sep).push(Seq::empty()) =~= split_on(a, sep) + split_on(b, sep));
    } else {
        lemma_split_on_join(a, b.drop_last(), sep);
        lemma_split_on_nonempty(b.drop_last(), sep);
        lemma_split_on_nonempty(a, sep);
        assert(s.drop_last() =~= a + seq![sep] + b.drop_last());
        assert(s.last() == b.last());
        let pa = split_on(a, sep);
        let pb = split_on(b.drop_last(), sep);
        if b.last() == sep {
            assert((pa + pb).push(Seq::empty()) =~= pa + pb.push(Seq::empty()));
        } else {
            assert((pa + pb).update((pa + pb).len() - 1, (pa + pb).last().push(b.last())) =~= pa
                + pb.update(pb.len() - 1, pb.last().push(b.last())));
        }
    }
}

/// The dotted-quad text of four octets, each written in base ten.
pub open spec fn dotted_quad(a: u8, b: u8, c: u8, d: u8) -> Seq<char> {
    decimal(a as nat) + seq!['.'] + decimal(b as nat) + seq!['.'] + decimal(c as nat) + seq!['.']
        + decimal(d as nat)
}

/// Every address written as four octets in base ten, separated by dots, is
/// accepted.
pub proof fn law_dotted_quad_is_valid(a: u8, b: u8, c: u8, d: u8)
    ensures
        is_ipv4_text(dotted_quad(a, b, c, d)),
{
    let da = decimal(a as nat);
    let db = decimal(b as nat);
    let dc = decimal(c as nat);
    let dd = decimal(d as nat);
    assert forall|x: nat| x <= 255 implies (forall|i: int|
        0 <= i < decimal(x).len() ==> decimal(x)[i] != '.') && split_on(decimal(x), '.') == seq![
        decimal(x),
    ] && parse_unsigned(decimal(x), 255) == Some(x) by {
        lemma_decimal_digits(x);
        lemma_parse_decimal(x, 255);
        assert forall|i: int| 0 <= i < decimal(x).len() implies decimal(x)[i] != '.' by {
            assert(is_digit(decimal(x)[i]));
        }
        lemma_split_on_single(decimal(x), '.');
    }
    lemma_split_on_join(da, db, '.');
    lemma_split_on_join(da + seq!['.'] + db, dc, '.');
    lemma_split_on_join(da + seq!['.'] + db + seq!['.'] + dc, dd, '.');
    let parts = split_on(dotted_quad(a, b, c, d), '.');
    assert(parts =~= seq![da, db, dc, dd]);
    assert forall|i: int| 0 <= i < 4 implies (#[trigger] parse_unsigned(parts[i], 255)) is Some by {
        if i == 0 {
            assert(parts[i] == da);
        } else if i == 1 {
            assert(parts[i] == db);
        } else if i == 2 {
            assert(parts[i] == dc);
        } else {
            assert(parts[i] == dd);
        }
    }
}

/// A piece of an address: an optional `+`, then one or more ASCII digits
/// whose value is at most 255.
pub open spec fn is_octet_text(p: Seq<char>) -> bool {
    let d = if p.len() > 0 && p[0] == '+' {
        p.drop_first()
    } else {
        p
    };
    d.len() > 0 && all_digits(d) && digits_value(d) <= 255
}

/// An address is accepted exactly when it has four pieces between dots and
/// every one of them, the last included, is a number from 0 to 255: no
/// accepted address has a piece above 255, and none has fewer or more than
/// four pieces.
pub proof fn law_valid_ip_has_four_octets(s: Seq<char>)
    ensures
        is_ipv4_text(s) <==> (split_on(s, '.').len() == 4 && forall|i: int|
            0 <= i < 4 ==> #[trigger] is_octet_text(split_on(s, '.')[i])),
        is_ipv4_text(s) ==> forall|i: int|
            0 <= i < 4 ==> (#[trigger] parse_unsigned(split_on(s, '.')[i], u64::MAX as nat)
                matches Some(v) && v <= 255),
{
    let parts = split_on(s, '.');
    assert forall|i: int| 0 <= i < parts.len() implies (#[trigger] is_octet_text(parts[i]) <==> (
    parse_unsigned(parts[i], 255) is Some)) by {}
    if is_ipv4_text(s) {
        assert forall|i: int| 0 <= i < 4 implies (#[trigger] parse_unsigned(
            parts[i],
            u64::MAX as nat,
        ) matches Some(v) && v <= 255) by {
            assert(parse_unsigned(parts[i], 255) is Some);
        }
    }
    if parts.len() == 4 && forall|i: int| 0 <= i < 4 ==> #[trigger] is_octet_text(parts[i]) {
        assert forall|i: int| 0 <= i < 4 implies (#[trigger] parse_unsigned(parts[i], 255))
            is Some by {
            assert(is_octet_text(parts[i]));
        }
    }
}

} // verus!
