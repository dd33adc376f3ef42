//! The ping monitor windows: the texts they show for each round trip, the
//! colour band of a reading, and the short history of readings.

use std::collections::VecDeque;

use vstd::prelude::*;

use crate::text::{
    all_digits, chars_of, contains_range, contains_text, decimal, first_token, first_token_range,
    is_digit, is_white_space, lemma_decimal_digits, lemma_parse_decimal, leading_run, occurs_at,
    parse_unsigned, parse_unsigned_range, trim_end_all, u64_to_string,
    trim_end_range, trim_start_all, trim_start_range,
};

verus! {

/// How many readings the ping history keeps.
pub const PING_HISTORY_CAPACITY: usize = 5;

/// The colour band of a round trip: green, yellow or red.
#[derive(Debug, Clone, Copy, PartialEq, Eq, Structural)]
pub enum PingLevel {
    Good,
    Fair,
    Poor,
}

/// The band of a round trip of `ms` milliseconds: below 100 is good, below
/// 150 fair, anything else poor.
pub open spec fn level_of(ms: nat) -> PingLevel {
    if ms < 100 {
        PingLevel::Good
    } else if ms < 150 {
        PingLevel::Fair
    } else {
        PingLevel::Poor
    }
}

/// The colour bands of a round trip: under 100 ms is good, 150 ms and more
/// is poor, what lies between is fair; a slower round trip never falls in a
/// better band than a faster one.
pub proof fn law_ping_bands(ms: nat, slower: nat)
    ensures
        level_of(ms) == PingLevel::Good <==> ms < 100,
        level_of(ms) == PingLevel::Poor <==> ms >= 150,
        level_of(ms) == PingLevel::Fair <==> 100 <= ms < 150,
        ms <= slower && level_of(slower) == PingLevel::Good ==> level_of(ms) == PingLevel::Good,
        ms <= slower && level_of(ms) == PingLevel::Poor ==> level_of(slower) == PingLevel::Poor,
{
}

/// The round trip assumed for a text that holds no readable number.
pub open spec fn unreadable_rtt() -> nat {
    9999
}

/// The round trip that a "current ping" text shows: the text without its
/// leading `"Current Ping: "` and trailing `" ms"`, read as a `u64`.
pub open spec fn rtt_of_current_text(t: Seq<char>) -> nat {
    match parse_unsigned(
        trim_end_all(trim_start_all(t, "Current Ping: "@), " ms"@),
        u64::MAX as nat,
    ) {
        Some(v) => v,
        None => unreadable_rtt(),
    }
}

/// The round trip that a history entry shows: its first word read as a `u64`.
pub open spec fn rtt_of_history_entry(t: Seq<char>) -> nat {
    match first_token(t) {
        Some(word) => match parse_unsigned(word, u64::MAX as nat) {
            Some(v) => v,
            None => unreadable_rtt(),
        },
        None => unreadable_rtt(),
    }
}

/// The band of a history entry: poor when it tells of a failure.
pub open spec fn history_entry_level_of(t: Seq<char>) -> PingLevel {
    if contains_text(t, "failed"@) {
        PingLevel::Poor
    } else {
        level_of(rtt_of_history_entry(t))
    }
}

/// The history entry for a round trip, or for a ping that got no reply.
pub open spec fn history_entry_of(rtt: Option<u64>) -> Seq<char> {
    match rtt {
        Some(ms) => decimal(ms as nat) + " ms"@,
        None => "Ping failed"@,
    }
}

/// The "current ping" text for a round trip, or for a ping that got no reply.
pub open spec fn current_text_of(rtt: Option<u64>) -> Seq<char> {
    match rtt {
        Some(ms) => "Current Ping: "@ + decimal(ms as nat) + " ms"@,
        None => "Ping failed"@,
    }
}

/// `items` after `item` was added at the back of a history that keeps
/// `cap` entries: the oldest entry leaves first when the history is full.
pub open spec fn bounded_push<T>(items: Seq<T>, item: T, cap: nat) -> Seq<T> {
    if items.len() >= cap && items.len() > 0 {
        items.drop_first().push(item)
    } else {
        items.push(item)
    }
}

/// The band of a round trip of `ms` milliseconds.
pub fn ping_level(ms: u64) -> (l: PingLevel)
    ensures
        l == level_of(ms as nat),
{
    if ms < 100 {
        PingLevel::Good
    } else if ms < 150 {
        PingLevel::Fair
    } else {
        PingLevel::Poor
    }
}

/// The band of the round trip that a "current ping" text shows.
pub fn current_ping_level(text: &str) -> (l: PingLevel)
    ensures
        l == level_of(rtt_of_current_text(text@)),
{
    let s = chars_of(text);
    let prefix = chars_of("Current Ping: ");
    let suffix = chars_of(" ms");
    let lo = trim_start_range(&s, 0, s.len(), &prefix);
    let hi = trim_end_range(&s, lo, s.len(), &suffix);
    assert(s@.subrange(0, s@.len() as int) =~= s@);
    let rtt = match parse_unsigned_range(&s, lo, hi, u64::MAX) {
        Some(v) => v,
        None => 9999,
    };
    ping_level(rtt)
}

/// The band of a history entry.
pub fn history_entry_level(text: &str) -> (l: PingLevel)
    ensures
        l == history_entry_level_of(text@),
{
    let s = chars_of(text);
    let failed = chars_of("failed");
    assert(s@.subrange(0, s@.len() as int) =~= s@);
    if contains_range(&s, 0, s.len(), &failed) {
        return PingLevel::Poor;
    }
    let rtt = match first_token_range(&s, 0, s.len()) {
        Some((a, b)) => match parse_unsigned_range(&s, a, b, u64::MAX) {
            Some(v) => v,
            None => 9999,
        },
        None => 9999,
    };
    ping_level(rtt)
}

/// The history entry for a round trip (`"<ms> ms"`), or `"Ping failed"`.
pub fn history_entry_text(rtt: Option<u64>) -> (t: String)
    ensures
        t@ == history_entry_of(rtt),
{
    match rtt {
        Some(ms) => {
            u64_to_string(ms).concat(" ms")
        },
        None => String::from_str("Ping failed"),
    }
}

/// The "current ping" text for a round trip (`"Current Ping: <ms> ms"`), or
/// `"Ping failed"`.
pub fn current_ping_text(rtt: Option<u64>) -> (t: String)
    ensures
        t@ == current_text_of(rtt),
{
    match rtt {
        Some(ms) => {
            String::from_str("Current Ping: ").concat(u64_to_string(ms).as_str()).concat(
                " ms",
            )
        },
        None => String::from_str("Ping failed"),
    }
}

/// The "current ping" text shown before the first reading.
pub fn initial_ping_text() -> (t: String)
    ensures
        t@ == "Ping: ..."@,
{
    String::from_str("Ping: ...")
}

/// The text of the single-shot ping window: the round trip, or the error
/// that the ping reported.
pub fn ping_test_text(outcome: &Result<u64, String>) -> (t: String)
    ensures
        t@ == match outcome {
            Ok(ms) => "Ping: "@ + decimal(*ms as nat) + " ms"@,
            Err(e) => "Ping failed: "@ + e@,
        },
{
    match outcome {
        Ok(ms) => {
            String::from_str("Ping: ").concat(u64_to_string(*ms).as_str()).concat(
                " ms",
            )
        },
        Err(e) => String::from_str("Ping failed: ").concat(e.as_str()),
    }
}

/// Add `item` at the back of a history that keeps `cap` entries, dropping
/// the oldest entry first when the history is full.
pub fn push_bounded<T>(items: &mut VecDeque<T>, item: T, cap: usize)
    ensures
        final(items)@ == bounded_push(old(items)@, item, cap as nat),
{
    if items.len() >= cap {
        items.pop_front();
    }
    items.push_back(item);
    proof {
        if old(items)@.len() >= cap && old(items)@.len() > 0 {
            assert(old(items)@.subrange(1, old(items)@.len() as int) =~= old(items)@.drop_first());
        }
    }
}

/// The history kept after the readings `xs` were recorded one by one into
/// an empty history that keeps `cap` entries.
pub open spec fn history_after<T>(xs: Seq<T>, cap: nat) -> Seq<T>
    decreases xs.len(),
{
    if xs.len() == 0 {
        Seq::empty()
    } else {
        bounded_push(history_after(xs.drop_last(), cap), xs.last(), cap)
    }
}

/// The history holds the last `cap` readings, oldest first: all of them
/// while there are no more than `cap`.
pub proof fn law_history_keeps_last_readings<T>(xs: Seq<T>, cap: nat)
    requires
        cap > 0,
    ensures
        history_after(xs, cap) == if xs.len() <= cap {
            xs
        } else {
            xs.skip(xs.len() - cap)
        },
    decreases xs.len(),
{
    if xs.len() > 0 {
        let init = xs.drop_last();
        law_history_keeps_last_readings(init, cap);
        if init.len() < cap {
            assert(init.push(xs.last()) =~= xs);
        } else {
            assert(init.skip(init.len() - cap).drop_first().push(xs.last()) =~= xs.skip(
                xs.len() - cap,
            ));
        }
    }
}

/// The first word of `d + rest` is `d` when `d` is a non-empty run of
/// digits and `rest` starts with whitespace.
proof fn lemma_leading_digits(d: Seq<char>, rest: Seq<char>)
    requires
        all_digits(d),
        rest.len() > 0,
        is_white_space(rest[0]),
    ensures
        leading_run(d + rest) == d,
    decreases d.len(),
{
    if d.len() == 0 {
        assert(d + rest =~= rest);
    } else {
        assert(is_digit(d[0]));
        assert((d + rest).drop_first() =~= d.drop_first() + rest);
        assert(all_digits(d.drop_first())) by {
            assert forall|i: int| 0 <= i < d.drop_first().len() implies #[trigger] is_digit(
                d.drop_first()[i],
            ) by {
                assert(is_digit(d[i + 1]));
            }
        }
        lemma_leading_digits(d.drop_first(), rest);
        assert(seq![d[0]] + d.drop_first() =~= d);
    }
}

/// The level that the window shows for a "current ping" text is the level
/// of the round trip that the text was written for; a failed ping shows as
/// poor.
pub proof fn law_current_text_shows_its_level(rtt: Option<u64>)
    ensures
        level_of(rtt_of_current_text(current_text_of(rtt))) == match rtt {
            Some(ms) => level_of(ms as nat),
            None => PingLevel::Poor,
        },
{
    reveal_strlit("Current Ping: ");
    reveal_strlit(" ms");
    reveal_strlit("Ping failed");
    let p = "Current Ping: "@;
    let sfx = " ms"@;
    match rtt {
        Some(ms) => {
            let d = decimal(ms as nat);
            lemma_decimal_digits(ms as nat);
            lemma_parse_decimal(ms as nat, u64::MAX as nat);
            let t = p + d + sfx;
            assert(t.take(p.len() as int) =~= p);
            assert(t.skip(p.len() as int) =~= d + sfx);
            let u = d + sfx;
            assert(is_digit(u[0]));
            assert(!(u.take(p.len() as int) =~= p) || u.len() < p.len()) by {
                if u.len() >= p.len() {
                    assert(u.take(p.len() as int)[0] == u[0]);
                }
            }
            assert(trim_start_all(u, p) == u);
            assert(trim_start_all(t, p) == u);
            assert(u.skip(u.len() - sfx.len()) =~= sfx);
            assert(u.take(u.len() - sfx.len()) =~= d);
            assert(is_digit(d.last()));
            assert(!(d.skip(d.len() - sfx.len()) =~= sfx) || d.len() < sfx.len()) by {
                if d.len() >= sfx.len() {
                    assert(d.skip(d.len() - sfx.len())[2] == d.last());
                }
            }
            assert(trim_end_all(d, sfx) == d);
            assert(trim_end_all(u, sfx) == d);
        },
        None => {
            let t = "Ping failed"@;
            assert(trim_start_all(t, p) == t);
            assert(!(t.skip(t.len() - sfx.len()) =~= sfx)) by {
                assert(t.skip(t.len() - sfx.len())[0] == 'l');
            }
            assert(trim_end_all(t, sfx) == t);
            assert(!is_digit(t[0]));
            assert(parse_unsigned(t, u64::MAX as nat) is None);
        },
    }
}

/// The level that the history shows for an entry is the level of the round
/// trip that the entry was written for; a failed ping shows as poor.
pub proof fn law_history_entry_shows_its_level(rtt: Option<u64>)
    ensures
        history_entry_level_of(history_entry_of(rtt)) == match rtt {
            Some(ms) => level_of(ms as nat),
            None => PingLevel::Poor,
        },
{
    reveal_strlit(" ms");
    reveal_strlit("Ping failed");
    reveal_strlit("failed");
    match rtt {
        Some(ms) => {
            let d = decimal(ms as nat);
            lemma_decimal_digits(ms as nat);
            lemma_parse_decimal(ms as nat, u64::MAX as nat);
            let t = d + " ms"@;
            assert(!contains_text(t, "failed"@)) by {
                if contains_text(t, "failed"@) {
                    let i = choose|i: int| occurs_at(t, "failed"@, i);
                    assert(t.subrange(i, i + 6)[0] == 'f');
                    assert(t[i] == 'f');
                    if i < d.len() {
                        assert(is_digit(d[i]));
                        assert(t[i] == d[i]);
                    } else {
                        assert(t[i] == " ms"@[i - d.len()]);
                    }
                }
            }
            assert(!is_white_space(t[0])) by {
                assert(t[0] == d[0]);
                assert(is_digit(d[0]));
            }
            assert(is_white_space((" ms"@)[0]));
            lemma_leading_digits(d, " ms"@);
            assert(first_token(t) == Some(leading_run(t)));
        },
        None => {
            assert("Ping failed"@.subrange(5, 11) =~= "failed"@);
            assert(occurs_at("Ping failed"@, "failed"@, 5));
        },
    }
}

} // verus!
