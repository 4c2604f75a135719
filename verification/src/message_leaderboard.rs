//! The message-leaderboard command: pairing the flat field/value
//! stream read from the store, parsing the counts, ordering every
//! member by count — ties broken by member id, so the board is
//! deterministic — and rendering the top ten.  The store read and the
//! reply delivery live with the caller.

use vstd::prelude::*;

use crate::digits::{append_decimal, spec_decimal};

verus! {

/// The configured prefix and command word this command answers to.
pub struct CommandArgs {
    pub prefix: String,
    pub command: String,
}

/// The value of a decimal digit character, `-1` for any other.
pub open spec fn spec_digit_val(c: char) -> int {
    if c == '0' {
        0
    } else if c == '1' {
        1
    } else if c == '2' {
        2
    } else if c == '3' {
        3
    } else if c == '4' {
        4
    } else if c == '5' {
        5
    } else if c == '6' {
        6
    } else if c == '7' {
        7
    } else if c == '8' {
        8
    } else if c == '9' {
        9
    } else {
        -1
    }
}

/// Every character is a decimal digit.
pub open spec fn spec_all_digits(s: Seq<char>) -> bool {
    forall|i: int| 0 <= i < s.len() ==> spec_digit_val(#[trigger] s[i]) >= 0
}

/// The number the digit string denotes.
pub open spec fn spec_parse_val(s: Seq<char>) -> int
    decreases s.len(),
{
    if s.len() == 0 {
        0
    } else {
        spec_parse_val(s.drop_last()) * 10 + spec_digit_val(s.last())
    }
}

proof fn lemma_parse_nonneg(s: Seq<char>)
    requires
        spec_all_digits(s),
    ensures
        spec_parse_val(s) >= 0,
    decreases s.len(),
{
    if s.len() > 0 {
        assert(spec_digit_val(s[s.len() - 1]) >= 0);
        assert(spec_all_digits(s.drop_last()));
        lemma_parse_nonneg(s.drop_last());
    }
}

proof fn lemma_parse_take_step(s: Seq<char>, i: int)
    requires
        0 <= i < s.len(),
    ensures
        spec_parse_val(s.take(i + 1)) == spec_parse_val(s.take(i)) * 10 + spec_digit_val(s[i]),
{
    assert(s.take(i + 1).drop_last() =~= s.take(i));
    assert(s.take(i + 1).last() == s[i]);
}

proof fn lemma_parse_suffix_ge(s: Seq<char>, i: int)
    requires
        spec_all_digits(s),
        0 <= i <= s.len(),
    ensures
        spec_parse_val(s) >= spec_parse_val(s.take(i)),
    decreases s.len() - i,
{
    if i == s.len() {
        assert(s.take(i) =~= s);
    } else {
        lemma_parse_suffix_ge(s, i + 1);
        lemma_parse_take_step(s, i);
        assert(spec_all_digits(s.take(i)));
        lemma_parse_nonneg(s.take(i));
        assert(spec_digit_val(s[i]) >= 0);
    }
}

fn digit_val(c: char) -> (r: Option<u64>)
    ensures
        match r {
            Some(d) => spec_digit_val(c) == d && d < 10,
            None => spec_digit_val(c) < 0,
        },
{
    if c == '0' {
        Some(0)
    } else if c == '1' {
        Some(1)
    } else if c == '2' {
        Some(2)
    } else if c == '3' {
        Some(3)
    } else if c == '4' {
        Some(4)
    } else if c == '5' {
        Some(5)
    } else if c == '6' {
        Some(6)
    } else if c == '7' {
        Some(7)
    } else if c == '8' {
        Some(8)
    } else if c == '9' {
        Some(9)
    } else {
        None
    }
}

/// Parses a stored counter: the whole string must be decimal digits
/// and the value must fit.
pub fn parse_u64(s: &str) -> (r: Option<u64>)
    ensures
        match r {
            Some(v) => s@.len() > 0 && spec_all_digits(s@) && v == spec_parse_val(s@),
            None => s@.len() == 0 || !spec_all_digits(s@) || spec_parse_val(s@) > u64::MAX,
        },
{
    let len = s.unicode_len();
    if len == 0 {
        return None;
    }
    let mut i: usize = 0;
    let mut v: u64 = 0;
    proof {
        assert(s@.take(0) =~= Seq::<char>::empty());
    }
    while i < len
        invariant
            len == s@.len(),
            i <= len,
            forall|j: int| 0 <= j < i ==> spec_digit_val(#[trigger] s@[j]) >= 0,
            v == spec_parse_val(s@.take(i as int)),
        decreases len - i,
    {
        let c = s.get_char(i);
        let d = match digit_val(c) {
            Some(d) => d,
            None => {
                return None;
            },
        };
        proof {
            lemma_parse_take_step(s@, i as int);
        }
        if v > (u64::MAX - d) / 10 {
            proof {
                if spec_all_digits(s@) {
                    lemma_parse_suffix_ge(s@, i as int + 1);
                    assert((u64::MAX - d) as int - 9 <= 10 * (((u64::MAX - d) as int) / 10));
                    assert(spec_parse_val(s@.take(i as int + 1)) > u64::MAX);
                }
            }
            return None;
        }
        proof {
            assert(10 * (((u64::MAX - d) as int) / 10) <= (u64::MAX - d) as int);
        }
        v = v * 10 + d;
        i = i + 1;
    }
    proof {
        assert(s@.take(len as int) =~= s@);
    }
    Some(v)
}

/// Pairs the flat field/value stream the store hands back: fields are
/// member ids, values their counts.  `None` where any count fails to
/// parse; a dangling trailing field is dropped, as the stream walk
/// always did.
pub fn pair_entries(items: &Vec<String>) -> (r: Option<Vec<(u64, String)>>)
    ensures
        match r {
            Some(v) => {
                &&& v@.len() == items@.len() / 2
                &&& forall|k: int|
                    0 <= k < v@.len() ==> (#[trigger] v@[k]).1 == items@[2 * k] && v@[k].0
                        == spec_parse_val(items@[2 * k + 1]@) && spec_all_digits(
                        items@[2 * k + 1]@,
                    ) && items@[2 * k + 1]@.len() > 0
            },
            None => exists|k: int|
                0 <= k < items@.len() / 2 && (items@[2 * k + 1]@.len() == 0 || !spec_all_digits(
                    #[trigger] items@[2 * k + 1]@,
                ) || spec_parse_val(items@[2 * k + 1]@) > u64::MAX),
        },
{
    let mut out: Vec<(u64, String)> = Vec::new();
    let mut k: usize = 0;
    let pairs = items.len() / 2;
    while k < pairs
        invariant
            items@.len() <= usize::MAX,
            pairs == items@.len() / 2,
            k <= pairs,
            out@.len() == k,
            forall|j: int|
                0 <= j < k ==> (#[trigger] out@[j]).1 == items@[2 * j] && out@[j].0
                    == spec_parse_val(items@[2 * j + 1]@) && spec_all_digits(items@[2 * j + 1]@)
                    && items@[2 * j + 1]@.len() > 0,
        decreases pairs - k,
    {
        proof {
            assert(2 * (items@.len() / 2) <= items@.len());
            assert(2 * k + 1 < items@.len());
        }
        let count = match parse_u64(items[2 * k + 1].as_str()) {
            Some(c) => c,
            None => {
                return None;
            },
        };
        out.push((count, items[2 * k].clone()));
        k = k + 1;
    }
    Some(out)
}

/// The leaderboard order on entries: larger counts first, equal
/// counts by member id, lexicographically.  A total order, so two
/// runs over the same counters render the same board.
pub open spec fn spec_entry_le(p: (u64, String), q: (u64, String)) -> bool {
    p.0 > q.0 || (p.0 == q.0 && crate::text::spec_lex_le(p.1@, q.1@))
}

proof fn lemma_entry_le_refl(p: (u64, String))
    ensures
        spec_entry_le(p, p),
{
    crate::text::lemma_lex_le_refl(p.1@);
}

proof fn lemma_entry_le_total(p: (u64, String), q: (u64, String))
    ensures
        spec_entry_le(p, q) || spec_entry_le(q, p),
{
    if p.0 == q.0 {
        crate::text::lemma_lex_le_total(p.1@, q.1@);
    }
}

proof fn lemma_entry_le_trans(p: (u64, String), q: (u64, String), r: (u64, String))
    requires
        spec_entry_le(p, q),
        spec_entry_le(q, r),
    ensures
        spec_entry_le(p, r),
{
    if p.0 == q.0 && q.0 == r.0 {
        crate::text::lemma_lex_le_trans(p.1@, q.1@, r.1@);
    }
}

fn entry_le(p: &(u64, String), q: &(u64, String)) -> (r: bool)
    ensures
        r == spec_entry_le(*p, *q),
{
    if p.0 > q.0 {
        true
    } else if p.0 == q.0 {
        crate::text::lex_le(p.1.as_str(), q.1.as_str())
    } else {
        false
    }
}

/// Orders the entries for the board: by count, largest first, equal
/// counts by member id.  The result is a rearrangement: same entries,
/// same multiplicities, every member kept.
pub fn sort_entries(entries: Vec<(u64, String)>) -> (r: Vec<(u64, String)>)
    ensures
        r@.to_multiset() == entries@.to_multiset(),
        forall|i: int, j: int|
            0 <= i < j < r@.len() ==> spec_entry_le(#[trigger] r@[i], #[trigger] r@[j]),
{
    broadcast use vstd::seq_lib::group_to_multiset_ensures;

    let mut rest = entries;
    let mut out: Vec<(u64, String)> = Vec::new();
    while rest.len() > 0
        invariant
            out@.to_multiset().add(rest@.to_multiset()) == entries@.to_multiset(),
            forall|i: int, j: int|
                0 <= i < j < out@.len() ==> spec_entry_le(
                    #[trigger] out@[i],
                    #[trigger] out@[j],
                ),
            forall|i: int, j: int|
                0 <= i < out@.len() && 0 <= j < rest@.len() ==> spec_entry_le(
                    #[trigger] out@[i],
                    #[trigger] rest@[j],
                ),
        decreases rest@.len(),
    {
        let mut mi: usize = 0;
        let mut c: usize = 1;
        proof {
            lemma_entry_le_refl(rest@[0]);
        }
        while c < rest.len()
            invariant
                rest@.len() > 0,
                mi < rest@.len(),
                c <= rest@.len(),
                forall|l: int| 0 <= l < c ==> spec_entry_le(rest@[mi as int], #[trigger] rest@[l]),
            decreases rest@.len() - c,
        {
            if !entry_le(&rest[mi], &rest[c]) {
                proof {
                    lemma_entry_le_total(rest@[mi as int], rest@[c as int]);
                    assert forall|l: int|
                        0 <= l < c + 1 implies spec_entry_le(
                        rest@[c as int],
                        #[trigger] rest@[l],
                    ) by {
                        if l < c {
                            lemma_entry_le_trans(rest@[c as int], rest@[mi as int], rest@[l]);
                        } else {
                            lemma_entry_le_refl(rest@[c as int]);
                        }
                    }
                }
                mi = c;
            }
            c = c + 1;
        }
        let ghost old_rest = rest@;
        let ghost old_out = out@;
        let e = rest.remove(mi);
        out.push(e);
        proof {
            broadcast use vstd::multiset::group_multiset_axioms;

            vstd::seq_lib::to_multiset_contains(old_rest, e);
            assert(old_rest.contains(e)) by {
                assert(old_rest[mi as int] == e);
            }
            assert(out@ == old_out.push(e));
            vstd::seq_lib::to_multiset_build(old_out, e);
            assert(rest@ == old_rest.remove(mi as int));
            vstd::seq_lib::to_multiset_remove(old_rest, mi as int);
            assert(out@.to_multiset() =~= old_out.to_multiset().insert(e));
            assert(rest@.to_multiset() =~= old_rest.to_multiset().remove(e));
            assert forall|y: (u64, String)|
                out@.to_multiset().add(rest@.to_multiset()).count(y) == old_out.to_multiset().add(
                    old_rest.to_multiset(),
                ).count(y) by {
                if y == e {
                    assert(old_rest.to_multiset().count(e) > 0);
                }
            }
            assert(out@.to_multiset().add(rest@.to_multiset()) =~= old_out.to_multiset().add(
                old_rest.to_multiset(),
            ));
            assert forall|i: int, j: int|
                0 <= i < out@.len() && 0 <= j < rest@.len() implies spec_entry_le(
                #[trigger] out@[i],
                #[trigger] rest@[j],
            ) by {
                assert(rest@[j] == if j < mi {
                    old_rest[j]
                } else {
                    old_rest[j + 1]
                });
                if i < old_out.len() {
                    assert(out@[i] == old_out[i]);
                } else {
                    assert(out@[i] == e);
                }
            }
        }
    }
    out
}

/// One rendered leaderboard line.
pub open spec fn spec_leaderboard_line(user: Seq<char>, count: int, place: int) -> Seq<char> {
    "<@!"@ + user + "> has "@ + spec_decimal(count) + " messages and is Place "@ + spec_decimal(
        place,
    ) + "\n"@
}

/// The rendered lines of the given entries, numbered from `place`.
pub open spec fn spec_leaderboard_lines(entries: Seq<(u64, String)>, place: int) -> Seq<char>
    decreases entries.len(),
{
    if entries.len() == 0 {
        Seq::empty()
    } else {
        spec_leaderboard_line(entries[0].1@, entries[0].0 as int, place) + spec_leaderboard_lines(
            entries.drop_first(),
            place + 1,
        )
    }
}

fn append_lines(s: &mut String, sorted: &Vec<(u64, String)>, i: usize, m: usize)
    requires
        i <= m <= sorted@.len(),
    ensures
        final(s)@ == old(s)@ + spec_leaderboard_lines(
            sorted@.subrange(i as int, m as int),
            i as int + 1,
        ),
    decreases m - i,
{
    if i == m {
        proof {
            assert(sorted@.subrange(i as int, m as int) =~= Seq::<(u64, String)>::empty());
            assert(s@ =~= old(s)@ + spec_leaderboard_lines(Seq::<(u64, String)>::empty(), i as int + 1));
        }
        return ;
    }
    let ghost before = s@;
    s.append("<@!");
    s.append(sorted[i].1.as_str());
    s.append("> has ");
    append_decimal(s, sorted[i].0);
    s.append(" messages and is Place ");
    append_decimal(s, (i + 1) as u64);
    s.append("\n");
    proof {
        assert(s@ =~= before + spec_leaderboard_line(
            sorted@[i as int].1@,
            sorted@[i as int].0 as int,
            i as int + 1,
        ));
    }
    append_lines(s, sorted, i + 1, m);
    proof {
        let window = sorted@.subrange(i as int, m as int);
        assert(window[0] == sorted@[i as int]);
        assert(window.drop_first() =~= sorted@.subrange(i as int + 1, m as int));
        assert(s@ =~= before + spec_leaderboard_lines(window, i as int + 1));
    }
}

/// Renders the top ten of the ordered entries, or nothing where the
/// store held no counters at all.
pub fn leaderboard_reply(sorted: &Vec<(u64, String)>) -> (r: Option<String>)
    ensures
        match r {
            None => sorted@.len() == 0,
            Some(m) => sorted@.len() > 0 && m@ == spec_leaderboard_lines(
                sorted@.take(if sorted@.len() < 10 {
                    sorted@.len() as int
                } else {
                    10
                }),
                1,
            ),
        },
{
    if sorted.len() == 0 {
        return None;
    }
    let m = if sorted.len() < 10 {
        sorted.len()
    } else {
        10
    };
    let mut s = String::new();
    append_lines(&mut s, sorted, 0, m);
    proof {
        assert(sorted@.subrange(0, m as int) =~= sorted@.take(m as int));
    }
    Some(s)
}

/// Reply where the store holds no counters for the community.
pub open spec fn spec_no_messages_message() -> Seq<char> {
    "There are currently no messages stored for this Server."@
}

pub fn no_messages_message() -> (r: String)
    ensures
        r@ == spec_no_messages_message(),
{
    String::from_str("There are currently no messages stored for this Server.")
}

/// Reply for any internal failure while processing the command.
pub open spec fn spec_internal_error_message() -> Seq<char> {
    "An internal Error occurred while processing this command."@
}

pub fn internal_error_message() -> (r: String)
    ensures
        r@ == spec_internal_error_message(),
{
    String::from_str("An internal Error occurred while processing this command.")
}

} // verus!
