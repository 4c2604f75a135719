//! Character-level helpers on `&str`: equality, prefix tests and
//! searching, all specified over the `Seq<char>` view.

use vstd::prelude::*;

verus! {

/// Exact character-for-character equality of two string slices.
pub fn str_eq(a: &str, b: &str) -> (r: bool)
    ensures
        r == (a@ == b@),
{
    let la = a.unicode_len();
    let lb = b.unicode_len();
    if la != lb {
        return false;
    }
    let mut i: usize = 0;
    while i < la
        invariant
            la == a@.len(),
            la == b@.len(),
            i <= la,
            forall|k: int| 0 <= k < i ==> a@[k] == b@[k],
        decreases la - i,
    {
        if a.get_char(i) != b.get_char(i) {
            return false;
        }
        i = i + 1;
    }
    proof {
        assert(a@ =~= b@);
    }
    true
}

/// Holds when `p` is a prefix of `s`.
pub open spec fn spec_starts_with(s: Seq<char>, p: Seq<char>) -> bool {
    s.len() >= p.len() && s.subrange(0, p.len() as int) == p
}

/// Prefix test, character for character.
pub fn str_starts_with(s: &str, p: &str) -> (r: bool)
    ensures
        r == spec_starts_with(s@, p@),
{
    let ls = s.unicode_len();
    let lp = p.unicode_len();
    if ls < lp {
        assert(!spec_starts_with(s@, p@));
        return false;
    }
    let mut i: usize = 0;
    while i < lp
        invariant
            ls == s@.len(),
            lp == p@.len(),
            lp <= ls,
            i <= lp,
            forall|k: int| 0 <= k < i ==> s@[k] == p@[k],
        decreases lp - i,
    {
        if s.get_char(i) != p.get_char(i) {
            assert(s@.subrange(0, p@.len() as int)[i as int] != p@[i as int]);
            return false;
        }
        i = i + 1;
    }
    proof {
        assert(s@.subrange(0, p@.len() as int) =~= p@);
    }
    true
}

/// Lexicographic order on character sequences, by code point; a
/// prefix comes before every extension of it.
pub open spec fn spec_lex_le(a: Seq<char>, b: Seq<char>) -> bool
    decreases a.len(),
{
    if a.len() == 0 {
        true
    } else if b.len() == 0 {
        false
    } else if a[0] == b[0] {
        spec_lex_le(a.drop_first(), b.drop_first())
    } else {
        a[0] < b[0]
    }
}

/// The order relates every sequence to itself.
pub proof fn lemma_lex_le_refl(a: Seq<char>)
    ensures
        spec_lex_le(a, a),
    decreases a.len(),
{
    if a.len() > 0 {
        lemma_lex_le_refl(a.drop_first());
    }
}

/// The order relates any two sequences one way or the other.
pub proof fn lemma_lex_le_total(a: Seq<char>, b: Seq<char>)
    ensures
        spec_lex_le(a, b) || spec_lex_le(b, a),
    decreases a.len(),
{
    if a.len() > 0 && b.len() > 0 {
        if a[0] == b[0] {
            lemma_lex_le_total(a.drop_first(), b.drop_first());
        }
    }
}

/// The order is transitive.
pub proof fn lemma_lex_le_trans(a: Seq<char>, b: Seq<char>, c: Seq<char>)
    requires
        spec_lex_le(a, b),
        spec_lex_le(b, c),
    ensures
        spec_lex_le(a, c),
    decreases a.len(),
{
    if a.len() > 0 && b.len() > 0 && c.len() > 0 {
        if a[0] == b[0] && b[0] == c[0] {
            lemma_lex_le_trans(a.drop_first(), b.drop_first(), c.drop_first());
        }
    }
}

fn lex_le_from(a: &str, b: &str, i: usize) -> (r: bool)
    requires
        i <= a@.len(),
        i <= b@.len(),
    ensures
        r == spec_lex_le(a@.skip(i as int), b@.skip(i as int)),
    decreases a@.len() - i,
{
    let la = a.unicode_len();
    let lb = b.unicode_len();
    if i == la {
        proof {
            assert(a@.skip(i as int) =~= Seq::<char>::empty());
        }
        true
    } else if i == lb {
        proof {
            assert(b@.skip(i as int) =~= Seq::<char>::empty());
            assert(a@.skip(i as int).len() > 0);
        }
        false
    } else {
        let ca = a.get_char(i);
        let cb = b.get_char(i);
        proof {
            assert(a@.skip(i as int)[0] == a@[i as int]);
            assert(b@.skip(i as int)[0] == b@[i as int]);
        }
        if ca == cb {
            let r = lex_le_from(a, b, i + 1);
            proof {
                assert(a@.skip(i as int).drop_first() =~= a@.skip(i as int + 1));
                assert(b@.skip(i as int).drop_first() =~= b@.skip(i as int + 1));
            }
            r
        } else {
            ca < cb
        }
    }
}

/// Lexicographic comparison of two string slices.
pub fn lex_le(a: &str, b: &str) -> (r: bool)
    ensures
        r == spec_lex_le(a@, b@),
{
    let r = lex_le_from(a, b, 0);
    proof {
        assert(a@.skip(0) =~= a@);
        assert(b@.skip(0) =~= b@);
    }
    r
}

/// A message addresses a command when it starts with the configured
/// prefix followed by the command word.
pub fn is_command(content: &str, prefix: &str, command: &str) -> (r: bool)
    ensures
        r == spec_starts_with(content@, prefix@ + command@),
{
    let mut word = String::from_str(prefix);
    word.append(command);
    str_starts_with(content, word.as_str())
}

/// Number of occurrences of `c` in `s`.
pub open spec fn spec_count_char(s: Seq<char>, c: char) -> int
    decreases s.len(),
{
    if s.len() == 0 {
        0
    } else {
        spec_count_char(s.drop_last(), c) + if s.last() == c {
            1int
        } else {
            0int
        }
    }
}

proof fn lemma_count_char_take_step(s: Seq<char>, c: char, i: int)
    requires
        0 <= i < s.len(),
    ensures
        spec_count_char(s.take(i + 1), c) == spec_count_char(s.take(i), c) + if s[i] == c {
            1int
        } else {
            0int
        },
{
    assert(s.take(i + 1).drop_last() =~= s.take(i));
    assert(s.take(i + 1).last() == s[i]);
}

/// Counts how many times `c` occurs in `s`.
pub fn count_char(s: &str, c: char) -> (n: usize)
    ensures
        n == spec_count_char(s@, c),
        n <= s@.len(),
{
    let len = s.unicode_len();
    let mut i: usize = 0;
    let mut n: usize = 0;
    proof {
        assert(s@.take(0) =~= Seq::<char>::empty());
    }
    while i < len
        invariant
            len == s@.len(),
            i <= len,
            n == spec_count_char(s@.take(i as int), c),
            n <= i,
        decreases len - i,
    {
        proof {
            lemma_count_char_take_step(s@, c, i as int);
        }
        if s.get_char(i) == c {
            n = n + 1;
        }
        i = i + 1;
    }
    proof {
        assert(s@.take(len as int) =~= s@);
    }
    n
}

/// A positive count names at least one occurrence.
pub proof fn lemma_count_char_pos(s: Seq<char>, c: char)
    requires
        spec_count_char(s, c) != 0,
    ensures
        exists|j: int| 0 <= j < s.len() && s[j] == c,
    decreases s.len(),
{
    if s.len() > 0 {
        if s.last() == c {
            assert(s[s.len() - 1] == c);
        } else {
            lemma_count_char_pos(s.drop_last(), c);
            let j = choose|j: int| 0 <= j < s.drop_last().len() && s.drop_last()[j] == c;
            assert(s[j] == c);
        }
    }
}

/// Finds the first occurrence of `c` in `s`.
pub fn find_char(s: &str, c: char) -> (r: Option<usize>)
    ensures
        match r {
            Some(i) => i < s@.len() && s@[i as int] == c && forall|j: int|
                0 <= j < i ==> s@[j] != c,
            None => forall|j: int| 0 <= j < s@.len() ==> s@[j] != c,
        },
{
    let len = s.unicode_len();
    let mut i: usize = 0;
    while i < len
        invariant
            len == s@.len(),
            i <= len,
            forall|j: int| 0 <= j < i ==> s@[j] != c,
        decreases len - i,
    {
        if s.get_char(i) == c {
            return Some(i);
        }
        i = i + 1;
    }
    None
}

} // verus!
