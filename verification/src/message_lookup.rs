//! The message-lookup command: choosing whose counter is read and
//! rendering the reply.  The store read and the reply delivery live
//! with the caller.

use vstd::prelude::*;

use crate::digits::{append_decimal, spec_decimal};
use crate::message_counting::CounterRead;
use crate::text::{count_char, find_char, spec_count_char, spec_starts_with, str_starts_with};

verus! {

/// The configured prefix and command word this command answers to.
pub struct CommandArgs {
    pub prefix: String,
    pub command: String,
}

/// Whose counter the command asks for.
#[derive(Clone, Debug, PartialEq, Eq)]
pub enum LookupTarget {
    /// No argument: the requester's own counter.
    Author,
    /// The argument named a role, not a member.
    Invalid,
    /// The member id the argument named, its mention mark stripped.
    User(String),
}

/// The member mention mark that opens an argument.
pub open spec fn spec_mention_open() -> Seq<char> {
    "<@!"@
}

/// The argument with a leading `<@!` and a trailing `>` removed,
/// turning a member mention into the bare member id.
pub open spec fn spec_strip_mention(arg: Seq<char>) -> Seq<char> {
    let inner = if arg.len() >= 3 && arg.subrange(0, 3) == spec_mention_open() {
        arg.skip(3)
    } else {
        arg
    };
    if inner.len() > 0 && inner.last() == '>' {
        inner.drop_last()
    } else {
        inner
    }
}

fn strip_mention(arg: &str) -> (r: String)
    ensures
        r@ == spec_strip_mention(arg@),
{
    let len = arg.unicode_len();
    proof {
        reveal_strlit("<@!");
    }
    let marked = str_starts_with(arg, "<@!");
    let inner = if marked {
        arg.substring_char(3, len)
    } else {
        arg
    };
    proof {
        if marked {
            assert(arg@.subrange(3, len as int) =~= arg@.skip(3));
        }
    }
    let ilen = inner.unicode_len();
    if ilen > 0 && inner.get_char(ilen - 1) == '>' {
        let r = inner.substring_char(0, ilen - 1).to_owned();
        proof {
            assert(inner@.subrange(0, ilen - 1) =~= inner@.drop_last());
        }
        r
    } else {
        inner.to_owned()
    }
}

/// Picks the lookup target from the command text: with exactly one
/// argument it names the member — unless it mentions a role — and
/// with any other shape the requester's own counter is read.
pub fn lookup_target(content: &str) -> (r: LookupTarget)
    ensures
        spec_count_char(content@, ' ') != 1 ==> r == LookupTarget::Author,
        spec_count_char(content@, ' ') == 1 ==> (forall|k: int|
            (0 <= k < content@.len() && #[trigger] content@[k] == ' ' && (forall|j: int|
                0 <= j < k ==> content@[j] != ' ')) ==> {
                let arg = content@.subrange(k + 1, content@.len() as int);
                if spec_count_char(arg, '&') != 0 {
                    r == LookupTarget::Invalid
                } else {
                    r matches LookupTarget::User(id) && id@ == spec_strip_mention(arg)
                }
            }),
{
    let spaces = count_char(content, ' ');
    if spaces != 1 {
        return LookupTarget::Author;
    }
    let k = match find_char(content, ' ') {
        Some(k) => k,
        None => {
            proof {
                crate::text::lemma_count_char_pos(content@, ' ');
            }
            return LookupTarget::Author;
        },
    };
    let len = content.unicode_len();
    let arg = content.substring_char(k + 1, len);
    proof {
        assert forall|k2: int|
            (0 <= k2 < content@.len() && #[trigger] content@[k2] == ' ' && (forall|j: int|
                0 <= j < k2 ==> content@[j] != ' ')) implies k2 == k by {
            if k2 < k {
                assert(content@[k2] != ' ');
            } else if k2 > k {
                assert(content@[k as int] != ' ');
            }
        }
    }
    if count_char(arg, '&') != 0 {
        LookupTarget::Invalid
    } else {
        LookupTarget::User(strip_mention(arg))
    }
}

/// The counter value the reply shows: a missing value reads as zero,
/// a store error yields no reply but the internal-error one.
pub fn lookup_count(read: CounterRead) -> (r: Option<i64>)
    ensures
        match read {
            CounterRead::Missing => r == Some(0i64),
            CounterRead::Value(n) => r == Some(n),
            CounterRead::Error => r is None,
        },
{
    match read {
        CounterRead::Missing => Some(0),
        CounterRead::Value(n) => Some(n),
        CounterRead::Error => None,
    }
}

/// The decimal rendering of a signed count.
pub open spec fn spec_signed_decimal(n: int) -> Seq<char> {
    if n < 0 {
        "-"@ + spec_decimal(-n)
    } else {
        spec_decimal(n)
    }
}

/// Appends a signed count in decimal.
pub fn append_signed_decimal(s: &mut String, n: i64)
    ensures
        final(s)@ == old(s)@ + spec_signed_decimal(n as int),
{
    if n >= 0 {
        append_decimal(s, n as u64);
    } else {
        s.append("-");
        let mag: u64 = ((-(n + 1)) as u64) + 1;
        append_decimal(s, mag);
        proof {
            assert(mag == -(n as int));
            assert(s@ =~= old(s)@ + spec_signed_decimal(n as int));
        }
    }
}

/// The lookup reply, showing the member and the count.
pub open spec fn spec_lookup_message(user: Seq<char>, count: int) -> Seq<char> {
    "<@!"@ + user + "> currently has "@ + spec_signed_decimal(count) + " messages."@
}

pub fn lookup_message(user: &str, count: i64) -> (r: String)
    ensures
        r@ == spec_lookup_message(user@, count as int),
{
    let mut s = String::from_str("<@!");
    s.append(user);
    s.append("> currently has ");
    append_signed_decimal(&mut s, count);
    s.append(" messages.");
    s
}

/// Reply for an argument that names a role instead of a member.
pub open spec fn spec_invalid_user_message() -> Seq<char> {
    "Invalid User"@
}

pub fn invalid_user_message() -> (r: String)
    ensures
        r@ == spec_invalid_user_message(),
{
    String::from_str("Invalid User")
}

} // verus!
