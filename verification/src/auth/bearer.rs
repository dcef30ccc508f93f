//! The `Authorization` header of a request.

use vstd::prelude::*;

verus! {

/// The scheme word and the blank that precede a token in the header.
pub open spec fn bearer_prefix() -> Seq<char> {
    seq!['B', 'e', 'a', 'r', 'e', 'r', ' ']
}

/// Whether `text` begins with the scheme prefix.
pub open spec fn has_bearer_prefix(text: Seq<char>) -> bool {
    text.len() >= 7 && text.subrange(0, 7) == bearer_prefix()
}

/// The token that a header value names: the value without the scheme prefix,
/// however often the prefix is repeated. A value without the prefix is taken
/// as the token itself.
pub open spec fn bearer_token(header: Seq<char>) -> Seq<char>
    decreases header.len(),
{
    if has_bearer_prefix(header) {
        bearer_token(header.skip(7))
    } else {
        header
    }
}

/// Whether the seven characters of `header` from `at` on are the scheme prefix.
fn prefix_at(header: &str, at: usize, len: usize) -> (found: bool)
    requires
        len == header@.len(),
        at <= len,
    ensures
        found == has_bearer_prefix(header@.skip(at as int)),
{
    if len - at < 7 {
        return false;
    }
    let found = header.get_char(at) == 'B' && header.get_char(at + 1) == 'e' && header.get_char(
        at + 2,
    ) == 'a' && header.get_char(at + 3) == 'r' && header.get_char(at + 4) == 'e'
        && header.get_char(at + 5) == 'r' && header.get_char(at + 6) == ' ';
    proof {
        let rest = header@.skip(at as int);
        let head = rest.subrange(0, 7);
        if found {
            assert(head =~= bearer_prefix());
        } else {
            assert(head[0] == rest[0] && head[1] == rest[1] && head[2] == rest[2] && head[3]
                == rest[3] && head[4] == rest[4] && head[5] == rest[5] && head[6] == rest[6]);
        }
    }
    found
}

/// Strips the scheme prefix from a header value.
pub fn strip_bearer(header: &str) -> (token: &str)
    ensures
        token@ == bearer_token(header@),
{
    let len = header.unicode_len();
    let mut at: usize = 0;
    assert(header@.skip(0) =~= header@);
    while prefix_at(header, at, len)
        invariant
            len == header@.len(),
            at <= len,
            bearer_token(header@) == bearer_token(header@.skip(at as int)),
        decreases len - at,
    {
        assert(header@.skip(at as int).skip(7) =~= header@.skip(at + 7));
        at += 7;
    }
    assert(header@.skip(at as int) =~= header@.subrange(at as int, len as int));
    header.substring_char(at, len)
}

} // verus!
