//! Bearer-credential extraction: a pure string operation. A value of the
//! form `Bearer <token>` (case-insensitive scheme) yields the token with
//! surrounding whitespace trimmed; any other shape — another scheme, a
//! missing header — is "no token", never an error. Whether that is
//! acceptable is the authorization layer's decision, not this one's.

use vstd::prelude::*;
use vstd::string::StrSliceExecFns;
use vstd::string::StringExecFns;

verus! {

/// The whitespace the trim removes: the Unicode white-space characters,
/// exactly the set `str::trim` strips.
pub open spec fn is_space(c: char) -> bool {
    let n = c as int;
    ||| 9 <= n <= 13
    ||| n == 32
    ||| n == 0x85
    ||| n == 0xA0
    ||| n == 0x1680
    ||| 0x2000 <= n <= 0x200A
    ||| n == 0x2028
    ||| n == 0x2029
    ||| n == 0x202F
    ||| n == 0x205F
    ||| n == 0x3000
}

/// `s` without its leading whitespace.
pub open spec fn trim_front(s: Seq<char>) -> Seq<char>
    decreases s.len(),
{
    if s.len() > 0 && is_space(s[0]) {
        trim_front(s.drop_first())
    } else {
        s
    }
}

/// `s` without its trailing whitespace.
pub open spec fn trim_back(s: Seq<char>) -> Seq<char>
    decreases s.len(),
{
    if s.len() > 0 && is_space(s.last()) {
        trim_back(s.drop_last())
    } else {
        s
    }
}

/// `s` without surrounding whitespace.
pub open spec fn spec_trim(s: Seq<char>) -> Seq<char> {
    trim_back(trim_front(s))
}

/// `c` is the letter `l` up to ASCII case: `l` itself, or its upper-case
/// form 32 code points below.
pub open spec fn matches_lower(c: char, l: char) -> bool {
    c == l || (c as int) + 32 == (l as int)
}

/// The value starts with the bearer scheme: the word "bearer" in any case,
/// then one space.
pub open spec fn spec_is_bearer(s: Seq<char>) -> bool {
    &&& s.len() >= 7
    &&& matches_lower(s[0], 'b')
    &&& matches_lower(s[1], 'e')
    &&& matches_lower(s[2], 'a')
    &&& matches_lower(s[3], 'r')
    &&& matches_lower(s[4], 'e')
    &&& matches_lower(s[5], 'r')
    &&& s[6] == ' '
}

/// The token carried by a bearer value: what follows the scheme, trimmed.
pub open spec fn spec_bearer_token(s: Seq<char>) -> Seq<char> {
    spec_trim(s.skip(7))
}

fn char_is_space(c: char) -> (b: bool)
    ensures
        b == is_space(c),
{
    let n = c as u32;
    (9 <= n && n <= 13) || n == 32 || n == 0x85 || n == 0xA0 || n == 0x1680 || (0x2000 <= n && n
        <= 0x200A) || n == 0x2028 || n == 0x2029 || n == 0x202F || n == 0x205F || n == 0x3000
}

fn char_matches_lower(c: char, l: char) -> (b: bool)
    ensures
        b == matches_lower(c, l),
{
    c == l || (c as u64) + 32 == (l as u64)
}

/// Dropping each leading space in turn reaches the first non-space.
proof fn lemma_trim_front_at(s: Seq<char>, i: int)
    requires
        0 <= i <= s.len(),
        forall|j: int| 0 <= j < i ==> is_space(#[trigger] s[j]),
        i < s.len() ==> !is_space(s[i]),
    ensures
        trim_front(s) == s.skip(i),
    decreases i,
{
    if i == 0 {
        assert(s.skip(0) =~= s);
    } else {
        lemma_trim_front_at(s.drop_first(), i - 1);
        assert(s.drop_first().skip(i - 1) =~= s.skip(i));
    }
}

/// Dropping each trailing space in turn reaches the last non-space.
proof fn lemma_trim_back_at(s: Seq<char>, e: int)
    requires
        0 <= e <= s.len(),
        forall|j: int| e <= j < s.len() ==> is_space(#[trigger] s[j]),
        e > 0 ==> !is_space(s[e - 1]),
    ensures
        trim_back(s) == s.take(e),
    decreases s.len(),
{
    if e == s.len() {
        assert(s.take(e) =~= s);
    } else {
        lemma_trim_back_at(s.drop_last(), e);
        assert(s.drop_last().take(e) =~= s.take(e));
    }
}

/// Extract the token from an optionally present authorization value: the
/// remainder of a case-insensitive `Bearer ` prefix, trimmed of surrounding
/// whitespace. Every other shape is "no token".
pub fn unwrap_bearer(key: Option<&str>) -> (r: Option<String>)
    ensures
        match key {
            Some(k) => {
                if spec_is_bearer(k@) {
                    r matches Some(t) && t@ == spec_bearer_token(k@)
                } else {
                    r is None
                }
            },
            None => r is None,
        },
{
    let k = match key {
        Some(k) => k,
        None => {
            return None;
        },
    };
    let n = k.unicode_len();
    if n < 7 {
        return None;
    }
    let scheme_ok = char_matches_lower(k.get_char(0), 'b') && char_matches_lower(
        k.get_char(1),
        'e',
    ) && char_matches_lower(k.get_char(2), 'a') && char_matches_lower(k.get_char(3), 'r')
        && char_matches_lower(k.get_char(4), 'e') && char_matches_lower(k.get_char(5), 'r')
        && k.get_char(6) == ' ';
    if !scheme_ok {
        return None;
    }
    let mut start: usize = 7;
    while start < n && char_is_space(k.get_char(start))
        invariant
            7 <= start <= n,
            n == k@.len(),
            forall|j: int| 7 <= j < start ==> is_space(#[trigger] k@[j]),
        decreases n - start,
    {
        start = start + 1;
    }
    let mut end: usize = n;
    while end > start && char_is_space(k.get_char(end - 1))
        invariant
            start <= end <= n,
            n == k@.len(),
            forall|j: int| end <= j < n ==> is_space(#[trigger] k@[j]),
        decreases end,
    {
        end = end - 1;
    }
    let token = k.substring_char(start, end);
    proof {
        let rest = k@.skip(7);
        lemma_trim_front_at(rest, start - 7);
        assert(rest.skip(start - 7) =~= k@.subrange(start as int, n as int));
        lemma_trim_back_at(rest.skip(start - 7), end - start);
        assert(rest.skip(start - 7).take(end - start) =~= k@.subrange(start as int, end as int));
    }
    Some(token.to_owned())
}

} // verus!
